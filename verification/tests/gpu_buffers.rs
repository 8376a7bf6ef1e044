use hudhook::gpu_buffers::{BufferCounts, Recreated, RenderBufferSizes, ResourceCapacity};

#[test]
fn render_buffers_grow_with_slack() {
    let mut s = RenderBufferSizes::new();
    // An empty first frame still creates both buffers.
    assert_eq!(s.check_sizes(0, 0), Recreated { vertex: true, index: true });
    assert_eq!(s, RenderBufferSizes { vertex_buffer_size: 5000, index_buffer_size: 5000 });
    assert_eq!(s.check_sizes(5000, 100), Recreated { vertex: false, index: false });
    assert_eq!(s.check_sizes(5001, 100), Recreated { vertex: true, index: false });
    assert_eq!(s, RenderBufferSizes { vertex_buffer_size: 10001, index_buffer_size: 5000 });
    assert_eq!(s.check_sizes(0, 0), Recreated { vertex: false, index: false });
}

#[test]
fn overlay_buffers_stay_larger_than_needed() {
    let mut c = BufferCounts { vtx_count: 100, idx_count: 100 };
    assert_eq!(c.resize(100, 50), Recreated { vertex: true, index: false });
    assert_eq!(c, BufferCounts { vtx_count: 4196, idx_count: 100 });
    assert_eq!(c.resize(4195, 99), Recreated { vertex: false, index: false });
    let mut z = BufferCounts { vtx_count: 0, idx_count: 0 };
    assert_eq!(z.resize(0, 0), Recreated { vertex: true, index: true });
    assert_eq!(z, BufferCounts { vtx_count: 4096, idx_count: 4096 });
}

#[test]
fn resources_follow_the_data_capacity() {
    let mut r = ResourceCapacity { resource_capacity: 5000 };
    assert!(!r.reserve(5000));
    assert!(r.reserve(8192));
    assert_eq!(r.resource_capacity, 8192);
    assert!(!r.reserve(100));
    assert_eq!(r.resource_capacity, 8192);
    assert_eq!(r.byte_width(20), 163840);
}
