use hudhook::texture::{
    descriptor_offset, pitched_upload, upload_layout, TextureRegistry, TextureSize,
    TextureSizeMismatch, TextureSlot, UploadLayout,
};

#[test]
fn textures_get_ids_in_order() {
    let mut r = TextureRegistry::new(8);
    assert_eq!(r.len(), 0);
    assert_eq!(r.register(64, 32), 0);
    assert_eq!(r.register(16, 16), 1);
    assert_eq!(r.len(), 2);
    assert_eq!(r.size(0), TextureSize { width: 64, height: 32 });
    assert_eq!(r.size(1), TextureSize { width: 16, height: 16 });
}

#[test]
fn replacement_needs_the_same_size() {
    let mut r = TextureRegistry::new(8);
    let id = r.register(64, 32);
    assert_eq!(r.check_replacement(id, 64, 32), Ok(()));
    assert_eq!(
        r.check_replacement(id, 32, 64),
        Err(TextureSizeMismatch {
            expected: TextureSize { width: 64, height: 32 },
            given: TextureSize { width: 32, height: 64 },
        })
    );
}

#[test]
fn descriptor_heap_doubles_when_full() {
    let mut r = TextureRegistry::new(2);
    assert_eq!(r.allocate(1, 1, 32), TextureSlot { id: 0, descriptor_offset: 0, copied_descriptors: None });
    assert_eq!(r.allocate(1, 1, 32), TextureSlot { id: 1, descriptor_offset: 32, copied_descriptors: None });
    assert_eq!(r.descriptor_capacity(), 2);
    // Two textures fill two descriptors: the heap doubles and both are copied.
    assert_eq!(r.allocate(1, 1, 32), TextureSlot { id: 2, descriptor_offset: 64, copied_descriptors: Some(2) });
    assert_eq!(r.descriptor_capacity(), 4);
    assert_eq!(r.grow_descriptors(), None);
    assert_eq!(descriptor_offset(5, 48), 240);
}

#[test]
fn upload_rows_are_aligned_to_256_bytes() {
    assert_eq!(upload_layout(64, 2), UploadLayout { row_size: 256, pitch: 256, size: 512 });
    assert_eq!(upload_layout(10, 3), UploadLayout { row_size: 40, pitch: 256, size: 768 });
    assert_eq!(upload_layout(65, 1), UploadLayout { row_size: 260, pitch: 512, size: 512 });
    assert_eq!(upload_layout(0, 4), UploadLayout { row_size: 0, pitch: 0, size: 0 });
}

#[test]
fn pitched_upload_places_rows_and_pads() {
    let data: Vec<u8> = (1..=6).collect();
    let out = pitched_upload(&data, 3, 4, 2);
    assert_eq!(out, vec![1, 2, 3, 0, 4, 5, 6, 0]);
    // When the pitch equals the row size the data is copied as is.
    let out = pitched_upload(&data, 3, 3, 2);
    assert_eq!(out, data);
    let layout = upload_layout(1, 2);
    let pixels = [10u8, 11, 12, 13, 20, 21, 22, 23];
    let out = pitched_upload(&pixels, layout.row_size, layout.pitch, 2);
    assert_eq!(out.len(), 512);
    assert_eq!(&out[0..4], &[10, 11, 12, 13]);
    assert!(out[4..256].iter().all(|&b| b == 0));
    assert_eq!(&out[256..260], &[20, 21, 22, 23]);
}
