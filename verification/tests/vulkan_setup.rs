use hudhook::vulkan_setup::{
    c_name_equals, swapchain_plan, SwapchainPlan, SwapchainSupport, IMAGE_USAGE_COLOR_ATTACHMENT, choose_format, choose_image_count, has_extension, choose_present_mode, choose_swap_extent, include_u32,
    is_device_suitable, pick_device, queue_create_families, select_queue_families, sharing_mode,
    DeviceCandidate, Extent2D, QueueFamilies, QueueFamilyInfo, SurfaceCapabilities, SurfaceFormat,
    DEVICE_TYPE_DISCRETE_GPU, DEVICE_TYPE_INTEGRATED_GPU, FORMAT_B8G8R8A8_UNORM, PRESENT_MODE_FIFO,
    PRESENT_MODE_MAILBOX, SHARING_MODE_CONCURRENT, SHARING_MODE_EXCLUSIVE,
};

#[test]
fn format_and_present_mode() {
    let other = SurfaceFormat { format: 37, color_space: 0 };
    let preferred = SurfaceFormat { format: FORMAT_B8G8R8A8_UNORM, color_space: 0 };
    assert_eq!(choose_format(&[other, preferred]), preferred);
    assert_eq!(choose_format(&[other]), other);
    assert_eq!(choose_format(&[SurfaceFormat { format: FORMAT_B8G8R8A8_UNORM, color_space: 5 }, other]).format, FORMAT_B8G8R8A8_UNORM);
    assert_eq!(choose_present_mode(&[0, PRESENT_MODE_MAILBOX]), PRESENT_MODE_MAILBOX);
    assert_eq!(choose_present_mode(&[0, 3]), PRESENT_MODE_FIFO);
    assert_eq!(choose_present_mode(&[]), PRESENT_MODE_FIFO);
}

fn caps(current: u32) -> SurfaceCapabilities {
    SurfaceCapabilities {
        current_extent: Extent2D { width: current, height: 600 },
        min_image_extent: Extent2D { width: 100, height: 100 },
        max_image_extent: Extent2D { width: 1000, height: 1000 },
        min_image_count: 2,
        max_image_count: 3,
    }
}

#[test]
fn extent_and_image_count() {
    assert_eq!(choose_swap_extent(caps(800), 5000, 5000), Extent2D { width: 800, height: 600 });
    assert_eq!(choose_swap_extent(caps(u32::MAX), 5000, 50), Extent2D { width: 1000, height: 100 });
    assert_eq!(choose_swap_extent(caps(u32::MAX), 640, 480), Extent2D { width: 640, height: 480 });
    assert_eq!(choose_image_count(caps(800)), 3);
    let mut c = caps(800);
    c.max_image_count = 2;
    assert_eq!(choose_image_count(c), 2);
}

#[test]
fn queue_families_and_devices() {
    let g = QueueFamilyInfo { graphics: true, present: false };
    let p = QueueFamilyInfo { graphics: false, present: true };
    let both = QueueFamilyInfo { graphics: true, present: true };
    assert_eq!(select_queue_families(&[g, p]), Some(QueueFamilies { graphics_queue: 0, present_queue: 1 }));
    assert_eq!(select_queue_families(&[both, g]), Some(QueueFamilies { graphics_queue: 0, present_queue: 0 }));
    assert_eq!(select_queue_families(&[g, g, p]), Some(QueueFamilies { graphics_queue: 1, present_queue: 2 }));
    assert_eq!(select_queue_families(&[g]), None);
    let q = QueueFamilies { graphics_queue: 0, present_queue: 1 };
    assert_eq!(queue_create_families(q), vec![0, 1]);
    assert_eq!(sharing_mode(q), SHARING_MODE_CONCURRENT);
    let q1 = QueueFamilies { graphics_queue: 2, present_queue: 2 };
    assert_eq!(queue_create_families(q1), vec![2]);
    assert_eq!(sharing_mode(q1), SHARING_MODE_EXCLUSIVE);

    let good = DeviceCandidate {
        device_type: DEVICE_TYPE_DISCRETE_GPU,
        supports_swapchain: true,
        queue_families: Some(q),
        format_count: 1,
        present_mode_count: 1,
    };
    let cpu = DeviceCandidate { device_type: 4, ..good };
    let no_formats = DeviceCandidate { format_count: 0, ..good };
    let integrated = DeviceCandidate { device_type: DEVICE_TYPE_INTEGRATED_GPU, ..good };
    assert!(is_device_suitable(good));
    assert!(!is_device_suitable(cpu));
    assert!(!is_device_suitable(no_formats));
    assert_eq!(pick_device(&[cpu, no_formats, integrated, good]), Some(2));
    assert_eq!(pick_device(&[cpu]), None);
}

#[test]
fn spirv_words_are_little_endian() {
    let bytes = [0x03u8, 0x02, 0x23, 0x07, 0x01, 0x00, 0x01, 0x00, 0xFF];
    assert_eq!(include_u32(&bytes), vec![0x0723_0203, 0x0001_0001]);
}

fn c_buffer(s: &str) -> Vec<u8> {
    let mut b = s.as_bytes().to_vec();
    b.resize(256, 0);
    b
}

#[test]
fn swapchain_extension_is_looked_up_by_exact_name() {
    assert!(c_name_equals(&c_buffer("VK_KHR_swapchain"), b"VK_KHR_swapchain"));
    assert!(!c_name_equals(&c_buffer("VK_KHR_swapchain_mutable_format"), b"VK_KHR_swapchain"));
    assert!(!c_name_equals(&c_buffer("VK_KHR"), b"VK_KHR_swapchain"));
    let offered = vec![c_buffer("VK_KHR_maintenance1"), c_buffer("VK_KHR_swapchain")];
    assert!(has_extension(&offered, b"VK_KHR_swapchain"));
    assert!(!has_extension(&offered[..1].to_vec(), b"VK_KHR_swapchain"));
    assert!(!has_extension(&vec![], b"VK_KHR_swapchain"));
}

#[test]
fn swapchain_plan_combines_the_choices() {
    let preferred = SurfaceFormat { format: FORMAT_B8G8R8A8_UNORM, color_space: 0 };
    let other = SurfaceFormat { format: 37, color_space: 0 };
    let support = SwapchainSupport {
        capabilities: caps(u32::MAX),
        formats: vec![other, preferred],
        present_modes: vec![PRESENT_MODE_FIFO, PRESENT_MODE_MAILBOX],
    };
    let plan = swapchain_plan(&support, QueueFamilies { graphics_queue: 0, present_queue: 1 }, 2000, 50);
    assert_eq!(
        plan,
        SwapchainPlan {
            min_image_count: 3,
            present_mode: PRESENT_MODE_MAILBOX,
            image_extent: Extent2D { width: 1000, height: 100 },
            image_format: preferred,
            image_array_layers: 1,
            image_usage: IMAGE_USAGE_COLOR_ATTACHMENT,
            sharing_mode: SHARING_MODE_CONCURRENT,
            present_family: 1,
            graphics_family: 0,
            clipped: true,
        }
    );
    let support = SwapchainSupport { capabilities: caps(800), formats: vec![other], present_modes: vec![PRESENT_MODE_FIFO] };
    let plan = swapchain_plan(&support, QueueFamilies { graphics_queue: 2, present_queue: 2 }, 640, 480);
    assert_eq!(plan.image_extent, Extent2D { width: 800, height: 600 });
    assert_eq!(plan.image_format, other);
    assert_eq!(plan.present_mode, PRESENT_MODE_FIFO);
    assert_eq!(plan.sharing_mode, SHARING_MODE_EXCLUSIVE);
}
