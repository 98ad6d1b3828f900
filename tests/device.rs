use turtle::device::{
    depth_format_candidates, find_depth_format, find_supported_format, preference_order,
    select_physical_device, unique_family_indices, DEVICE_TYPE_DISCRETE_GPU, DEVICE_TYPE_INTEGRATED_GPU,
    DeviceError, FormatProperties, ImageTiling, PhysicalDevice, QueueFamily, QueueType,
    FORMAT_D24_UNORM_S8_UINT, FORMAT_D32_SFLOAT, FORMAT_D32_SFLOAT_S8_UINT,
    FORMAT_FEATURE_DEPTH_STENCIL_ATTACHMENT, QUEUE_GRAPHICS, QUEUE_TRANSFER,
};
use turtle::swapchain::{Extent2D, SurfaceCapabilities};

fn caps() -> SurfaceCapabilities {
    SurfaceCapabilities {
        min_image_extent: Extent2D { width: 1, height: 1 },
        max_image_extent: Extent2D { width: 4096, height: 4096 },
    }
}

fn device(families: Vec<QueueFamily>) -> PhysicalDevice {
    PhysicalDevice {
        queue_families: families,
        surface_capabilities: caps(),
        formats: Vec::new(),
        present_modes: Vec::new(),
        depth_format: FORMAT_D32_SFLOAT,
    }
}

#[test]
fn queue_family_flags() {
    let f = QueueFamily::new(3, QUEUE_GRAPHICS | QUEUE_TRANSFER | 0x2, 4, false);
    assert!(f.supports_graphics());
    assert!(f.supports_transfer());
    assert!(!f.supports_present());
    assert!(f.has_queues());
    let g = QueueFamily::new(0, 0x2, 0, true);
    assert!(!g.supports_graphics());
    assert!(!g.supports_transfer());
    assert!(g.supports_present());
    assert!(!g.has_queues());
}

#[test]
fn one_family_for_every_role() {
    let all = QueueFamily::new(0, QUEUE_GRAPHICS | QUEUE_TRANSFER, 1, true);
    let devices = vec![device(vec![all])];
    let (d, g, t, p) = select_physical_device(&devices).unwrap();
    assert_eq!(d, 0);
    assert_eq!(g, all);
    assert_eq!(t, all);
    assert_eq!(p, all);
}

#[test]
fn first_family_per_role_on_first_suitable_device() {
    let graphics_only = QueueFamily::new(0, QUEUE_GRAPHICS, 1, false);
    let transfer_only = QueueFamily::new(1, QUEUE_TRANSFER, 2, false);
    let empty_present = QueueFamily::new(2, 0, 0, true);
    let present = QueueFamily::new(3, 0, 1, true);
    let second_graphics = QueueFamily::new(4, QUEUE_GRAPHICS | QUEUE_TRANSFER, 1, true);
    let devices = vec![
        device(vec![graphics_only, transfer_only]),
        device(vec![graphics_only, transfer_only, empty_present, present, second_graphics]),
    ];
    let (d, g, t, p) = select_physical_device(&devices).unwrap();
    assert_eq!(d, 1);
    assert_eq!(g.index, 0);
    assert_eq!(t.index, 1);
    assert_eq!(p.index, 3);
}

#[test]
fn no_suitable_device() {
    let graphics_only = QueueFamily::new(0, QUEUE_GRAPHICS, 1, true);
    let devices = vec![device(vec![graphics_only]), device(vec![])];
    assert_eq!(select_physical_device(&devices), Err(DeviceError::NoSuitableDevice));
    assert_eq!(select_physical_device(&[]), Err(DeviceError::NoSuitableDevice));
}

#[test]
fn queue_roles_are_distinct() {
    assert_ne!(QueueType::Graphics, QueueType::Transfer);
    assert_ne!(QueueType::Transfer, QueueType::Present);
}

#[test]
fn supported_format_by_tiling() {
    let wanted = FORMAT_FEATURE_DEPTH_STENCIL_ATTACHMENT;
    let props = vec![
        FormatProperties { format: 126, linear_tiling_features: wanted, optimal_tiling_features: 0 },
        FormatProperties { format: 130, linear_tiling_features: 0, optimal_tiling_features: wanted | 1 },
        FormatProperties { format: 129, linear_tiling_features: wanted, optimal_tiling_features: wanted },
    ];
    assert_eq!(find_supported_format(&props, ImageTiling::Linear, wanted), Ok(126));
    assert_eq!(find_supported_format(&props, ImageTiling::Optimal, wanted), Ok(130));
    assert_eq!(find_depth_format(&props), Ok(130));
    assert_eq!(
        find_supported_format(&props, ImageTiling::Optimal, 0x400),
        Err(DeviceError::NoSupportedFormat)
    );
    assert_eq!(find_depth_format(&[]), Err(DeviceError::NoSupportedFormat));
}

#[test]
fn depth_candidates_in_preference_order() {
    assert_eq!(
        depth_format_candidates(),
        vec![FORMAT_D32_SFLOAT, FORMAT_D32_SFLOAT_S8_UINT, FORMAT_D24_UNORM_S8_UINT]
    );
}

#[test]
fn discrete_then_integrated_then_rest() {
    let cpu = 4;
    let virtual_gpu = 3;
    let types = [cpu, DEVICE_TYPE_INTEGRATED_GPU, DEVICE_TYPE_DISCRETE_GPU, virtual_gpu, DEVICE_TYPE_DISCRETE_GPU];
    assert_eq!(preference_order(&types), vec![2, 4, 1, 0, 3]);
    assert_eq!(preference_order(&[]), Vec::<usize>::new());
}

#[test]
fn family_indices_once_each() {
    let a = QueueFamily::new(2, QUEUE_GRAPHICS, 1, true);
    let b = QueueFamily::new(0, QUEUE_TRANSFER, 1, false);
    assert_eq!(unique_family_indices(&[a, b, a]), vec![2, 0]);
    assert_eq!(unique_family_indices(&[a, a, a]), vec![2]);
}
