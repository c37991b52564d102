use ash::vk;
use goldfish::queue_family::{find_queue_families, scan_queue_families, QueueFamily, QueueFamilyIndices};

fn family(flags: vk::QueueFlags, present_support: bool) -> QueueFamily {
    QueueFamily { queue_flags: flags.as_raw(), present_support }
}

#[test]
fn combined_family_is_preferred_and_first_present_family_wins() {
    let families = vec![
        family(vk::QueueFlags::COMPUTE, true),
        family(vk::QueueFlags::TRANSFER, false),
        family(vk::QueueFlags::GRAPHICS | vk::QueueFlags::COMPUTE, false),
    ];
    assert_eq!(
        find_queue_families(&families),
        Some(QueueFamilyIndices { graphics_family: 2, compute_family: 2, present_family: 0 })
    );
}

#[test]
fn scan_falls_back_to_first_compute_family() {
    let families = vec![
        family(vk::QueueFlags::TRANSFER, false),
        family(vk::QueueFlags::COMPUTE, false),
        family(vk::QueueFlags::COMPUTE | vk::QueueFlags::TRANSFER, true),
    ];
    let scan = scan_queue_families(&families);
    assert_eq!(scan.graphics_family, None);
    assert_eq!(scan.compute_family, Some(1));
    assert_eq!(scan.present_family, Some(2));
    assert_eq!(find_queue_families(&families), None);
}

#[test]
fn first_combined_family_wins_over_later_ones() {
    let families = vec![
        family(vk::QueueFlags::GRAPHICS | vk::QueueFlags::COMPUTE, false),
        family(vk::QueueFlags::GRAPHICS | vk::QueueFlags::COMPUTE, true),
        family(vk::QueueFlags::GRAPHICS | vk::QueueFlags::COMPUTE, true),
    ];
    assert_eq!(
        find_queue_families(&families),
        Some(QueueFamilyIndices { graphics_family: 0, compute_family: 0, present_family: 1 })
    );
}

#[test]
fn compute_follows_the_combined_family_once_one_is_seen() {
    let families = vec![
        family(vk::QueueFlags::COMPUTE, false),
        family(vk::QueueFlags::GRAPHICS | vk::QueueFlags::COMPUTE | vk::QueueFlags::TRANSFER, false),
        family(vk::QueueFlags::COMPUTE, true),
    ];
    let scan = scan_queue_families(&families);
    assert_eq!(scan.graphics_family, Some(1));
    assert_eq!(scan.compute_family, Some(1));
    assert_eq!(scan.present_family, Some(2));
    assert_eq!(
        scan.complete(),
        Some(QueueFamilyIndices { graphics_family: 1, compute_family: 1, present_family: 2 })
    );
}

#[test]
fn graphics_alone_is_no_combined_family() {
    let families = vec![
        family(vk::QueueFlags::GRAPHICS, true),
        family(vk::QueueFlags::TRANSFER | vk::QueueFlags::SPARSE_BINDING, true),
    ];
    let scan = scan_queue_families(&families);
    assert_eq!(scan.graphics_family, None);
    assert_eq!(scan.compute_family, None);
    assert_eq!(scan.present_family, Some(0));
    assert_eq!(find_queue_families(&families), None);
}

#[test]
fn no_families_resolve_nothing() {
    let families: Vec<QueueFamily> = Vec::new();
    let scan = scan_queue_families(&families);
    assert_eq!(scan.graphics_family, None);
    assert_eq!(scan.compute_family, None);
    assert_eq!(scan.present_family, None);
    assert_eq!(find_queue_families(&families), None);
}

#[test]
fn device_without_present_family_is_unsupported() {
    let families = vec![family(vk::QueueFlags::GRAPHICS | vk::QueueFlags::COMPUTE, false)];
    assert_eq!(find_queue_families(&families), None);
}
