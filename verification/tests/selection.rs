use triangle_present::device::{
    pick_device, pick_queue_family, DeviceChoice, DeviceKind, DeviceTraits, QueueFamilyTraits,
};
use triangle_present::swapchain::{
    choose_swapchain_settings, viewport_extent, Extent2d, SurfaceTraits, SwapchainSettings,
};

fn fam(graphics: bool, surface: bool) -> QueueFamilyTraits {
    QueueFamilyTraits {
        supports_graphics: graphics,
        supports_surface: surface,
    }
}

fn dev(kind: DeviceKind, ext: bool, families: Vec<QueueFamilyTraits>) -> DeviceTraits {
    DeviceTraits {
        kind,
        has_required_extensions: ext,
        queue_families: families,
    }
}

#[test]
fn no_queue_families() {
    assert_eq!(pick_queue_family(&vec![]), None);
}

#[test]
fn no_usable_queue_family() {
    let families = vec![fam(true, false), fam(false, true), fam(false, false)];
    assert_eq!(pick_queue_family(&families), None);
}

#[test]
fn first_usable_queue_family_wins() {
    let families = vec![fam(true, false), fam(true, true), fam(true, true)];
    assert_eq!(pick_queue_family(&families), Some(1));
}

#[test]
fn no_devices() {
    assert_eq!(pick_device(&vec![]), None);
}

#[test]
fn device_without_extensions_is_skipped() {
    let devices = vec![dev(DeviceKind::Discrete, false, vec![fam(true, true)])];
    assert_eq!(pick_device(&devices), None);
}

#[test]
fn device_without_usable_family_is_skipped() {
    let devices = vec![dev(DeviceKind::Discrete, true, vec![fam(true, false)])];
    assert_eq!(pick_device(&devices), None);
}

#[test]
fn discrete_beats_integrated_whatever_the_order() {
    let devices = vec![
        dev(DeviceKind::Integrated, true, vec![fam(true, true)]),
        dev(DeviceKind::Discrete, true, vec![fam(true, true)]),
    ];
    assert_eq!(
        pick_device(&devices),
        Some(DeviceChoice {
            device_index: 1,
            queue_family_index: 0,
        })
    );
}

#[test]
fn kinds_rank_discrete_integrated_virtual_cpu_other() {
    let kinds = [
        DeviceKind::Other,
        DeviceKind::Cpu,
        DeviceKind::Virtual,
        DeviceKind::Integrated,
        DeviceKind::Discrete,
    ];
    // Adding an ever better device moves the choice to it.
    let mut devices: Vec<DeviceTraits> = Vec::new();
    for (n, kind) in kinds.iter().enumerate() {
        devices.push(dev(*kind, true, vec![fam(true, true)]));
        assert_eq!(
            pick_device(&devices),
            Some(DeviceChoice {
                device_index: n,
                queue_family_index: 0,
            })
        );
    }
}

#[test]
fn equally_ranked_devices_keep_the_first() {
    let devices = vec![
        dev(DeviceKind::Integrated, true, vec![fam(true, true)]),
        dev(DeviceKind::Integrated, true, vec![fam(false, false), fam(true, true)]),
    ];
    assert_eq!(
        pick_device(&devices),
        Some(DeviceChoice {
            device_index: 0,
            queue_family_index: 0,
        })
    );
}

#[test]
fn chosen_device_uses_its_first_usable_family() {
    let devices = vec![
        dev(DeviceKind::Cpu, true, vec![fam(true, true)]),
        dev(
            DeviceKind::Discrete,
            true,
            vec![fam(false, true), fam(true, false), fam(true, true)],
        ),
    ];
    assert_eq!(
        pick_device(&devices),
        Some(DeviceChoice {
            device_index: 1,
            queue_family_index: 2,
        })
    );
}

#[test]
fn ineligible_better_kind_does_not_block_a_worse_one() {
    let devices = vec![
        dev(DeviceKind::Discrete, false, vec![fam(true, true)]),
        dev(DeviceKind::Cpu, true, vec![fam(true, true)]),
    ];
    assert_eq!(
        pick_device(&devices),
        Some(DeviceChoice {
            device_index: 1,
            queue_family_index: 0,
        })
    );
}

#[test]
fn swapchain_settings_take_minimum_count_and_first_entries() {
    let surface = SurfaceTraits {
        min_image_count: 2,
        format_count: 5,
        alpha_count: 3,
    };
    let extent = Extent2d {
        width: 800,
        height: 600,
    };
    assert_eq!(
        choose_swapchain_settings(&surface, extent),
        SwapchainSettings {
            image_count: 2,
            format_index: 0,
            alpha_index: 0,
            extent: Extent2d {
                width: 800,
                height: 600,
            },
        }
    );
}

#[test]
fn viewport_takes_the_first_image_extent() {
    let extents = vec![
        Extent2d {
            width: 1024,
            height: 768,
        },
        Extent2d {
            width: 1024,
            height: 768,
        },
    ];
    assert_eq!(
        viewport_extent(&extents),
        Extent2d {
            width: 1024,
            height: 768,
        }
    );
}
