use gpu_core::negotiate::{
    negotiate, required_device_extensions, DeviceExtension, NegotiateError, PhysicalDeviceCaps,
    QueueFamilyCaps,
};

fn family(graphics: bool, compute: bool, transfer: bool, present: bool) -> QueueFamilyCaps {
    QueueFamilyCaps { graphics, compute, transfer, present }
}

fn good_families() -> Vec<QueueFamilyCaps> {
    vec![
        family(true, true, true, true),
        family(false, false, true, false),
    ]
}

#[test]
fn required_extension_list_is_fixed() {
    let r = required_device_extensions();
    assert_eq!(r.len(), 13);
    assert_eq!(r[0], DeviceExtension::Swapchain);
    assert_eq!(r[12], DeviceExtension::ScalarBlockLayout);
    assert!(r.contains(&DeviceExtension::Synchronization2));
    assert!(r.contains(&DeviceExtension::DescriptorIndexing));
}

#[test]
fn negotiate_picks_first_qualifying_device() {
    let missing_extension = PhysicalDeviceCaps {
        // everything but the swapchain extension
        extensions: required_device_extensions().into_iter().skip(1).collect(),
        queue_families: good_families(),
    };
    let qualifying_a = PhysicalDeviceCaps {
        extensions: required_device_extensions(),
        queue_families: good_families(),
    };
    let qualifying_b = PhysicalDeviceCaps {
        extensions: required_device_extensions(),
        queue_families: good_families(),
    };
    let devices = vec![missing_extension, qualifying_a, qualifying_b];
    let choice = negotiate(&devices).unwrap();
    assert_eq!(choice.device_index, 1);
    assert_eq!(choice.main_queue_family_idx, 0);
    assert_eq!(choice.transfer_queue_family_idx, 1);
}

#[test]
fn negotiate_requires_distinct_transfer_family() {
    // The only transfer-capable family is also the graphics family.
    let device = PhysicalDeviceCaps {
        extensions: required_device_extensions(),
        queue_families: vec![family(true, true, true, true)],
    };
    assert_eq!(negotiate(&vec![device]), Err(NegotiateError::NoSuitableDevice));
}

#[test]
fn negotiate_requires_presentation_on_main_family() {
    let device = PhysicalDeviceCaps {
        extensions: required_device_extensions(),
        queue_families: vec![
            family(true, true, true, false),
            family(false, false, true, false),
        ],
    };
    assert_eq!(negotiate(&vec![device]), Err(NegotiateError::NoSuitableDevice));
}

#[test]
fn negotiate_skips_transfer_family_with_graphics() {
    let device = PhysicalDeviceCaps {
        extensions: required_device_extensions(),
        queue_families: vec![
            family(true, true, true, true),
            // transfer but also graphics: not a dedicated transfer family
            family(true, false, true, false),
            family(false, true, true, false),
        ],
    };
    let choice = negotiate(&vec![device]).unwrap();
    assert_eq!(choice.main_queue_family_idx, 0);
    assert_eq!(choice.transfer_queue_family_idx, 2);
}

#[test]
fn negotiate_fails_on_empty_enumeration() {
    assert_eq!(negotiate(&Vec::new()), Err(NegotiateError::NoSuitableDevice));
}

#[test]
fn negotiate_rejects_superset_violation_everywhere() {
    // Two devices, both missing one (different) required extension.
    let mut missing_sync: Vec<DeviceExtension> = required_device_extensions();
    missing_sync.retain(|e| *e != DeviceExtension::Synchronization2);
    let mut missing_dynamic: Vec<DeviceExtension> = required_device_extensions();
    missing_dynamic.retain(|e| *e != DeviceExtension::DynamicRendering);
    let devices = vec![
        PhysicalDeviceCaps { extensions: missing_sync, queue_families: good_families() },
        PhysicalDeviceCaps { extensions: missing_dynamic, queue_families: good_families() },
    ];
    assert_eq!(negotiate(&devices), Err(NegotiateError::NoSuitableDevice));
}
