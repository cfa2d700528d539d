use halvar::device::{class_rank, find_queue_family, select, DeviceCandidate, DeviceClass,
    NoSuitableDeviceError, QueueFamily, Selection};

fn usable() -> QueueFamily {
    QueueFamily { supports_graphics: true, supports_present: true }
}

fn graphics_only() -> QueueFamily {
    QueueFamily { supports_graphics: true, supports_present: false }
}

fn present_only() -> QueueFamily {
    QueueFamily { supports_graphics: false, supports_present: true }
}

fn candidate(class: DeviceClass) -> DeviceCandidate {
    DeviceCandidate {
        supports_required_extensions: true,
        queue_families: vec![usable()],
        class,
    }
}

#[test]
fn rank_follows_class_order() {
    assert_eq!(class_rank(DeviceClass::DiscreteGpu), 0);
    assert_eq!(class_rank(DeviceClass::IntegratedGpu), 1);
    assert_eq!(class_rank(DeviceClass::VirtualGpu), 2);
    assert_eq!(class_rank(DeviceClass::Cpu), 3);
    assert_eq!(class_rank(DeviceClass::Other), 4);
    assert_eq!(class_rank(DeviceClass::Unknown), 5);
}

#[test]
fn discrete_gpu_beats_cpu() {
    let devices = vec![candidate(DeviceClass::Cpu), candidate(DeviceClass::DiscreteGpu)];
    let sel = select(&devices).unwrap();
    assert_eq!(sel, Selection { device_index: 1, queue_family_index: 0 });
}

#[test]
fn lower_class_wins_in_either_order() {
    let devices = vec![candidate(DeviceClass::DiscreteGpu), candidate(DeviceClass::Cpu)];
    assert_eq!(select(&devices).unwrap().device_index, 0);

    let devices = vec![candidate(DeviceClass::VirtualGpu), candidate(DeviceClass::IntegratedGpu)];
    assert_eq!(select(&devices).unwrap().device_index, 1);
}

#[test]
fn tie_broken_by_enumeration_order() {
    let devices = vec![
        candidate(DeviceClass::DiscreteGpu),
        candidate(DeviceClass::DiscreteGpu),
        candidate(DeviceClass::DiscreteGpu),
    ];
    assert_eq!(select(&devices).unwrap().device_index, 0);
}

#[test]
fn no_presentable_family_is_an_error() {
    let devices = vec![DeviceCandidate {
        supports_required_extensions: true,
        queue_families: vec![graphics_only(), graphics_only()],
        class: DeviceClass::DiscreteGpu,
    }];
    assert_eq!(select(&devices), Err(NoSuitableDeviceError));
}

#[test]
fn empty_list_is_an_error() {
    let devices: Vec<DeviceCandidate> = vec![];
    assert_eq!(select(&devices), Err(NoSuitableDeviceError));
}

#[test]
fn all_filtered_out_is_an_error() {
    let devices = vec![
        DeviceCandidate {
            supports_required_extensions: false,
            queue_families: vec![usable()],
            class: DeviceClass::DiscreteGpu,
        },
        DeviceCandidate {
            supports_required_extensions: true,
            queue_families: vec![present_only()],
            class: DeviceClass::IntegratedGpu,
        },
    ];
    assert_eq!(select(&devices), Err(NoSuitableDeviceError));
}

#[test]
fn missing_extensions_never_chosen() {
    let devices = vec![
        DeviceCandidate {
            supports_required_extensions: false,
            queue_families: vec![usable()],
            class: DeviceClass::DiscreteGpu,
        },
        candidate(DeviceClass::Cpu),
    ];
    assert_eq!(select(&devices).unwrap().device_index, 1);
}

#[test]
fn no_usable_family_never_chosen() {
    let devices = vec![
        DeviceCandidate {
            supports_required_extensions: true,
            queue_families: vec![graphics_only(), present_only()],
            class: DeviceClass::DiscreteGpu,
        },
        candidate(DeviceClass::IntegratedGpu),
    ];
    assert_eq!(select(&devices).unwrap().device_index, 1);
}

#[test]
fn first_usable_queue_family_is_taken() {
    let devices = vec![DeviceCandidate {
        supports_required_extensions: true,
        queue_families: vec![graphics_only(), usable(), usable()],
        class: DeviceClass::DiscreteGpu,
    }];
    assert_eq!(select(&devices).unwrap().queue_family_index, 1);
}

#[test]
fn find_queue_family_scans_in_index_order() {
    assert_eq!(find_queue_family(&vec![present_only(), usable()]), Some(1));
    assert_eq!(find_queue_family(&vec![usable(), usable()]), Some(0));
    assert_eq!(find_queue_family(&vec![graphics_only(), present_only()]), None);
    assert_eq!(find_queue_family(&vec![]), None);
}
