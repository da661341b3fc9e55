use speedo::{
    engine_version, find_compute_family, find_host_coherent_memory_type, instance_api_version,
    score, select_accelerator, severity_color, Accelerator, AcceleratorClass, SEVERITY_ERROR,
    SEVERITY_INFO, SEVERITY_VERBOSE, SEVERITY_WARNING,
};

fn acc(class: AcceleratorClass, allocations: u32, shared: u32) -> Accelerator {
    Accelerator {
        class,
        max_memory_allocation_count: allocations,
        max_compute_shared_memory_size: shared,
    }
}

#[test]
fn score_adds_class_and_limit_weights() {
    assert_eq!(score(&acc(AcceleratorClass::Discrete, 4_294_967_295, 49_152)), 30_042_998);
    assert_eq!(score(&acc(AcceleratorClass::Virtual, 200_000, 1_999)), 20_000_003);
    assert_eq!(score(&acc(AcceleratorClass::Integrated, 4_096, 65_536)), 10_000_065);
    assert_eq!(score(&acc(AcceleratorClass::Cpu, 99_999, 999)), 0);
    assert_eq!(score(&acc(AcceleratorClass::Other, 0, 0)), 0);
}

#[test]
fn discrete_wins_over_integrated_with_more_shared_memory() {
    let list = vec![
        acc(AcceleratorClass::Integrated, 4_096, 65_536),
        acc(AcceleratorClass::Discrete, 4_294_967_295, 49_152),
    ];
    assert_eq!(select_accelerator(&list), Some(1));
}

#[test]
fn discrete_preferred_in_mixed_list() {
    let list = vec![
        acc(AcceleratorClass::Cpu, 4_096, 32_768),
        acc(AcceleratorClass::Virtual, 4_096, 32_768),
        acc(AcceleratorClass::Integrated, 4_096, 65_536),
        acc(AcceleratorClass::Discrete, 4_096, 16_384),
        acc(AcceleratorClass::Other, 4_096, 32_768),
    ];
    assert_eq!(select_accelerator(&list), Some(3));
}

#[test]
fn class_order_virtual_integrated_cpu() {
    let list = vec![
        acc(AcceleratorClass::Cpu, 0, 0),
        acc(AcceleratorClass::Integrated, 0, 0),
        acc(AcceleratorClass::Virtual, 0, 0),
    ];
    assert_eq!(select_accelerator(&list), Some(2));
    let list = vec![acc(AcceleratorClass::Cpu, 0, 0), acc(AcceleratorClass::Integrated, 0, 0)];
    assert_eq!(select_accelerator(&list), Some(1));
}

#[test]
fn ties_go_to_first_listed() {
    let same = acc(AcceleratorClass::Integrated, 4_096, 32_768);
    let list = vec![same, same, same];
    assert_eq!(select_accelerator(&list), Some(0));
    assert_eq!(select_accelerator(&list), Some(0));
    let list = vec![
        acc(AcceleratorClass::Discrete, 0, 1_000),
        acc(AcceleratorClass::Discrete, 0, 5_000),
        acc(AcceleratorClass::Discrete, 0, 5_999),
    ];
    assert_eq!(select_accelerator(&list), Some(1));
}

#[test]
fn empty_list_selects_nothing() {
    assert_eq!(select_accelerator(&Vec::new()), None);
}

#[test]
fn class_codes_map_to_classes() {
    assert_eq!(AcceleratorClass::from_raw(0), AcceleratorClass::Other);
    assert_eq!(AcceleratorClass::from_raw(1), AcceleratorClass::Integrated);
    assert_eq!(AcceleratorClass::from_raw(2), AcceleratorClass::Discrete);
    assert_eq!(AcceleratorClass::from_raw(3), AcceleratorClass::Virtual);
    assert_eq!(AcceleratorClass::from_raw(4), AcceleratorClass::Cpu);
    assert_eq!(AcceleratorClass::from_raw(-7), AcceleratorClass::Other);
}

#[test]
fn first_compute_family_is_chosen() {
    assert_eq!(find_compute_family(&vec![0x1, 0x4, 0x3, 0x2]), Some(2));
    assert_eq!(find_compute_family(&vec![0xF]), Some(0));
}

#[test]
fn no_compute_family_is_none() {
    assert_eq!(find_compute_family(&vec![0x1, 0x4, 0x8]), None);
    assert_eq!(find_compute_family(&Vec::new()), None);
}

#[test]
fn first_host_coherent_memory_type_is_chosen() {
    assert_eq!(find_host_coherent_memory_type(&vec![0x1, 0x2, 0x4, 0x6, 0xE]), Some(3));
    assert_eq!(find_host_coherent_memory_type(&vec![0x1, 0x2, 0x4]), None);
}

#[test]
fn versions_are_packed() {
    assert_eq!(engine_version(), 4_096);
    assert_eq!(instance_api_version(None), 4_194_304);
    assert_eq!(instance_api_version(Some(4_206_592)), 4_206_592);
}

#[test]
fn severity_colors() {
    assert_eq!(severity_color(SEVERITY_VERBOSE), 107);
    assert_eq!(severity_color(SEVERITY_INFO), 107);
    assert_eq!(severity_color(SEVERITY_WARNING), 103);
    assert_eq!(severity_color(SEVERITY_ERROR), 101);
    assert_eq!(severity_color(SEVERITY_ERROR | SEVERITY_WARNING), 101);
}

#[test]
fn class_outweighs_any_limits() {
    let list = vec![
        acc(AcceleratorClass::Integrated, 0, 20_000_000),
        acc(AcceleratorClass::Discrete, 0, 0),
    ];
    assert_eq!(select_accelerator(&list), Some(1));
    let list = vec![
        acc(AcceleratorClass::Virtual, u32::MAX, u32::MAX),
        acc(AcceleratorClass::Cpu, u32::MAX, u32::MAX),
        acc(AcceleratorClass::Discrete, 0, 0),
    ];
    assert_eq!(select_accelerator(&list), Some(2));
    assert!(score(&acc(AcceleratorClass::Virtual, u32::MAX, u32::MAX))
        < score(&acc(AcceleratorClass::Discrete, 0, 0)));
}
