use neutrino_pci::header::PCIFunction;
use neutrino_pci::namespace::{
    concat_resource_path, get_resource, get_resource_non_generic, get_resource_non_generic_parts,
    get_resource_parts, init_namespace, register_resource, register_resource_path,
    split_resource_path, subtree, subtree_parts, Namespace, Resource, ResourceType,
};

fn segments(parts: &[&str]) -> Vec<String> {
    parts.iter().map(|s| String::from(*s)).collect()
}

#[test]
fn split_breaks_a_path_at_slashes() {
    assert_eq!(split_resource_path(String::from("/Devices/PCI")), segments(&["Devices", "PCI"]));
    assert_eq!(split_resource_path(String::from("Devices/PCI")), segments(&["Devices", "PCI"]));
}

#[test]
fn split_drops_empty_segments() {
    assert_eq!(split_resource_path(String::from("//a//b/")), segments(&["a", "b"]));
    assert_eq!(split_resource_path(String::from("/")), segments(&[]));
    assert_eq!(split_resource_path(String::from("")), segments(&[]));
}

#[test]
fn concat_writes_a_slash_before_every_segment() {
    assert_eq!(concat_resource_path(segments(&["Devices", "PCI"])), "/Devices/PCI");
    assert_eq!(concat_resource_path(segments(&["a"])), "/a");
    assert_eq!(concat_resource_path(segments(&[])), "");
}

#[test]
fn split_inverts_concat_on_clean_paths() {
    let path = segments(&["Devices", "PCI", "0"]);
    assert_eq!(split_resource_path(concat_resource_path(path.clone())), path);
}

#[test]
fn a_fresh_namespace_has_the_two_roots() {
    let ns: Namespace<u32> = init_namespace();
    let devices = subtree(&ns, String::from("/Devices")).unwrap();
    assert!(devices.value.is_none());
    let files = subtree_parts(&ns, segments(&["Files"])).unwrap();
    assert!(files.value.is_none());
    assert!(subtree(&ns, String::from("/Mailboxes")).is_none());
}

#[test]
fn registering_then_looking_up_returns_the_resource() {
    let mut ns: Namespace<u32> = init_namespace();
    register_resource_path(&mut ns, segments(&["Devices", "Timer"]), 7);
    assert_eq!(get_resource(&ns, String::from("/Devices/Timer")), Some(&7));
    assert_eq!(get_resource_parts(&ns, segments(&["Devices", "Timer"])), Some(&7));
    assert_eq!(get_resource_non_generic(&ns, String::from("/Devices/Timer")), Some(&7));
    assert_eq!(get_resource_non_generic_parts(&ns, segments(&["Devices", "Timer"])), Some(&7));
}

#[test]
fn registering_again_replaces_the_value() {
    let mut ns: Namespace<u32> = init_namespace();
    register_resource_path(&mut ns, segments(&["Devices", "Timer"]), 7);
    register_resource_path(&mut ns, segments(&["Devices", "Timer"]), 9);
    assert_eq!(get_resource(&ns, String::from("/Devices/Timer")), Some(&9));
}

#[test]
fn lookups_distinguish_missing_node_from_missing_value() {
    let mut ns: Namespace<u32> = init_namespace();
    register_resource_path(&mut ns, segments(&["Devices", "Timer"]), 7);
    // A node without a value.
    assert_eq!(get_resource(&ns, String::from("/Devices")), None);
    // No node at all.
    assert_eq!(get_resource(&ns, String::from("/Devices/Clock")), None);
    assert!(subtree(&ns, String::from("/Devices/Clock")).is_none());
    // The registration left the roots alone.
    assert!(subtree(&ns, String::from("/Files")).is_some());
}

#[test]
fn a_pci_function_registers_under_its_class_path() {
    let mut ns: Namespace<PCIFunction> = init_namespace();
    register_resource(&mut ns, PCIFunction { function_address: 0x3000_0000 });
    let found = get_resource(&ns, String::from("/Devices/PCI")).unwrap();
    assert_eq!(found.function_address, 0x3000_0000);
}

#[test]
fn a_pci_function_reports_its_path_and_kind() {
    let mut function = PCIFunction { function_address: 0x3000_0000 };
    assert_eq!(function.resource_path(), segments(&["Devices", "PCI"]));
    assert_eq!(function.resource_path_string(), "/Devices/PCI");
    assert!(matches!(function.unwrap(), ResourceType::Device));
}
