use instance_bootstrap::name::{
    contains_name, copy_names, physical_device_properties2_extension,
    portability_enumeration_extension, validation_layer, ExtensionName, MAX_NAME_LEN,
};

#[test]
fn validation_layer_is_the_khronos_layer() {
    assert_eq!(validation_layer().as_bytes().as_slice(), b"VK_LAYER_KHRONOS_validation");
}

#[test]
fn portability_extensions_have_their_registered_names() {
    assert_eq!(
        physical_device_properties2_extension().as_bytes().as_slice(),
        b"VK_KHR_get_physical_device_properties2"
    );
    assert_eq!(
        portability_enumeration_extension().as_bytes().as_slice(),
        b"VK_KHR_portability_enumeration"
    );
}

#[test]
fn known_names_match_the_bindings() {
    let bindings = vulkanalia::vk::KHR_PORTABILITY_ENUMERATION_EXTENSION.name;
    assert_eq!(
        portability_enumeration_extension().as_bytes().as_slice(),
        bindings.as_cstr().to_bytes()
    );
    let bindings = vulkanalia::vk::KHR_GET_PHYSICAL_DEVICE_PROPERTIES2_EXTENSION.name;
    assert_eq!(
        physical_device_properties2_extension().as_bytes().as_slice(),
        bindings.as_cstr().to_bytes()
    );
    let bindings = vulkanalia::vk::ExtensionName::from_bytes(b"VK_LAYER_KHRONOS_validation");
    assert_eq!(validation_layer().as_bytes().as_slice(), bindings.as_cstr().to_bytes());
}

#[test]
fn a_plain_name_is_kept_whole() {
    let name = ExtensionName::from_bytes(b"VK_KHR_surface");
    assert_eq!(name.as_bytes().as_slice(), b"VK_KHR_surface");
}

#[test]
fn a_name_ends_at_the_first_zero_byte() {
    let name = ExtensionName::from_bytes(b"abc\0def");
    assert_eq!(name.as_bytes().as_slice(), b"abc");
    let name = ExtensionName::from_bytes(b"322\0");
    assert_eq!(name.as_bytes().as_slice(), b"322");
    let name = ExtensionName::from_bytes(b"\0bar");
    assert!(name.as_bytes().is_empty());
}

#[test]
fn the_empty_name_is_a_name() {
    let name = ExtensionName::from_bytes(b"");
    assert!(name.as_bytes().is_empty());
}

#[test]
fn a_long_name_is_cut_to_the_room_there_is() {
    assert_eq!(MAX_NAME_LEN, 255);
    let long = vec![b'x'; 300];
    let name = ExtensionName::from_bytes(&long);
    assert_eq!(name.as_bytes().len(), 255);
    assert_eq!(name.as_bytes().as_slice(), &long[..255]);

    let exact = vec![b'y'; 255];
    let name = ExtensionName::from_bytes(&exact);
    assert_eq!(name.as_bytes().as_slice(), exact.as_slice());

    let one_more = vec![b'z'; 256];
    let name = ExtensionName::from_bytes(&one_more);
    assert_eq!(name.as_bytes().len(), 255);
}

#[test]
fn a_zero_byte_beyond_the_room_does_not_matter() {
    let mut bytes = vec![b'a'; 255];
    bytes.push(0);
    bytes.push(b'b');
    let name = ExtensionName::from_bytes(&bytes);
    assert_eq!(name.as_bytes().as_slice(), &bytes[..255]);
}

#[test]
fn names_are_the_same_when_their_bytes_are() {
    let first = ExtensionName::from_bytes(b"VK_KHR_surface");
    let second = ExtensionName::from_bytes(b"VK_KHR_surface\0ignored");
    let third = ExtensionName::from_bytes(b"VK_KHR_surfac");
    let fourth = ExtensionName::from_bytes(b"VK_KHR_surfacf");
    assert!(first.same(&second));
    assert!(second.same(&first));
    assert!(!first.same(&third));
    assert!(!first.same(&fourth));
    assert_eq!(first, second);
    assert_ne!(first, third);
}

#[test]
fn a_copy_of_a_name_is_the_same_name() {
    let name = ExtensionName::from_bytes(b"VK_KHR_xcb_surface");
    let copy = name.clone();
    assert!(copy.same(&name));
    assert_eq!(copy.as_bytes(), name.as_bytes());
}

#[test]
fn membership_goes_by_bytes() {
    let names = vec![
        ExtensionName::from_bytes(b"VK_LAYER_first"),
        ExtensionName::from_bytes(b"VK_LAYER_KHRONOS_validation"),
        ExtensionName::from_bytes(b"VK_LAYER_last"),
    ];
    assert!(contains_name(&names, &validation_layer()));
    assert!(contains_name(&names, &ExtensionName::from_bytes(b"VK_LAYER_first")));
    assert!(contains_name(&names, &ExtensionName::from_bytes(b"VK_LAYER_last")));
    assert!(!contains_name(&names, &ExtensionName::from_bytes(b"VK_LAYER_KHRONOS_validatio")));
    assert!(!contains_name(&names, &ExtensionName::from_bytes(b"vk_layer_khronos_validation")));
    assert!(!contains_name(&Vec::new(), &validation_layer()));
}

#[test]
fn a_copy_of_a_list_keeps_names_and_order() {
    let names = vec![
        ExtensionName::from_bytes(b"VK_KHR_surface"),
        ExtensionName::from_bytes(b"VK_KHR_wayland_surface"),
    ];
    let copy = copy_names(&names);
    assert_eq!(copy, names);
    assert!(copy_names(&Vec::new()).is_empty());
}
