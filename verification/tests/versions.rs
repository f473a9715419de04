use instance_bootstrap::request::InstanceRequest;
use instance_bootstrap::version::Version;

#[test]
fn a_version_keeps_its_parts() {
    let version = Version::new(1, 3, 216);
    assert_eq!(version.major, 1);
    assert_eq!(version.minor, 3);
    assert_eq!(version.patch, 216);
    assert_eq!(version, Version { major: 1, minor: 3, patch: 216 });
}

#[test]
fn packing_puts_each_part_in_its_bits() {
    assert_eq!(Version::new(0, 1, 0).packed(), 4096);
    assert_eq!(Version::new(0, 0, 0).packed(), 0);
    assert_eq!(Version::new(0, 0, 7).packed(), 7);
    assert_eq!(Version::new(1, 0, 0).packed(), 4_194_304);
    assert_eq!(Version::new(1, 3, 216).packed(), 4_206_808);
    assert_eq!(Version::new(1023, 1023, 4095).packed(), u32::MAX);
}

#[test]
fn packing_lets_oversized_parts_spill() {
    assert_eq!(Version::new(0, 0, 4096).packed(), 4096);
    assert_eq!(Version::new(0, 1, 4096).packed(), 4096);
    assert_eq!(Version::new(1024, 0, 0).packed(), 0);
    assert_eq!(Version::new(0, 1024, 0).packed(), 4_194_304);
}

#[test]
fn packing_agrees_with_the_bindings() {
    assert_eq!(Version::new(1, 2, 3).packed(), vulkanalia::vk::make_version(1, 2, 3));
    assert_eq!(
        Version::new(1, 3, 216).packed(),
        u32::from(vulkanalia::Version::new(1, 3, 216))
    );
}

#[test]
fn versions_are_ordered_part_by_part() {
    let threshold = Version::new(1, 3, 216);
    assert!(threshold.at_least(threshold));
    assert!(Version::new(1, 3, 217).at_least(threshold));
    assert!(!Version::new(1, 3, 215).at_least(threshold));
    assert!(Version::new(1, 4, 0).at_least(threshold));
    assert!(!Version::new(1, 2, 999).at_least(threshold));
    assert!(Version::new(2, 0, 0).at_least(threshold));
    assert!(!Version::new(0, 9, 999).at_least(threshold));
    assert!(!Version::new(0, 1, 0).at_least(Version::new(1, 0, 0)));
    assert!(Version::new(1, 0, 0).at_least(Version::new(0, 1, 0)));
}

#[test]
fn portability_needs_the_platform_and_the_loader() {
    assert!(InstanceRequest::portability(true, Version::new(1, 3, 216)));
    assert!(InstanceRequest::portability(true, Version::new(1, 3, 250)));
    assert!(InstanceRequest::portability(true, Version::new(1, 4, 0)));
    assert!(!InstanceRequest::portability(true, Version::new(1, 3, 215)));
    assert!(!InstanceRequest::portability(true, Version::new(1, 0, 0)));
    assert!(!InstanceRequest::portability(false, Version::new(1, 3, 216)));
    assert!(!InstanceRequest::portability(false, Version::new(9, 9, 9)));
    assert!(!InstanceRequest::portability(false, Version::new(1, 0, 0)));
}
