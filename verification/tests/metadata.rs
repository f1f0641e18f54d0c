use lc3_traits::control::metadata::{
    Capabilities, DeviceInfo, Identifier, LongIdentifier, ProgramId, ProgramMetadata, Version,
};
use lc3_traits::isa::MemoryDump;
use std::time::Duration;

fn single_test(major: u16, minor: u16, patch: u16, pre: &'static str, expected_pre: Option<&str>) {
    let ver = Version::from_cargo_env_vars(
        &major.to_string(),
        &minor.to_string(),
        &patch.to_string(),
        pre,
    );

    assert_eq!(ver.major as u16, major);
    assert_eq!(ver.minor as u16, minor);
    assert_eq!(ver.patch as u16, patch);

    assert_eq!(ver.get_pre(), expected_pre);
}

#[test]
fn numbers() {
    single_test(0, 0, 0, "", None);
    single_test(0, 0, 1, "", None);
    single_test(0, 1, 0, "", None);
    single_test(0, 1, 1, "", None);
    single_test(1, 1, 1, "", None);
    single_test(1, 2, 3, "", None);
    single_test(123, 45, 67, "", None);
    single_test(1, 23, 45, "", None);
    single_test(254, 253, 254, "", None);
}

#[test]
fn pre_release_version() {
    single_test(1, 2, 3, "", None);
    single_test(1, 2, 3, "foo", Some("foo"));
    single_test(1, 2, 3, "FOo4", Some("FOo4"));
    single_test(1, 2, 3, "12-3", Some("12-3"));
    single_test(1, 2, 3, "8", Some("8"));
    single_test(1, 2, 3, "a9", Some("a9"));
    single_test(1, 2, 3, "b", Some("b"));
}

#[test]
fn version_component_round_trip_for_every_byte() {
    for n in 0u16..=255 {
        let v = Version::from_cargo_env_vars(&n.to_string(), "0", "0", "");
        assert_eq!(v.major as u16, n);
    }
}

#[test]
fn version_builders() {
    let v = Version::empty().major(1).minor(2).patch(3);
    assert_eq!(v, Version::new(1, 2, 3, None));
    let v = v.pre(Identifier::new_from_str("rc1 ").unwrap());
    assert_eq!(v.get_pre(), Some("rc1"));
    let blank = Version::new(0, 0, 0, Some(Identifier::empty()));
    assert_eq!(blank.get_pre(), None);
    assert_eq!(Version::default(), Version::new(0, 0, 0, None));
}

#[test]
fn identifiers_accept_ascii_only() {
    assert!(Identifier::new(*b"MPSC").is_ok());
    assert!(Identifier::new([0xC3, 0xA9, b'a', b'b']).is_err());
    assert_eq!(Identifier::new_from_str("ABCD").unwrap().as_str(), "ABCD");
    assert!(Identifier::new_from_str("ABC").is_err());
    assert!(Identifier::new_from_str("ABCDE").is_err());
    assert_eq!(Identifier::empty().as_str(), "    ");
    assert_eq!(Identifier::new_from_str_that_crashes_on_invalid_inputs("????").as_str(), "????");
}

#[test]
fn long_identifiers() {
    assert_eq!(LongIdentifier::new(*b"PROGRAM1").unwrap().as_str(), "PROGRAM1");
    assert!(LongIdentifier::new_from_str("short").is_err());
    assert_eq!(LongIdentifier::new_truncated_padded("abc").unwrap().as_str(), "abc\0\0\0\0\0");
    assert_eq!(
        LongIdentifier::new_truncated_padded("a_very_long_name").unwrap().as_str(),
        "a_very_l"
    );
    assert!(LongIdentifier::new_truncated_padded("héllo").is_err());
    assert_eq!(LongIdentifier::unknown(), LongIdentifier::default());
}

#[test]
fn program_metadata() {
    let dump = MemoryDump(vec![1, 2, 3]);
    let name = LongIdentifier::new_truncated_padded("prog").unwrap();
    let mut meta = ProgramMetadata::new(name, &dump, Duration::from_secs(1000));
    assert_eq!(meta.name, name);
    assert_eq!(meta.last_modified, 1000);
    assert_eq!(meta.id, ProgramId::new(&dump));
    assert!(matches!(meta.id, ProgramId::Known { .. }));
    meta.set_last_modified(Duration::from_millis(5500));
    assert_eq!(meta.last_modified, 5);

    let empty = ProgramMetadata::empty();
    assert_eq!(empty.id, ProgramId::Unknown);
    assert_eq!(empty.last_modified, 0);
    assert_eq!(ProgramId::default(), ProgramId::unknown());
}

#[test]
fn device_info_proxies_fill_in_order() {
    let name = Identifier::new_from_str("DEV ").unwrap();
    let info = DeviceInfo::new(name, Version::new(0, 1, 0, None), 7, Capabilities::default(), [None, None, None]);
    let p1 = Identifier::new_from_str("MPSC").unwrap();
    let p2 = Identifier::new_from_str("PROX").unwrap();
    let v = Version::new(1, 0, 0, None);
    let info = info.add_proxy(p1, v.clone()).unwrap();
    assert_eq!(info.proxies[0], Some((p1, v.clone())));
    let info = info.add_proxy(p2, v.clone()).unwrap();
    assert_eq!(info.proxies[1], Some((p2, v.clone())));
    let info = info.add_proxy(p2, v.clone()).unwrap();
    let full = info.clone().add_proxy(p1, v.clone());
    assert_eq!(full, Err(info));
}

#[test]
fn versions_as_text() {
    assert_eq!(Version::new(1, 2, 3, None).to_string(), "1.2.3");
    assert_eq!(Version::new(255, 0, 10, None).to_string(), "255.0.10");
    let alpha = Identifier::new_from_str("alp ").unwrap();
    assert_eq!(Version::new(0, 1, 0, Some(alpha)).to_string(), "0.1.0-alp");
    let blank = Identifier::empty();
    assert_eq!(Version::new(4, 5, 6, Some(blank)).to_string(), "4.5.6");
}
