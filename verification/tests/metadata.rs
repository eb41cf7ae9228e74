use sensd::io::metadata::DeviceMetadata;
use sensd::io::{IODirection, IOKind};

#[test]
/// The constructor accepts `name` as `&str` or `String`.
fn metadata_new_name_parameter() {
    DeviceMetadata::with_name("as &str", 0, IODirection::default());
    DeviceMetadata::with_name(String::from("as String"), 0, IODirection::default());
}

#[test]
fn assert_kind_default() {
    let meta = DeviceMetadata::with_name("", 0, IODirection::default());
    assert_eq!(IOKind::default(), meta.kind);
}

#[test]
fn test_kind_setter() {
    let expected = IOKind::EC;
    let meta = DeviceMetadata::with_name("", 0, IODirection::default()).kind(expected);
    assert_eq!(expected, meta.kind);
}

#[test]
fn with_name_keeps_given_fields() {
    let meta = DeviceMetadata::with_name("pump", 7, IODirection::Out);
    assert_eq!(meta.name, "pump");
    assert_eq!(meta.id, 7);
    assert_eq!(meta.direction, IODirection::Out);
    assert_eq!(meta.kind, IOKind::Unassigned);
}

#[test]
fn metadata_equality_and_clone() {
    let a = DeviceMetadata::with_name("a", 1, IODirection::In).kind(IOKind::PH);
    let b = a.clone();
    assert_eq!(a, b);
    let c = DeviceMetadata::with_name("a", 2, IODirection::In).kind(IOKind::PH);
    assert_ne!(a, c);
}

#[test]
fn default_direction_is_input() {
    assert_eq!(IODirection::default(), IODirection::In);
    assert_eq!(IOKind::default(), IOKind::Unassigned);
}

#[test]
fn labels() {
    assert_eq!(IOKind::PH.label(), "pH");
    assert_eq!(IOKind::Temperature.label(), "Ambient Temperature");
    assert_eq!(IOKind::EC.label(), "Electrical Conductivity (EC)");
    assert_eq!(IODirection::In.label(), "Input");
    assert_eq!(IODirection::Out.label(), "Output");
    let meta = DeviceMetadata::new(4, IODirection::Out).kind(IOKind::Flow);
    assert_eq!(meta.text(), "Device Info { Kind: Flow (liquid), Direction: Output }");
    assert_eq!(meta.name, "");
}
