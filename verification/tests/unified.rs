// Topology serialization and the compile-without-client path.

use rrad_pjrt::device::PJRTDeviceDescriptionRef;
use rrad_pjrt::error::PJRTErrorKind;
use rrad_pjrt::topology::PJRTTopologyDescription;

fn make_test_topology() -> PJRTTopologyDescription {
    let descriptions = vec![
        PJRTDeviceDescriptionRef::new(0x4000, 0, 0, b"cpu".to_vec()),
        PJRTDeviceDescriptionRef::new(0x4001, 1, 0, b"cpu".to_vec()),
    ];
    PJRTTopologyDescription::new(
        0x4100,
        b"cpu".to_vec(),
        b"1.0".to_vec(),
        descriptions,
    )
}

#[test]
fn unified_topology_serialize_roundtrip_smoke() {
    let topology = make_test_topology();
    let before_name = topology.platform_name();
    let serialized = topology.serialize();
    assert!(
        !serialized.is_empty(),
        "serialized topology should be non-empty"
    );

    let deserialized = PJRTTopologyDescription::deserialize(0x4200, &serialized).unwrap();
    let after_name = deserialized.platform_name();
    assert_eq!(
        before_name, after_name,
        "platform name should round-trip through topology serialization"
    );
}

#[test]
fn roundtrip_reproduces_version_and_descriptions() {
    let topology = make_test_topology();
    let serialized = topology.serialize();
    let deserialized = PJRTTopologyDescription::deserialize(0x4200, &serialized).unwrap();

    assert_eq!(deserialized.platform_version(), b"1.0".to_vec());
    assert_eq!(deserialized.descriptions.len(), 2);
    assert_eq!(deserialized.descriptions[0].id(), 0);
    assert_eq!(deserialized.descriptions[1].id(), 1);
    assert_eq!(deserialized.descriptions[0].kind(), b"cpu".to_vec());
    assert_eq!(deserialized.descriptions[1].process_index(), 0);
}

#[test]
fn roundtrip_keeps_negative_identity_values() {
    let descriptions = vec![PJRTDeviceDescriptionRef::new(0, -1, -7, b"tpu".to_vec())];
    let topology =
        PJRTTopologyDescription::new(0x4100, b"tpu".to_vec(), b"2".to_vec(), descriptions);
    let serialized = topology.serialize();
    let deserialized = PJRTTopologyDescription::deserialize(0, &serialized).unwrap();
    assert_eq!(deserialized.descriptions[0].id(), -1);
    assert_eq!(deserialized.descriptions[0].process_index(), -7);
}

#[test]
fn empty_topology_roundtrips() {
    let topology =
        PJRTTopologyDescription::new(0x4100, Vec::new(), Vec::new(), Vec::new());
    let serialized = topology.serialize();
    let deserialized = PJRTTopologyDescription::deserialize(0, &serialized).unwrap();
    assert_eq!(deserialized.platform_name(), Vec::<u8>::new());
    assert_eq!(deserialized.descriptions.len(), 0);
}

#[test]
fn truncated_serialized_topology_is_rejected() {
    let topology = make_test_topology();
    let mut serialized = topology.serialize();
    serialized.pop();
    let err = PJRTTopologyDescription::deserialize(0, &serialized).unwrap_err();
    assert_eq!(err.error_kind(), PJRTErrorKind::LocalValidation);

    let err = PJRTTopologyDescription::deserialize(0, &vec![1, 2]).unwrap_err();
    assert_eq!(err.error_kind(), PJRTErrorKind::LocalValidation);
}

#[test]
fn trailing_bytes_after_topology_are_rejected() {
    let topology = make_test_topology();
    let mut serialized = topology.serialize();
    serialized.push(0);
    let err = PJRTTopologyDescription::deserialize(0, &serialized).unwrap_err();
    assert_eq!(err.error_kind(), PJRTErrorKind::LocalValidation);
}

#[test]
fn plugin_deserialize_rejects_empty_blobs() {
    let err = PJRTTopologyDescription::plan_plugin_deserialize(0).unwrap_err();
    assert_eq!(err.error_kind(), PJRTErrorKind::LocalValidation);
    PJRTTopologyDescription::plan_plugin_deserialize(10).unwrap();
}

#[test]
fn compile_and_load_requires_client_and_bytes() {
    let topology = make_test_topology();
    topology.plan_compile_and_load(0x5000, 128).unwrap();

    let err = topology.plan_compile_and_load(0, 128).unwrap_err();
    assert_eq!(err.error_kind(), PJRTErrorKind::LocalValidation);

    let err = topology.plan_compile_and_load(0x5000, 0).unwrap_err();
    assert_eq!(err.error_kind(), PJRTErrorKind::LocalValidation);
}
