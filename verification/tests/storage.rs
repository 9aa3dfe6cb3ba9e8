use mecha_trustzone_ctrl::{DeviceStore, TrustZoneCtrl, TrustZoneCtrlErrorCodes};

#[test]
fn store_round_trip_is_byte_identical() {
    let mut store = DeviceStore::new();
    let cert = "-----BEGIN CERTIFICATE-----\nMIIB\u{00e9}xyz\n-----END CERTIFICATE-----\n";
    store.write("/dev/trustzone_cert", cert.to_string());
    assert_eq!(store.read("/dev/trustzone_cert").unwrap(), cert);
}

#[test]
fn store_overwrite_keeps_last_value() {
    let mut store = DeviceStore::new();
    store.write("/dev/trustzone_cert", "OLD".to_string());
    store.write("/dev/trustzone_cert", "NEW".to_string());
    assert_eq!(store.read("/dev/trustzone_cert").unwrap(), "NEW");
}

#[test]
fn empty_store_read_fails() {
    let store = DeviceStore::new();
    let err = store.read("/dev/trustzone_key").unwrap_err();
    assert_eq!(err, "no such device path");
}

#[test]
fn write_cert_then_raw_read_of_storage_path() {
    let ctrl = TrustZoneCtrl::new();
    let mut store = DeviceStore::new();
    let path = ctrl.cert_storage_path();
    assert_eq!(path, "/dev/trustzone_cert");
    store.write(path.as_str(), "CERT-DATA".to_string());
    let confirmation = ctrl.write_trustzone_cert("CERT-DATA", Ok(()));
    assert!(confirmation.is_ok());
    assert_eq!(store.read(path.as_str()).unwrap(), "CERT-DATA");
}

#[test]
fn remove_then_read_never_succeeds_silently() {
    let ctrl = TrustZoneCtrl::new();
    let mut store = DeviceStore::new();
    let path = ctrl.cert_storage_path();
    store.write(path.as_str(), "CERT-DATA".to_string());
    let removal = store.remove(path.as_str());
    assert!(ctrl.remove_trustzone_cert(removal).is_ok());

    let read_back = store.read(path.as_str());
    let raw = ctrl.classify_device_read(read_back).unwrap_err();
    assert_eq!(raw.code, TrustZoneCtrlErrorCodes::FileReadError);
    assert_eq!(raw.message, "no such device path");

    let as_operation = ctrl
        .generate_trustzone_key(store.read(path.as_str()))
        .unwrap_err();
    assert_eq!(
        as_operation.code,
        TrustZoneCtrlErrorCodes::UnableToReadTrustZoneCert
    );
    assert_eq!(as_operation.message, "unable to read key: no such device path");
}

#[test]
fn remove_missing_path_reports_failure() {
    let ctrl = TrustZoneCtrl::new();
    let mut store = DeviceStore::new();
    let removal = store.remove("/dev/trustzone_cert");
    let err = ctrl.remove_trustzone_cert(removal).unwrap_err();
    assert_eq!(err.code, TrustZoneCtrlErrorCodes::UnableToRemoveTrustZoneCert);
    assert_eq!(err.message, "unable to remove cert: no such device path");
}

#[test]
fn store_paths_are_independent() {
    let mut store = DeviceStore::new();
    store.write("/dev/trustzone_key", "KEY".to_string());
    store.write("/dev/trustzone_sign", "SIG".to_string());
    assert!(store.remove("/dev/trustzone_key").is_ok());
    assert_eq!(store.read("/dev/trustzone_sign").unwrap(), "SIG");
    assert!(store.read("/dev/trustzone_key").is_err());
}
