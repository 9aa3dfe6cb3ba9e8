use mecha_trustzone_ctrl::{TrustZoneCtrlError, TrustZoneCtrlErrorCodes};

#[test]
fn error_kind_names_are_stable() {
    let cases = [
        (TrustZoneCtrlErrorCodes::UnableToReadTrustZoneCert, "UnableToReadTrustZoneCert"),
        (TrustZoneCtrlErrorCodes::FileReadError, "FileReadError"),
        (TrustZoneCtrlErrorCodes::UnableToWriteTrustZoneCert, "UnableToWriteTrustZoneCert"),
        (TrustZoneCtrlErrorCodes::UnableToRemoveTrustZoneCert, "UnableToRemoveTrustZoneCert"),
        (TrustZoneCtrlErrorCodes::UnableToGenrateToken, "UnableToGenrateToken"),
        (TrustZoneCtrlErrorCodes::UnableToSignTrust, "UnableToSignTrust"),
        (TrustZoneCtrlErrorCodes::UnableToVerifyToken, "UnableToVerifyToken"),
        (TrustZoneCtrlErrorCodes::UnableToGenrateTrustHMACKeys, "UnableToGenrateTrustHMACKeys"),
        (TrustZoneCtrlErrorCodes::UnableToReadTrustDeviceKey, "UnableToReadTrustDeviceKey"),
        (TrustZoneCtrlErrorCodes::UnableToDecryptTrust, "UnableToDecryptTrust"),
        (TrustZoneCtrlErrorCodes::UnableToEncryptTrust, "UnableToEncryptTrust"),
    ];
    for (kind, expected) in cases {
        assert_eq!(kind.name(), expected);
    }
}

#[test]
fn error_kind_names_are_unique() {
    let kinds = [
        TrustZoneCtrlErrorCodes::UnableToReadTrustZoneCert,
        TrustZoneCtrlErrorCodes::FileReadError,
        TrustZoneCtrlErrorCodes::UnableToWriteTrustZoneCert,
        TrustZoneCtrlErrorCodes::UnableToRemoveTrustZoneCert,
        TrustZoneCtrlErrorCodes::UnableToGenrateToken,
        TrustZoneCtrlErrorCodes::UnableToSignTrust,
        TrustZoneCtrlErrorCodes::UnableToVerifyToken,
        TrustZoneCtrlErrorCodes::UnableToGenrateTrustHMACKeys,
        TrustZoneCtrlErrorCodes::UnableToReadTrustDeviceKey,
        TrustZoneCtrlErrorCodes::UnableToDecryptTrust,
        TrustZoneCtrlErrorCodes::UnableToEncryptTrust,
    ];
    for (i, a) in kinds.iter().enumerate() {
        for (j, b) in kinds.iter().enumerate() {
            if i != j {
                assert_ne!(a.name(), b.name());
            }
        }
    }
}

#[test]
fn error_new_sets_code_and_message() {
    let e = TrustZoneCtrlError::new(
        TrustZoneCtrlErrorCodes::FileReadError,
        "disk unavailable".to_string(),
    );
    assert_eq!(e.code, TrustZoneCtrlErrorCodes::FileReadError);
    assert_eq!(e.message, "disk unavailable");
}

#[test]
fn error_display_string_composition() {
    let e = TrustZoneCtrlError::new(
        TrustZoneCtrlErrorCodes::UnableToWriteTrustZoneCert,
        "permission denied".to_string(),
    );
    assert_eq!(
        e.to_display_string(),
        "(code: UnableToWriteTrustZoneCert, message: permission denied)"
    );
}
