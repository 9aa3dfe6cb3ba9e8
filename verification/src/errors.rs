//! The error taxonomy: a closed set of operation-specific failure kinds plus
//! a free-text message carrying the proximate cause verbatim.

use vstd::prelude::*;

verus! {

/// The closed enumeration of failure kinds, one per distinguishable failure
/// surface. Each value renders to a stable, unique display name; external
/// tooling may match on these names, so they must not be renamed.
#[derive(Clone, Copy, Debug, PartialEq, Eq, Structural)]
pub enum TrustZoneCtrlErrorCodes {
    UnableToReadTrustZoneCert,
    FileReadError,
    UnableToWriteTrustZoneCert,
    UnableToRemoveTrustZoneCert,
    UnableToGenrateToken,
    UnableToSignTrust,
    UnableToVerifyToken,
    UnableToGenrateTrustHMACKeys,
    UnableToReadTrustDeviceKey,
    UnableToDecryptTrust,
    UnableToEncryptTrust,
}

impl TrustZoneCtrlErrorCodes {
    /// The stable display name of this kind.
    pub open spec fn spec_name(self) -> Seq<char> {
        match self {
            TrustZoneCtrlErrorCodes::UnableToReadTrustZoneCert => "UnableToReadTrustZoneCert"@,
            TrustZoneCtrlErrorCodes::FileReadError => "FileReadError"@,
            TrustZoneCtrlErrorCodes::UnableToWriteTrustZoneCert => "UnableToWriteTrustZoneCert"@,
            TrustZoneCtrlErrorCodes::UnableToRemoveTrustZoneCert => "UnableToRemoveTrustZoneCert"@,
            TrustZoneCtrlErrorCodes::UnableToGenrateToken => "UnableToGenrateToken"@,
            TrustZoneCtrlErrorCodes::UnableToSignTrust => "UnableToSignTrust"@,
            TrustZoneCtrlErrorCodes::UnableToVerifyToken => "UnableToVerifyToken"@,
            TrustZoneCtrlErrorCodes::UnableToGenrateTrustHMACKeys => "UnableToGenrateTrustHMACKeys"@,
            TrustZoneCtrlErrorCodes::UnableToReadTrustDeviceKey => "UnableToReadTrustDeviceKey"@,
            TrustZoneCtrlErrorCodes::UnableToDecryptTrust => "UnableToDecryptTrust"@,
            TrustZoneCtrlErrorCodes::UnableToEncryptTrust => "UnableToEncryptTrust"@,
        }
    }

    /// Returns the stable display name of this kind.
    pub fn name(&self) -> (r: String)
        ensures
            r@ == self.spec_name(),
    {
        match self {
            TrustZoneCtrlErrorCodes::UnableToReadTrustZoneCert => {
                String::from_str("UnableToReadTrustZoneCert")
            },
            TrustZoneCtrlErrorCodes::FileReadError => String::from_str("FileReadError"),
            TrustZoneCtrlErrorCodes::UnableToWriteTrustZoneCert => {
                String::from_str("UnableToWriteTrustZoneCert")
            },
            TrustZoneCtrlErrorCodes::UnableToRemoveTrustZoneCert => {
                String::from_str("UnableToRemoveTrustZoneCert")
            },
            TrustZoneCtrlErrorCodes::UnableToGenrateToken => {
                String::from_str("UnableToGenrateToken")
            },
            TrustZoneCtrlErrorCodes::UnableToSignTrust => String::from_str("UnableToSignTrust"),
            TrustZoneCtrlErrorCodes::UnableToVerifyToken => String::from_str("UnableToVerifyToken"),
            TrustZoneCtrlErrorCodes::UnableToGenrateTrustHMACKeys => {
                String::from_str("UnableToGenrateTrustHMACKeys")
            },
            TrustZoneCtrlErrorCodes::UnableToReadTrustDeviceKey => {
                String::from_str("UnableToReadTrustDeviceKey")
            },
            TrustZoneCtrlErrorCodes::UnableToDecryptTrust => {
                String::from_str("UnableToDecryptTrust")
            },
            TrustZoneCtrlErrorCodes::UnableToEncryptTrust => {
                String::from_str("UnableToEncryptTrust")
            },
        }
    }
}

/// A failure reported by a trust-zone operation: a kind out of the closed
/// taxonomy, and a human-readable message describing the proximate cause.
/// Created at the point of failure and never mutated.
#[derive(Debug)]
pub struct TrustZoneCtrlError {
    pub code: TrustZoneCtrlErrorCodes,
    pub message: String,
}

impl TrustZoneCtrlError {
    /// The rendering of this error as a single diagnostic line.
    pub open spec fn spec_display(self) -> Seq<char> {
        "(code: "@ + self.code.spec_name() + ", message: "@ + self.message@ + ")"@
    }

    pub fn new(code: TrustZoneCtrlErrorCodes, message: String) -> (e: Self)
        ensures
            e.code == code,
            e.message == message,
    {
        TrustZoneCtrlError { code, message }
    }

    /// Renders the error as `(code: <kind name>, message: <message>)`.
    pub fn to_display_string(&self) -> (r: String)
        ensures
            r@ == self.spec_display(),
    {
        let name = self.code.name();
        String::from_str("(code: ").concat(name.as_str()).concat(", message: ").concat(
            self.message.as_str(),
        ).concat(")")
    }
}

} // verus!
