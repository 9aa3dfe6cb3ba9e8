//! The trust-zone controller: one operation per capability of the secure
//! element. Every operation performs exactly one transport interaction — a
//! privileged-helper invocation for certificate extraction, or a device-file
//! read/write/remove for everything else. The caller carries out that
//! interaction and hands its raw outcome back; the functions here decide which
//! command or device path to use and classify every raw outcome into the
//! typed error taxonomy, returning the retrieved value unchanged on success.

use vstd::prelude::*;

use crate::errors::{TrustZoneCtrlError, TrustZoneCtrlErrorCodes};

verus! {

/// The default mount point of the secure element's host-side interface.
pub open spec fn default_root_path() -> Seq<char> {
    "/MECHA_TEST/optiga_trust_m"@
}

/// The path of the privileged certificate-extraction helper under a given
/// root path.
pub open spec fn helper_program_path(root: Seq<char>) -> Seq<char> {
    root + "/trustm_cert"@
}

/// The device file backing certificate storage.
pub open spec fn spec_cert_storage_path() -> Seq<char> {
    "/dev/trustzone_cert"@
}

/// The raw outcome of one device-file transport interaction: the text read
/// (or unit confirmation), or the underlying failure text.
pub open spec fn text_view(r: Result<String, String>) -> Result<Seq<char>, Seq<char>> {
    match r {
        Ok(v) => Ok(v@),
        Err(e) => Err(e@),
    }
}

/// A classified operation result, abstracted to its text content: the payload
/// on success, or the failure kind with the composed message.
pub open spec fn op_result_view(r: Result<String, TrustZoneCtrlError>) -> Result<
    Seq<char>,
    (TrustZoneCtrlErrorCodes, Seq<char>),
> {
    match r {
        Ok(v) => Ok(v@),
        Err(e) => Err((e.code, e.message@)),
    }
}

/// Holds when `s` ends with `suffix`: the underlying cause of a failure is
/// preserved verbatim at the end of the composed message.
pub open spec fn seq_ends_with(s: Seq<char>, suffix: Seq<char>) -> bool {
    &&& s.len() >= suffix.len()
    &&& s.subrange(s.len() - suffix.len(), s.len() as int) == suffix
}

/// The crypto-delegation capabilities of the element. Each entry of the table
/// below ties one capability to the device file it reads and to the failure
/// kind and message prefix used when that read fails.
#[derive(Clone, Copy, Debug, PartialEq, Eq, Structural)]
pub enum TrustOperation {
    GenerateKey,
    SignData,
    VerifyData,
    EncryptData,
    DecryptData,
    EncryptDataWithKey,
    GenerateHmac,
}

impl TrustOperation {
    /// The well-known device file that holds the element's last-computed
    /// value for this capability.
    pub open spec fn spec_device_path(self) -> Seq<char> {
        match self {
            TrustOperation::GenerateKey => "/dev/trustzone_key"@,
            TrustOperation::SignData => "/dev/trustzone_sign"@,
            TrustOperation::VerifyData => "/dev/trustzone_verify"@,
            TrustOperation::EncryptData => "/dev/trustzone_encrypt"@,
            TrustOperation::DecryptData => "/dev/trustzone_decrypt"@,
            TrustOperation::EncryptDataWithKey => "/dev/trustzone_encrypt"@,
            TrustOperation::GenerateHmac => "/dev/trustzone_encrypt"@,
        }
    }

    /// Returns the device file this capability reads.
    pub fn device_path(self) -> (r: String)
        ensures
            r@ == self.spec_device_path(),
    {
        match self {
            TrustOperation::GenerateKey => String::from_str("/dev/trustzone_key"),
            TrustOperation::SignData => String::from_str("/dev/trustzone_sign"),
            TrustOperation::VerifyData => String::from_str("/dev/trustzone_verify"),
            TrustOperation::EncryptData => String::from_str("/dev/trustzone_encrypt"),
            TrustOperation::DecryptData => String::from_str("/dev/trustzone_decrypt"),
            TrustOperation::EncryptDataWithKey => String::from_str("/dev/trustzone_encrypt"),
            TrustOperation::GenerateHmac => String::from_str("/dev/trustzone_encrypt"),
        }
    }

    /// The failure kind this capability reports. Every crypto-delegation
    /// capability currently reports the generic certificate-read kind rather
    /// than its dedicated kind; this mapping is kept for compatibility, and
    /// this table is the single place to correct it.
    pub open spec fn spec_failure_kind(self) -> TrustZoneCtrlErrorCodes {
        match self {
            TrustOperation::GenerateKey => TrustZoneCtrlErrorCodes::UnableToReadTrustZoneCert,
            TrustOperation::SignData => TrustZoneCtrlErrorCodes::UnableToReadTrustZoneCert,
            TrustOperation::VerifyData => TrustZoneCtrlErrorCodes::UnableToReadTrustZoneCert,
            TrustOperation::EncryptData => TrustZoneCtrlErrorCodes::UnableToReadTrustZoneCert,
            TrustOperation::DecryptData => TrustZoneCtrlErrorCodes::UnableToReadTrustZoneCert,
            TrustOperation::EncryptDataWithKey => {
                TrustZoneCtrlErrorCodes::UnableToReadTrustZoneCert
            },
            TrustOperation::GenerateHmac => TrustZoneCtrlErrorCodes::UnableToReadTrustZoneCert,
        }
    }

    /// Returns the failure kind this capability reports.
    pub fn failure_kind(self) -> (k: TrustZoneCtrlErrorCodes)
        ensures
            k == self.spec_failure_kind(),
    {
        match self {
            TrustOperation::GenerateKey => TrustZoneCtrlErrorCodes::UnableToReadTrustZoneCert,
            TrustOperation::SignData => TrustZoneCtrlErrorCodes::UnableToReadTrustZoneCert,
            TrustOperation::VerifyData => TrustZoneCtrlErrorCodes::UnableToReadTrustZoneCert,
            TrustOperation::EncryptData => TrustZoneCtrlErrorCodes::UnableToReadTrustZoneCert,
            TrustOperation::DecryptData => TrustZoneCtrlErrorCodes::UnableToReadTrustZoneCert,
            TrustOperation::EncryptDataWithKey => {
                TrustZoneCtrlErrorCodes::UnableToReadTrustZoneCert
            },
            TrustOperation::GenerateHmac => TrustZoneCtrlErrorCodes::UnableToReadTrustZoneCert,
        }
    }

    /// The message prefix put before the underlying failure text when this
    /// capability's transport read fails.
    pub open spec fn spec_failure_prefix(self) -> Seq<char> {
        match self {
            TrustOperation::GenerateKey => "unable to read key: "@,
            TrustOperation::SignData => "unable to read signed_data: "@,
            TrustOperation::VerifyData => "unable to read verified_data: "@,
            TrustOperation::EncryptData => "unable to read encrypted_data: "@,
            TrustOperation::DecryptData => "unable to read decrypted_data: "@,
            TrustOperation::EncryptDataWithKey => "unable to read encrypted_data: "@,
            TrustOperation::GenerateHmac => "unable to read genrated_hmac: "@,
        }
    }

    /// Returns the message prefix for this capability's failures.
    pub fn failure_prefix(self) -> (r: String)
        ensures
            r@ == self.spec_failure_prefix(),
    {
        match self {
            TrustOperation::GenerateKey => String::from_str("unable to read key: "),
            TrustOperation::SignData => String::from_str("unable to read signed_data: "),
            TrustOperation::VerifyData => String::from_str("unable to read verified_data: "),
            TrustOperation::EncryptData => String::from_str("unable to read encrypted_data: "),
            TrustOperation::DecryptData => String::from_str("unable to read decrypted_data: "),
            TrustOperation::EncryptDataWithKey => {
                String::from_str("unable to read encrypted_data: ")
            },
            TrustOperation::GenerateHmac => String::from_str("unable to read genrated_hmac: "),
        }
    }
}

/// The classification every crypto-delegation capability applies to its
/// transport outcome: a retrieved value passes through unchanged; a failure
/// becomes the capability's kind with its prefix put before the cause.
pub open spec fn op_outcome(op: TrustOperation, transport: Result<Seq<char>, Seq<char>>) -> Result<
    Seq<char>,
    (TrustZoneCtrlErrorCodes, Seq<char>),
> {
    match transport {
        Ok(v) => Ok(v),
        Err(e) => Err((op.spec_failure_kind(), op.spec_failure_prefix() + e)),
    }
}

/// The outcome of one invocation of the certificate-extraction helper, as the
/// caller observed it.
pub enum CertHelperOutcome {
    /// The helper process could not be executed at all.
    SpawnFailed(String),
    /// The helper ran but exited with a non-zero status.
    ExitNonZero(String),
    /// The helper exited with status 0 but its captured standard output was
    /// not valid text.
    StdoutNotUtf8(String),
    /// The helper exited with status 0; holds its captured standard output
    /// (diagnostics only, never parsed for control decisions).
    Completed(String),
}

/// The message composed for a failed certificate read.
pub open spec fn cert_failure_message(cause: Seq<char>) -> Seq<char> {
    "unable to read cert: "@ + cause
}

/// The message composed for a failed certificate write.
pub open spec fn write_failure_message(cause: Seq<char>) -> Seq<char> {
    "unable to write cert: "@ + cause
}

/// The message composed for a failed certificate removal.
pub open spec fn remove_failure_message(cause: Seq<char>) -> Seq<char> {
    "unable to remove cert: "@ + cause
}

/// The classification of the second step of a certificate read: the read-back
/// of the helper's output file.
pub open spec fn cert_read_classification(file_read: Result<Seq<char>, Seq<char>>) -> Result<
    Seq<char>,
    (TrustZoneCtrlErrorCodes, Seq<char>),
> {
    match file_read {
        Ok(c) => Ok(c),
        Err(e) => Err(
            (TrustZoneCtrlErrorCodes::UnableToReadTrustZoneCert, cert_failure_message(e)),
        ),
    }
}

/// The result of a whole certificate read: both steps — the helper invocation
/// and the read-back of its output file — must succeed, and either step's
/// failure is reported uniformly as `UnableToReadTrustZoneCert` with the
/// underlying cause in the message.
pub open spec fn spec_cert_read(
    helper: CertHelperOutcome,
    output_read: Result<String, String>,
) -> Result<Seq<char>, (TrustZoneCtrlErrorCodes, Seq<char>)> {
    match helper {
        CertHelperOutcome::SpawnFailed(e) => Err(
            (TrustZoneCtrlErrorCodes::UnableToReadTrustZoneCert, cert_failure_message(e@)),
        ),
        CertHelperOutcome::ExitNonZero(e) => Err(
            (TrustZoneCtrlErrorCodes::UnableToReadTrustZoneCert, cert_failure_message(e@)),
        ),
        CertHelperOutcome::StdoutNotUtf8(e) => Err(
            (TrustZoneCtrlErrorCodes::UnableToReadTrustZoneCert, cert_failure_message(e@)),
        ),
        CertHelperOutcome::Completed(_) => cert_read_classification(text_view(output_read)),
    }
}

/// An invocation of the certificate-extraction helper: the program to run and
/// its arguments, in order.
pub struct HelperCommand {
    pub program: String,
    pub args: Vec<String>,
}

/// The trust-zone controller. Holds only the root path of the secure
/// element's host-side interface, set once at construction and never mutated;
/// no operation caches any result or retains any credential material.
#[derive(Debug)]
pub struct TrustZoneCtrl {
    pub path: String,
}

impl Default for TrustZoneCtrl {
    /// A controller with an empty root path; `new` gives the documented
    /// default mount point instead.
    fn default() -> (c: Self)
        ensures
            c.path@ == Seq::<char>::empty(),
    {
        TrustZoneCtrl { path: String::new() }
    }
}

impl TrustZoneCtrl {
    /// Constructs a controller bound to the documented default mount point.
    pub fn new() -> (c: Self)
        ensures
            c.path@ == default_root_path(),
    {
        TrustZoneCtrl { path: String::from_str("/MECHA_TEST/optiga_trust_m") }
    }

    /// Returns the device file backing certificate storage, used by the
    /// certificate write and remove operations.
    pub fn cert_storage_path(&self) -> (r: String)
        ensures
            r@ == spec_cert_storage_path(),
    {
        String::from_str("/dev/trustzone_cert")
    }

    /// Builds the helper invocation that extracts the certificate of the
    /// given memory region into the given output file. The helper lives under
    /// this controller's own root path — never under the default.
    pub fn read_cert_command(&self, output_file: &str, region: &str) -> (c: HelperCommand)
        ensures
            c.program@ == helper_program_path(self.path@),
            c.args@.len() == 4,
            c.args@[0]@ == "-r"@,
            c.args@[1]@ == region@,
            c.args@[2]@ == "-o"@,
            c.args@[3]@ == output_file@,
    {
        let program = self.path.clone().concat("/trustm_cert");
        let mut args: Vec<String> = Vec::new();
        args.push(String::from_str("-r"));
        args.push(String::from_str(region));
        args.push(String::from_str("-o"));
        args.push(String::from_str(output_file));
        HelperCommand { program, args }
    }

    /// Classifies the two transport steps of a certificate read. `helper` is
    /// the outcome of running the command built by `read_cert_command`;
    /// `output_read` is the outcome of reading the output file back, and is
    /// consulted only when the helper completed. On success the file's
    /// content is returned unchanged.
    pub fn read_trustzone_cert(
        &self,
        helper: CertHelperOutcome,
        output_read: Result<String, String>,
    ) -> (r: Result<String, TrustZoneCtrlError>)
        ensures
            op_result_view(r) == spec_cert_read(helper, output_read),
    {
        match helper {
            CertHelperOutcome::SpawnFailed(e) => Err(
                TrustZoneCtrlError::new(
                    TrustZoneCtrlErrorCodes::UnableToReadTrustZoneCert,
                    String::from_str("unable to read cert: ").concat(e.as_str()),
                ),
            ),
            CertHelperOutcome::ExitNonZero(e) => Err(
                TrustZoneCtrlError::new(
                    TrustZoneCtrlErrorCodes::UnableToReadTrustZoneCert,
                    String::from_str("unable to read cert: ").concat(e.as_str()),
                ),
            ),
            CertHelperOutcome::StdoutNotUtf8(e) => Err(
                TrustZoneCtrlError::new(
                    TrustZoneCtrlErrorCodes::UnableToReadTrustZoneCert,
                    String::from_str("unable to read cert: ").concat(e.as_str()),
                ),
            ),
            CertHelperOutcome::Completed(_) => match output_read {
                Ok(content) => Ok(content),
                Err(e) => Err(
                    TrustZoneCtrlError::new(
                        TrustZoneCtrlErrorCodes::UnableToReadTrustZoneCert,
                        String::from_str("unable to read cert: ").concat(e.as_str()),
                    ),
                ),
            },
        }
    }

    /// Classifies the outcome of writing certificate text to the storage
    /// device file. The certificate bytes themselves go to the device
    /// unchanged; they play no part in the classification.
    pub fn write_trustzone_cert(&self, _cert: &str, transport: Result<(), String>) -> (r: Result<
        (),
        TrustZoneCtrlError,
    >)
        ensures
            transport is Ok ==> r is Ok,
            transport matches Err(e) ==> (r matches Err(err) && err.code
                == TrustZoneCtrlErrorCodes::UnableToWriteTrustZoneCert && err.message@
                == write_failure_message(e@)),
    {
        match transport {
            Ok(_) => Ok(()),
            Err(e) => Err(
                TrustZoneCtrlError::new(
                    TrustZoneCtrlErrorCodes::UnableToWriteTrustZoneCert,
                    String::from_str("unable to write cert: ").concat(e.as_str()),
                ),
            ),
        }
    }

    /// Classifies the outcome of removing the certificate storage device
    /// file.
    pub fn remove_trustzone_cert(&self, transport: Result<(), String>) -> (r: Result<
        (),
        TrustZoneCtrlError,
    >)
        ensures
            transport is Ok ==> r is Ok,
            transport matches Err(e) ==> (r matches Err(err) && err.code
                == TrustZoneCtrlErrorCodes::UnableToRemoveTrustZoneCert && err.message@
                == remove_failure_message(e@)),
    {
        match transport {
            Ok(_) => Ok(()),
            Err(e) => Err(
                TrustZoneCtrlError::new(
                    TrustZoneCtrlErrorCodes::UnableToRemoveTrustZoneCert,
                    String::from_str("unable to remove cert: ").concat(e.as_str()),
                ),
            ),
        }
    }

    /// Classifies a raw device-file read at the transport level: the text
    /// read passes through unchanged, and an I/O failure becomes
    /// `FileReadError` with the failure text as the whole message.
    pub fn classify_device_read(&self, transport: Result<String, String>) -> (r: Result<
        String,
        TrustZoneCtrlError,
    >)
        ensures
            transport matches Ok(v) ==> (r matches Ok(w) && w@ == v@),
            transport matches Err(e) ==> (r matches Err(err) && err.code
                == TrustZoneCtrlErrorCodes::FileReadError && err.message@ == e@),
    {
        match transport {
            Ok(v) => Ok(v),
            Err(e) => Err(TrustZoneCtrlError::new(TrustZoneCtrlErrorCodes::FileReadError, e)),
        }
    }

    /// The shared shape of every crypto-delegation operation: classify the
    /// outcome of reading the capability's device file, per the table on
    /// `TrustOperation`.
    pub fn classify_operation(&self, op: TrustOperation, transport: Result<String, String>) -> (r:
        Result<String, TrustZoneCtrlError>)
        ensures
            op_result_view(r) == op_outcome(op, text_view(transport)),
    {
        match self.classify_device_read(transport) {
            Ok(v) => Ok(v),
            Err(file_err) => Err(
                TrustZoneCtrlError::new(
                    op.failure_kind(),
                    op.failure_prefix().concat(file_err.message.as_str()),
                ),
            ),
        }
    }

    /// Key generation, delegated to the element. `transport` is the outcome
    /// of reading the key device file; the key material passes through
    /// unchanged.
    pub fn generate_trustzone_key(&self, transport: Result<String, String>) -> (r: Result<
        String,
        TrustZoneCtrlError,
    >)
        ensures
            op_result_view(r) == op_outcome(TrustOperation::GenerateKey, text_view(transport)),
    {
        self.classify_operation(TrustOperation::GenerateKey, transport)
    }

    /// Signing, delegated to the element. `transport` is the outcome of
    /// reading the signature device file.
    pub fn sign_trustzone_data(&self, _data: &str, transport: Result<String, String>) -> (r:
        Result<String, TrustZoneCtrlError>)
        ensures
            op_result_view(r) == op_outcome(TrustOperation::SignData, text_view(transport)),
    {
        self.classify_operation(TrustOperation::SignData, transport)
    }

    /// Verification, delegated to the element. `transport` is the outcome of
    /// reading the verification device file.
    pub fn verify_trustzone_data(&self, _data: &str, transport: Result<String, String>) -> (r:
        Result<String, TrustZoneCtrlError>)
        ensures
            op_result_view(r) == op_outcome(TrustOperation::VerifyData, text_view(transport)),
    {
        self.classify_operation(TrustOperation::VerifyData, transport)
    }

    /// Encryption, delegated to the element. `transport` is the outcome of
    /// reading the encryption device file.
    pub fn encrypt_trustzone_data(&self, _data: &str, transport: Result<String, String>) -> (r:
        Result<String, TrustZoneCtrlError>)
        ensures
            op_result_view(r) == op_outcome(TrustOperation::EncryptData, text_view(transport)),
    {
        self.classify_operation(TrustOperation::EncryptData, transport)
    }

    /// Decryption, delegated to the element. `transport` is the outcome of
    /// reading the decryption device file.
    pub fn decrypt_trustzone_data(&self, _data: &str, transport: Result<String, String>) -> (r:
        Result<String, TrustZoneCtrlError>)
        ensures
            op_result_view(r) == op_outcome(TrustOperation::DecryptData, text_view(transport)),
    {
        self.classify_operation(TrustOperation::DecryptData, transport)
    }

    /// Keyed encryption, delegated to the element. `transport` is the outcome
    /// of reading the encryption device file.
    pub fn encrypt_trustzone_data_with_key(
        &self,
        _data: &str,
        _key: &str,
        transport: Result<String, String>,
    ) -> (r: Result<String, TrustZoneCtrlError>)
        ensures
            op_result_view(r) == op_outcome(
                TrustOperation::EncryptDataWithKey,
                text_view(transport),
            ),
    {
        self.classify_operation(TrustOperation::EncryptDataWithKey, transport)
    }

    /// HMAC generation, delegated to the element. `transport` is the outcome
    /// of reading the capability's device file.
    pub fn generate_trustzone_hmac(&self, transport: Result<String, String>) -> (r: Result<
        String,
        TrustZoneCtrlError,
    >)
        ensures
            op_result_view(r) == op_outcome(TrustOperation::GenerateHmac, text_view(transport)),
    {
        self.classify_operation(TrustOperation::GenerateHmac, transport)
    }
}

} // verus!
