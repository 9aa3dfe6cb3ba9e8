//! The behavioural laws of the controller, stated over the same spec
//! functions its operations are specified with, and proved once for all
//! inputs.

use vstd::prelude::*;

use crate::store::missing_path_text;
use crate::trust_ctrl::{
    cert_failure_message, cert_read_classification, default_root_path, helper_program_path,
    op_outcome, remove_failure_message, seq_ends_with, spec_cert_read, text_view,
    write_failure_message, CertHelperOutcome, TrustOperation,
};

verus! {

/// Concatenation keeps the right-hand part verbatim at the end: every message
/// composed as prefix-plus-cause ends with the cause, unmodified.
pub proof fn lemma_cause_kept_verbatim(prefix: Seq<char>, cause: Seq<char>)
    ensures
        seq_ends_with(prefix + cause, cause),
{
    let m = prefix + cause;
    assert(m.subrange(m.len() - cause.len(), m.len() as int) =~= cause);
}

/// Law: every transport failure of a crypto-delegation operation is reported
/// as an error — never absorbed — whose kind is the operation's table entry
/// and whose message ends with the original failure text unmodified.
pub proof fn lemma_op_failure_reported(op: TrustOperation, cause: Seq<char>)
    ensures
        op_outcome(op, Err(cause)) matches Err(f) && f.0 == op.spec_failure_kind() && f.1
            == op.spec_failure_prefix() + cause && seq_ends_with(f.1, cause),
{
    lemma_cause_kept_verbatim(op.spec_failure_prefix(), cause);
}

/// Law: either failing step of a certificate read, and a failing certificate
/// write or removal, keeps the original failure text unmodified at the end of
/// its message.
pub proof fn lemma_cert_lifecycle_failures_keep_cause(cause: Seq<char>)
    ensures
        seq_ends_with(cert_failure_message(cause), cause),
        seq_ends_with(write_failure_message(cause), cause),
        seq_ends_with(remove_failure_message(cause), cause),
{
    lemma_cause_kept_verbatim("unable to read cert: "@, cause);
    lemma_cause_kept_verbatim("unable to write cert: "@, cause);
    lemma_cause_kept_verbatim("unable to remove cert: "@, cause);
}

/// Law: on a successful transport interaction every operation returns the
/// retrieved value unchanged — no transformation, no validation.
pub proof fn lemma_success_passthrough(op: TrustOperation, stdout: String, content: String)
    ensures
        forall|v: Seq<char>| #[trigger] op_outcome(op, Ok(v)) == Ok::<Seq<char>, (
            crate::errors::TrustZoneCtrlErrorCodes,
            Seq<char>,
        )>(v),
        spec_cert_read(CertHelperOutcome::Completed(stdout), Ok(content)) == Ok::<Seq<char>, (
            crate::errors::TrustZoneCtrlErrorCodes,
            Seq<char>,
        )>(content@),
{
}

/// Law: a certificate read caches nothing. Whenever the helper completed, the
/// result is exactly the classification of the output-file read handed to
/// that call — so two invocations each independently re-read the output file,
/// and each answers for its own read.
pub proof fn lemma_cert_read_no_cache(
    helper: CertHelperOutcome,
    first_read: Result<String, String>,
    second_read: Result<String, String>,
)
    requires
        helper is Completed,
    ensures
        spec_cert_read(helper, first_read) == cert_read_classification(text_view(first_read)),
        spec_cert_read(helper, second_read) == cert_read_classification(text_view(second_read)),
{
}

/// Law: the certificate-extraction helper is resolved under the controller's
/// own root path alone, so a controller constructed with an explicit path
/// never falls back to the documented default.
pub proof fn lemma_explicit_root_overrides_default(root: Seq<char>)
    ensures
        helper_program_path(root) == root + "/trustm_cert"@,
        root != default_root_path() ==> helper_program_path(root) != helper_program_path(
            default_root_path(),
        ),
{
    if root != default_root_path() {
        lemma_concat_left_injective(root, default_root_path(), "/trustm_cert"@);
    }
}

/// Concatenating the same suffix onto distinct sequences yields distinct
/// sequences.
proof fn lemma_concat_left_injective(p: Seq<char>, q: Seq<char>, s: Seq<char>)
    requires
        p != q,
    ensures
        p + s != q + s,
{
    if p + s == q + s {
        assert((p + s).len() == p.len() + s.len());
        assert((q + s).len() == q.len() + s.len());
        assert(p.len() == q.len());
        assert(forall|i: int| 0 <= i < p.len() ==> p[i] == (p + s)[i]);
        assert(forall|i: int| 0 <= i < q.len() ==> q[i] == (q + s)[i]);
        assert(p =~= q);
    }
}

/// Law: writing content to a device path and reading the same path back
/// yields that content, byte for byte.
pub proof fn lemma_write_then_read(
    store: Map<Seq<char>, Seq<char>>,
    path: Seq<char>,
    content: Seq<char>,
)
    ensures
        store.insert(path, content).contains_key(path),
        store.insert(path, content)[path] == content,
{
}

/// Law: after removing a device path the store holds nothing there, so a
/// subsequent read reports the missing-path failure, and its classification
/// is an error of the operation's table kind — never an empty success.
pub proof fn lemma_remove_then_read_fails(
    store: Map<Seq<char>, Seq<char>>,
    path: Seq<char>,
    op: TrustOperation,
)
    ensures
        !store.remove(path).contains_key(path),
        op_outcome(op, Err(missing_path_text())) matches Err(f) && f.0 == op.spec_failure_kind(),
{
}

} // verus!
