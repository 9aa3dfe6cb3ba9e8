//! Control-plane abstraction over a hardware secure element ("trust zone IC").
//!
//! The controller mediates every interaction with the element: reading
//! provisioned certificates, writing and removing stored credentials, and
//! delegating cryptographic primitives to the element itself. All actual
//! device I/O (spawning the privileged helper, reading and writing the
//! well-known device files) is performed by the caller; this crate holds the
//! verified core: which command or device path each capability uses, and how
//! every raw transport outcome is classified into the typed error taxonomy.

pub mod errors;
pub mod laws;
pub mod store;
pub mod trust_ctrl;

pub use errors::{TrustZoneCtrlError, TrustZoneCtrlErrorCodes};
pub use store::DeviceStore;
pub use trust_ctrl::{CertHelperOutcome, HelperCommand, TrustOperation, TrustZoneCtrl};
