//! Verified state tracking for Intel SGX enclave handles.
//!
//! A host process loads an enclave from a signed image through the vendor
//! loader and must later destroy it exactly once.  This crate keeps the
//! untrusted-side bookkeeping for that lifecycle: which image a handle
//! names, whether debug instrumentation is requested, and which loader
//! identifier, if any, is currently live.  The vendor calls themselves are
//! made by the host process, which feeds their outcomes back into the
//! handle; every state change of the handle is specified and verified
//! here, including that a failed creation changes nothing and that a
//! release clears the identifier exactly once.

pub mod handle;
pub mod laws;
pub mod status;

pub use handle::fresh_launch_token;
pub use handle::Enclave;
pub use handle::EnclaveState;
pub use handle::SgxEnclaveId;
pub use handle::LAUNCH_TOKEN_BYTES;
pub use status::SgxStatus;
pub use status::SGX_ERROR_ENCLAVE_FILE_ACCESS;
pub use status::SGX_ERROR_INVALID_ENCLAVE_ID;
pub use status::SGX_SUCCESS;
