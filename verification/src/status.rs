//! Vendor status codes.
//!
//! The enclave loader reports every outcome through a fixed enumeration of
//! integer codes.  The handle in this crate never remaps or interprets a
//! code beyond testing for success: each code is propagated verbatim so
//! that callers stay bit-exact compatible with the vendor ABI.

use vstd::prelude::*;

verus! {

/// A status code from the vendor loader's fixed enumeration.
pub type SgxStatus = u32;

/// The loader call completed successfully.
pub const SGX_SUCCESS: SgxStatus = 0x0000;

/// An unexpected internal error occurred in the loader.
pub const SGX_ERROR_UNEXPECTED: SgxStatus = 0x0001;

/// A parameter handed to the loader was invalid.
pub const SGX_ERROR_INVALID_PARAMETER: SgxStatus = 0x0002;

/// The loader ran out of memory while loading the image.
pub const SGX_ERROR_OUT_OF_MEMORY: SgxStatus = 0x0003;

/// The enclave image is invalid.
pub const SGX_ERROR_INVALID_ENCLAVE: SgxStatus = 0x2001;

/// The enclave identifier does not name a live enclave.  The destroy call
/// reports either this code or success, and nothing else.
pub const SGX_ERROR_INVALID_ENCLAVE_ID: SgxStatus = 0x2002;

/// The enclave image file could not be opened or read.
pub const SGX_ERROR_ENCLAVE_FILE_ACCESS: SgxStatus = 0x4001;

} // verus!
