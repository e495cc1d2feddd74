//! The enclave handle and its lifecycle.
//!
//! An [`Enclave`] owns the untrusted-side state for at most one loaded
//! enclave: the path of the signed image, the debug flag, and the opaque
//! identifier the loader assigned.  The loader itself runs outside this
//! crate; a host process performs the vendor calls and hands their
//! outcomes to the methods here, which are the sole authority over the
//! handle's state.  The lifecycle is the state machine
//! `Unloaded --create(success)--> Loaded --release--> Unloaded`, with a
//! failed creation leaving the state unchanged.

use vstd::prelude::*;

use crate::status::{SgxStatus, SGX_SUCCESS};

verus! {

/// An opaque enclave identifier, assigned by the vendor loader.
pub type SgxEnclaveId = u64;

/// Number of bytes in a launch-token buffer.  The loader expects a
/// zero-initialized buffer of exactly this size on every creation call.
pub const LAUNCH_TOKEN_BYTES: usize = 1024;

/// Untrusted-side handle for one enclave.
pub struct Enclave {
    /// Path of the signed enclave image.
    filename: String,
    /// Identifier assigned by the loader; `None` while no enclave is
    /// loaded under this handle.
    id: Option<SgxEnclaveId>,
    /// Whether the next creation call should enable debug instrumentation.
    debug: bool,
}

/// Abstract state of a handle.  The identifier is `Some` exactly while a
/// live enclave is loaded under the handle.
pub ghost struct EnclaveState {
    pub filename: Seq<char>,
    pub debug: bool,
    pub id: Option<SgxEnclaveId>,
}

impl View for Enclave {
    type V = EnclaveState;

    closed spec fn view(&self) -> EnclaveState {
        EnclaveState { filename: self.filename@, debug: self.debug, id: self.id }
    }
}

/// Holds when a path contains no NUL character, so that it can be handed
/// to the loader as a null-terminated byte string.
pub open spec fn nul_free(s: Seq<char>) -> bool {
    forall|i: int| 0 <= i < s.len() ==> s[i] != '\0'
}

/// The state of a freshly constructed handle: nothing loaded, debug off.
pub open spec fn fresh_state(filename: Seq<char>) -> EnclaveState {
    EnclaveState { filename, debug: false, id: None }
}

/// The state after configuring the debug flag.
pub open spec fn set_debug_step(pre: EnclaveState, debug: bool) -> EnclaveState {
    EnclaveState { filename: pre.filename, debug, id: pre.id }
}

/// The state after a creation attempt whose loader call returned `status`
/// and wrote `enclave_id`.  Success records the identifier; any other
/// status leaves the handle exactly as it was.
pub open spec fn create_step(
    pre: EnclaveState,
    status: SgxStatus,
    enclave_id: SgxEnclaveId,
) -> EnclaveState {
    if status == SGX_SUCCESS {
        EnclaveState { filename: pre.filename, debug: pre.debug, id: Some(enclave_id) }
    } else {
        pre
    }
}

/// The state after a release: the identifier is cleared, whatever the
/// destroy call reported.
pub open spec fn release_step(pre: EnclaveState) -> EnclaveState {
    EnclaveState { filename: pre.filename, debug: pre.debug, id: None }
}

/// The integer form of the debug flag expected by the vendor ABI.
pub open spec fn debug_flag_as_int(state: EnclaveState) -> int {
    if state.debug {
        1
    } else {
        0
    }
}

impl Enclave {
    /// A handle is well formed when its stored path can be rendered as a
    /// null-terminated byte string.  Construction establishes this, and
    /// every operation leaves the path unchanged.
    pub open spec fn wf(self) -> bool {
        nul_free(self@.filename)
    }

    /// Stores the path of a signed enclave image.  No loader call is made
    /// yet; the debug flag starts out disabled.
    pub fn new(filename: &str) -> (enclave: Enclave)
        requires
            nul_free(filename@),
        ensures
            enclave@ == fresh_state(filename@),
            enclave.wf(),
    {
        Enclave { filename: String::from_str(filename), id: None, debug: false }
    }

    /// Configures whether the next creation call enables debug
    /// instrumentation.  Takes effect only at the next creation; returns
    /// the handle so that configuration calls can be chained.
    pub fn debug(&mut self, debug: bool) -> (r: &mut Enclave)
        ensures
            r@ == set_debug_step(old(self)@, debug),
            final(self)@ == final(r)@,
    {
        self.debug = debug;
        self
    }

    /// The debug flag in the integer form the vendor ABI expects: 1 when
    /// enabled, 0 otherwise.
    pub fn debug_as_int(&self) -> (r: i32)
        ensures
            r as int == debug_flag_as_int(self@),
    {
        if self.debug {
            1
        } else {
            0
        }
    }

    /// The stored path of the signed enclave image.
    pub fn filename(&self) -> (r: &str)
        ensures
            r@ == self@.filename,
    {
        self.filename.as_str()
    }

    /// The identifier of the loaded enclave, or `None` while none is
    /// loaded under this handle.
    pub fn id(&self) -> (r: Option<SgxEnclaveId>)
        ensures
            r == self@.id,
    {
        self.id
    }

    /// Records the outcome of one vendor creation call, made with the
    /// stored path, the debug flag, and fresh scratch buffers.  On the
    /// success status the identifier the loader wrote is recorded; on any
    /// other status the handle is left untouched.  The status is returned
    /// verbatim for the caller to inspect: creation is never retried here.
    ///
    /// A handle that already holds an identifier keeps the caller
    /// responsible: a successful call simply records the new identifier.
    pub fn create(&mut self, status: SgxStatus, enclave_id: SgxEnclaveId) -> (r: SgxStatus)
        ensures
            r == status,
            final(self)@ == create_step(old(self)@, status, enclave_id),
    {
        if status == SGX_SUCCESS {
            self.id = Some(enclave_id);
        }
        status
    }

    /// Clears the identifier and returns what it held, so that the caller
    /// can pass a returned identifier to the vendor destroy call exactly
    /// once.  A release on an unloaded handle returns `None` and changes
    /// nothing: no second destroy call is warranted.
    pub fn release(&mut self) -> (r: Option<SgxEnclaveId>)
        ensures
            r == old(self)@.id,
            final(self)@ == release_step(old(self)@),
    {
        let r = self.id;
        self.id = None;
        r
    }
}

/// Builds the zero-initialized launch-token buffer that the loader expects
/// on each creation call.  The buffer is scratch state local to one call:
/// the loader may fill it in, and it is never retained across calls.
pub fn fresh_launch_token() -> (token: Vec<u8>)
    ensures
        token@.len() == LAUNCH_TOKEN_BYTES,
        forall|i: int| 0 <= i < token@.len() ==> token@[i] == 0,
{
    let mut token: Vec<u8> = Vec::new();
    while token.len() < LAUNCH_TOKEN_BYTES
        invariant
            token@.len() <= LAUNCH_TOKEN_BYTES,
            forall|i: int| 0 <= i < token@.len() ==> token@[i] == 0,
        decreases LAUNCH_TOKEN_BYTES - token.len(),
    {
        token.push(0);
    }
    token
}

} // verus!
