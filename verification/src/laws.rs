//! Lifecycle laws of the enclave handle.
//!
//! These proof functions state, over the abstract state transitions of
//! [`crate::handle`], the guarantees the handle gives across several
//! operations: a failed creation is invisible, a successful creation
//! loads exactly the returned identifier, release is idempotent, and a
//! created-then-released handle is indistinguishable from a fresh one.

use vstd::prelude::*;

use crate::handle::{
    create_step, debug_flag_as_int, fresh_state, release_step, set_debug_step, EnclaveState,
    SgxEnclaveId,
};
use crate::status::{SgxStatus, SGX_SUCCESS};

verus! {

/// A creation attempt that reports any status other than success leaves
/// the whole handle state unchanged; in particular the identifier stays
/// empty on a handle that held none.
pub proof fn lemma_failed_create_changes_nothing(
    pre: EnclaveState,
    status: SgxStatus,
    enclave_id: SgxEnclaveId,
)
    requires
        status != SGX_SUCCESS,
    ensures
        create_step(pre, status, enclave_id) == pre,
{
}

/// A creation attempt that reports success loads the handle: the
/// identifier becomes exactly the one the loader wrote, and the path and
/// debug flag are untouched.
pub proof fn lemma_successful_create_loads(pre: EnclaveState, enclave_id: SgxEnclaveId)
    ensures
        create_step(pre, SGX_SUCCESS, enclave_id).id == Some(enclave_id),
        create_step(pre, SGX_SUCCESS, enclave_id).filename == pre.filename,
        create_step(pre, SGX_SUCCESS, enclave_id).debug == pre.debug,
{
}

/// Enabling the debug flag makes its vendor-ABI integer form 1, and a
/// freshly constructed handle's flag coerces to 0.
pub proof fn lemma_debug_flag_coercion(pre: EnclaveState, filename: Seq<char>)
    ensures
        debug_flag_as_int(set_debug_step(pre, true)) == 1,
        debug_flag_as_int(set_debug_step(pre, false)) == 0,
        debug_flag_as_int(fresh_state(filename)) == 0,
{
}

/// After a successful creation, a release empties the identifier, and a
/// second release is a no-op: the state it yields is the state it was
/// given, so no further destroy call is warranted.
pub proof fn lemma_release_after_create(
    pre: EnclaveState,
    enclave_id: SgxEnclaveId,
)
    ensures
        release_step(create_step(pre, SGX_SUCCESS, enclave_id)).id is None,
        release_step(release_step(create_step(pre, SGX_SUCCESS, enclave_id)))
            == release_step(create_step(pre, SGX_SUCCESS, enclave_id)),
{
}

/// Release is idempotent on every state, loaded or not.
pub proof fn lemma_release_idempotent(pre: EnclaveState)
    ensures
        release_step(release_step(pre)) == release_step(pre),
{
}

/// Round trip: constructing a handle, creating it successfully, and then
/// releasing it yields exactly the state of a freshly constructed,
/// never-created handle — the identifier is empty in both.
pub proof fn lemma_round_trip(filename: Seq<char>, enclave_id: SgxEnclaveId)
    ensures
        release_step(create_step(fresh_state(filename), SGX_SUCCESS, enclave_id))
            == fresh_state(filename),
        fresh_state(filename).id is None,
{
}

} // verus!
