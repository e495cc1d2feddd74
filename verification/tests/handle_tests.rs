use enclave_handle::Enclave;
use enclave_handle::LAUNCH_TOKEN_BYTES;
use enclave_handle::fresh_launch_token;
use enclave_handle::SGX_ERROR_ENCLAVE_FILE_ACCESS;
use enclave_handle::SGX_SUCCESS;

#[test]
fn test_default_debug_flag_is_0() {
    // The debug flag only matters in the integer form handed to the
    // vendor creation call, so that form is what is inspected here.
    let enclave = Enclave::new("");
    assert_eq!(enclave.debug_as_int(), 0);
}

#[test]
fn test_when_debug_flag_is_true_it_is_1() {
    let mut enclave = Enclave::new("");
    enclave.debug(true);
    assert_eq!(enclave.debug_as_int(), 1);
}

#[test]
fn debug_calls_can_be_chained() {
    let mut enclave = Enclave::new("");
    enclave.debug(true).debug(false);
    assert_eq!(enclave.debug_as_int(), 0);
}

#[test]
fn new_handle_has_no_identifier() {
    let enclave = Enclave::new("enclave.signed.so");
    assert_eq!(enclave.id(), None);
}

#[test]
fn filename_is_stored_verbatim() {
    let enclave = Enclave::new("enclave.signed.so");
    assert_eq!(enclave.filename(), "enclave.signed.so");
}

#[test]
fn failed_create_returns_status_and_leaves_identifier_empty() {
    let mut enclave = Enclave::new("does_not_exist.signed.so");
    let status = enclave.create(SGX_ERROR_ENCLAVE_FILE_ACCESS, 0);
    assert_eq!(status, SGX_ERROR_ENCLAVE_FILE_ACCESS);
    assert_eq!(enclave.id(), None);
}

#[test]
fn successful_create_returns_success_and_sets_identifier() {
    let mut enclave = Enclave::new("enclave.signed.so");
    let status = enclave.create(SGX_SUCCESS, 42);
    assert_eq!(status, SGX_SUCCESS);
    assert_eq!(enclave.id(), Some(42));
}

#[test]
fn release_clears_identifier_and_second_release_is_noop() {
    let mut enclave = Enclave::new("enclave.signed.so");
    enclave.create(SGX_SUCCESS, 42);
    // The first release hands out the identifier for the destroy call.
    assert_eq!(enclave.release(), Some(42));
    assert_eq!(enclave.id(), None);
    // The second release yields nothing, so no second destroy call is made.
    assert_eq!(enclave.release(), None);
    assert_eq!(enclave.id(), None);
}

#[test]
fn round_trip_matches_fresh_handle() {
    let fresh = Enclave::new("enclave.signed.so");
    let mut enclave = Enclave::new("enclave.signed.so");
    enclave.create(SGX_SUCCESS, 42);
    enclave.release();
    assert_eq!(enclave.id(), fresh.id());
    assert_eq!(enclave.id(), None);
    assert_eq!(enclave.filename(), fresh.filename());
    assert_eq!(enclave.debug_as_int(), fresh.debug_as_int());
}

#[test]
fn launch_token_is_fully_zeroed() {
    let token = fresh_launch_token();
    assert_eq!(token.len(), LAUNCH_TOKEN_BYTES);
    assert_eq!(token.len(), 1024);
    assert!(token.iter().all(|b| *b == 0));
}
