use wasmtime_provider::abi::HostFunction;
use wasmtime_provider::abi::bytes_eq;
use wasmtime_provider::abi::console_log_bytes;
use wasmtime_provider::abi::guest_call_bytes;
use wasmtime_provider::abi::guest_error_bytes;
use wasmtime_provider::abi::guest_request_bytes;
use wasmtime_provider::abi::guest_response_bytes;
use wasmtime_provider::abi::host_call_bytes;
use wasmtime_provider::abi::host_error_bytes;
use wasmtime_provider::abi::host_error_len_bytes;
use wasmtime_provider::abi::host_function_for_name;
use wasmtime_provider::abi::host_namespace_bytes;
use wasmtime_provider::abi::host_response_bytes;
use wasmtime_provider::abi::host_response_len_bytes;
use wasmtime_provider::abi::tinygo_start_bytes;
use wasmtime_provider::abi::wapc_init_bytes;

#[test]
fn names_match_wapc_protocol() {
    assert_eq!(host_namespace_bytes(), wapc::HOST_NAMESPACE.as_bytes().to_vec());
    assert_eq!(
        console_log_bytes(),
        wapc::wapc_functions::HOST_CONSOLE_LOG.as_bytes().to_vec()
    );
    assert_eq!(host_call_bytes(), wapc::wapc_functions::HOST_CALL.as_bytes().to_vec());
    assert_eq!(
        guest_request_bytes(),
        wapc::wapc_functions::GUEST_REQUEST_FN.as_bytes().to_vec()
    );
    assert_eq!(
        host_response_bytes(),
        wapc::wapc_functions::HOST_RESPONSE_FN.as_bytes().to_vec()
    );
    assert_eq!(
        host_response_len_bytes(),
        wapc::wapc_functions::HOST_RESPONSE_LEN_FN.as_bytes().to_vec()
    );
    assert_eq!(
        guest_response_bytes(),
        wapc::wapc_functions::GUEST_RESPONSE_FN.as_bytes().to_vec()
    );
    assert_eq!(
        guest_error_bytes(),
        wapc::wapc_functions::GUEST_ERROR_FN.as_bytes().to_vec()
    );
    assert_eq!(host_error_bytes(), wapc::wapc_functions::HOST_ERROR_FN.as_bytes().to_vec());
    assert_eq!(
        host_error_len_bytes(),
        wapc::wapc_functions::HOST_ERROR_LEN_FN.as_bytes().to_vec()
    );
    assert_eq!(guest_call_bytes(), wapc::wapc_functions::GUEST_CALL.as_bytes().to_vec());
    assert_eq!(
        tinygo_start_bytes(),
        wapc::wapc_functions::REQUIRED_STARTS[0].as_bytes().to_vec()
    );
    assert_eq!(
        wapc_init_bytes(),
        wapc::wapc_functions::REQUIRED_STARTS[1].as_bytes().to_vec()
    );
}

#[test]
fn every_bridging_name_resolves_to_its_role() {
    assert_eq!(
        host_function_for_name(&console_log_bytes()),
        Some(HostFunction::ConsoleLog)
    );
    assert_eq!(host_function_for_name(&host_call_bytes()), Some(HostFunction::HostCall));
    assert_eq!(
        host_function_for_name(&guest_request_bytes()),
        Some(HostFunction::GuestRequest)
    );
    assert_eq!(
        host_function_for_name(&host_response_bytes()),
        Some(HostFunction::HostResponse)
    );
    assert_eq!(
        host_function_for_name(&host_response_len_bytes()),
        Some(HostFunction::HostResponseLen)
    );
    assert_eq!(
        host_function_for_name(&guest_response_bytes()),
        Some(HostFunction::GuestResponse)
    );
    assert_eq!(
        host_function_for_name(&guest_error_bytes()),
        Some(HostFunction::GuestError)
    );
    assert_eq!(host_function_for_name(&host_error_bytes()), Some(HostFunction::HostError));
    assert_eq!(
        host_function_for_name(&host_error_len_bytes()),
        Some(HostFunction::HostErrorLen)
    );
}

#[test]
fn unrelated_names_resolve_to_no_role() {
    assert_eq!(host_function_for_name(&guest_call_bytes()), None);
    assert_eq!(host_function_for_name(&tinygo_start_bytes()), None);
    assert_eq!(host_function_for_name(&b"__host_cal".to_vec()), None);
    assert_eq!(host_function_for_name(&b"__host_call_".to_vec()), None);
    assert_eq!(host_function_for_name(&Vec::new()), None);
}

#[test]
fn byte_equality_is_exact() {
    assert!(bytes_eq(&b"abc".to_vec(), &b"abc".to_vec()));
    assert!(!bytes_eq(&b"abc".to_vec(), &b"abd".to_vec()));
    assert!(!bytes_eq(&b"abc".to_vec(), &b"ab".to_vec()));
    assert!(bytes_eq(&Vec::new(), &Vec::new()));
}
