use enclave_core::errors::wasmi_error_to_enclave_error;
use enclave_core::errors::DbError;
use enclave_core::errors::EnclaveError;
use enclave_core::errors::InterpreterError;
use enclave_core::errors::WasmEngineError;

#[test]
fn host_errors_keep_their_identity() {
    let cases = vec![
        (WasmEngineError::FailedOcall, EnclaveError::FailedOcall),
        (WasmEngineError::OutOfGas, EnclaveError::OutOfGas),
        (WasmEngineError::EncryptionError, EnclaveError::FailedSeal),
        (WasmEngineError::DecryptionError, EnclaveError::FailedUnseal),
        (WasmEngineError::DbError(DbError::FailedRead), EnclaveError::FailedFunctionCall),
        (WasmEngineError::DbError(DbError::FailedWrite), EnclaveError::FailedFunctionCall),
        (WasmEngineError::NotImplemented, EnclaveError::NotImplemented),
    ];
    for (engine, enclave) in cases {
        assert_eq!(wasmi_error_to_enclave_error(InterpreterError::Host(engine)), enclave);
    }
}

#[test]
fn other_host_errors_are_unknown() {
    let others = vec![
        WasmEngineError::MemoryAllocationError,
        WasmEngineError::MemoryReadError,
        WasmEngineError::MemoryWriteError,
        WasmEngineError::InputInvalid,
        WasmEngineError::InputEmpty,
        WasmEngineError::InputWrongPrefix,
        WasmEngineError::InputWrongLength,
        WasmEngineError::OutputWrongLength,
        WasmEngineError::NonExistentImportFunction,
    ];
    for engine in others {
        assert_eq!(
            wasmi_error_to_enclave_error(InterpreterError::Host(engine)),
            EnclaveError::Unknown
        );
    }
    assert_eq!(
        wasmi_error_to_enclave_error(InterpreterError::ForeignHost),
        EnclaveError::Unknown
    );
}

#[test]
fn interpreter_failures_are_failed_calls() {
    for failure in vec![InterpreterError::Memory, InterpreterError::Value, InterpreterError::Trap] {
        assert_eq!(wasmi_error_to_enclave_error(failure), EnclaveError::FailedFunctionCall);
    }
}

#[test]
fn db_error_becomes_engine_error() {
    assert_eq!(
        WasmEngineError::from(DbError::FailedRemove),
        WasmEngineError::DbError(DbError::FailedRemove)
    );
}
