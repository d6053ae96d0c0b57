//! Error kinds of the enclave core and the classification of interpreter
//! failures into the outward-facing error set.

use vstd::prelude::*;

verus! {

/// Outward-facing error of an enclave entry point.
#[derive(Clone, Copy, Debug, PartialEq, Eq, Structural)]
pub enum EnclaveError {
    FailedOcall,
    OutOfGas,
    FailedSeal,
    FailedUnseal,
    /// A key could not be derived from the root seed: a cryptographic
    /// failure, not a failure to seal or unseal.
    FailedKeyDerivation,
    FailedFunctionCall,
    NotImplemented,
    MemorySafetyAllocationError,
    Unknown,
}

/// Failure of a cryptographic collaborator or of access to key material.
#[derive(Clone, Copy, Debug, PartialEq, Eq, Structural)]
pub enum CryptoError {
    DerivingKeyError,
    EncryptionError,
    DecryptionError,
    RandomError,
    ParsingError,
    KeyError,
}

/// The only failure the seed-exchange protocol lets out: no step is named, so
/// the caller cannot tell which one went wrong.
#[derive(Clone, Copy, Debug, PartialEq, Eq, Structural)]
pub enum ExchangeError {
    Unexpected,
}

/// Failure of the encrypted storage service.
#[derive(Clone, Copy, Debug, PartialEq, Eq, Structural)]
#[non_exhaustive]
pub enum DbError {
    FailedRead,
    FailedRemove,
    FailedWrite,
    FailedEncryption,
    FailedDecryption,
}

/// Failure raised by a host function while a contract runs.
#[derive(Clone, Copy, Debug, PartialEq, Eq, Structural)]
#[non_exhaustive]
pub enum WasmEngineError {
    FailedOcall,
    OutOfGas,
    EncryptionError,
    DecryptionError,
    DbError(DbError),
    MemoryAllocationError,
    MemoryReadError,
    MemoryWriteError,
    InputInvalid,
    InputEmpty,
    InputWrongPrefix,
    InputWrongLength,
    OutputWrongLength,
    NonExistentImportFunction,
    NotImplemented,
}

/// What the interpreter reports when a call does not complete.
#[derive(Clone, Copy, Debug, PartialEq, Eq, Structural)]
pub enum InterpreterError {
    /// An access outside linear memory, or a region too small for its payload.
    Memory,
    /// An export returned a value of the wrong type.
    Value,
    /// A trap raised by the contract's own code.
    Trap,
    /// A host error that did not come from this engine.
    ForeignHost,
    /// A host error raised by one of this engine's host functions.
    Host(WasmEngineError),
}

/// A storage failure seen as an engine failure.
impl From<DbError> for WasmEngineError {
    fn from(err: DbError) -> (r: WasmEngineError) {
        WasmEngineError::DbError(err)
    }
}

impl vstd::std_specs::convert::FromSpecImpl<DbError> for WasmEngineError {
    open spec fn obeys_from_spec() -> bool {
        true
    }

    open spec fn from_spec(err: DbError) -> WasmEngineError {
        WasmEngineError::DbError(err)
    }
}

/// The outward-facing error that stands for an interpreter failure.
pub open spec fn enclave_error_of(err: InterpreterError) -> EnclaveError {
    match err {
        InterpreterError::Host(WasmEngineError::FailedOcall) => EnclaveError::FailedOcall,
        InterpreterError::Host(WasmEngineError::OutOfGas) => EnclaveError::OutOfGas,
        InterpreterError::Host(WasmEngineError::EncryptionError) => EnclaveError::FailedSeal,
        InterpreterError::Host(WasmEngineError::DecryptionError) => EnclaveError::FailedUnseal,
        InterpreterError::Host(WasmEngineError::DbError(_)) => EnclaveError::FailedFunctionCall,
        InterpreterError::Host(WasmEngineError::NotImplemented) => EnclaveError::NotImplemented,
        InterpreterError::Host(_) => EnclaveError::Unknown,
        InterpreterError::ForeignHost => EnclaveError::Unknown,
        _ => EnclaveError::FailedFunctionCall,
    }
}

/// Reclassifies an interpreter failure: gas exhaustion, a failed storage
/// call, a failed seal or unseal and a reserved host function keep their
/// identity; every other host failure is unknown; a failure that no host
/// function raised is a failed function call.
pub fn wasmi_error_to_enclave_error(wasmi_error: InterpreterError) -> (r: EnclaveError)
    ensures
        r == enclave_error_of(wasmi_error),
{
    match wasmi_error {
        InterpreterError::Host(e) => match e {
            WasmEngineError::FailedOcall => EnclaveError::FailedOcall,
            WasmEngineError::OutOfGas => EnclaveError::OutOfGas,
            WasmEngineError::EncryptionError => EnclaveError::FailedSeal,
            WasmEngineError::DecryptionError => EnclaveError::FailedUnseal,
            WasmEngineError::DbError(_) => EnclaveError::FailedFunctionCall,
            WasmEngineError::NotImplemented => EnclaveError::NotImplemented,
            _ => EnclaveError::Unknown,
        },
        InterpreterError::ForeignHost => EnclaveError::Unknown,
        _ => EnclaveError::FailedFunctionCall,
    }
}

} // verus!
