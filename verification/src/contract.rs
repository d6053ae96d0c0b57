//! The execution context of one contract call: the contract's linear
//! memory, its gas accounts and the host functions that the contract calls.
//!
//! The storage service and the contract's own `allocate` export are
//! collaborators. A host function that needs one is a function from what has
//! happened so far to what is to be done next; the others run in one call.

use vstd::prelude::*;
use vstd::utf8::encode_utf8;
use crate::address::canonical_of;
use crate::address::canonicalize;
use crate::address::human_of;
use crate::address::humanize;
use crate::errors::InterpreterError;
use crate::errors::WasmEngineError;
use crate::memory::region_payload;
use crate::memory::region_write_kind;
use crate::memory::region_written;
use crate::memory::RegionWrite;

verus! {

/// Status that a host function returns on success.
pub const STATUS_OK: i32 = 0;

/// Identifier that scopes a contract's storage.
pub type ContractKey = [u8; 64];

/// A value returned by an export of the contract.
#[derive(Clone, Copy, Debug, PartialEq, Eq, Structural)]
pub enum ExportValue {
    I32(i32),
    /// A value of any other type.
    Other,
}

/// A key of the storage service, scoped by the contract it belongs to.
#[derive(Debug)]
pub struct StorageKey {
    pub contract_key: ContractKey,
    pub key: Vec<u8>,
}

/// What has happened so far in a host function that reads storage.
#[derive(Debug)]
pub enum ReadEvent {
    /// The contract has just called.
    Called,
    /// The storage service answered with the value, if there is one, and the
    /// gas the read cost.
    Answered(Result<(Option<Vec<u8>>, u64), WasmEngineError>),
    /// The contract's `allocate` export was invoked for `value` and returned.
    Allocated { value: Vec<u8>, returned: Result<Option<ExportValue>, InterpreterError> },
}

/// What is to be done next in a host function that reads storage.
#[derive(Debug)]
pub enum ReadStep {
    /// Read this key and come back with the answer.
    Fetch(StorageKey),
    /// Invoke the contract's `allocate` export for `len` bytes, refresh the
    /// memory, and come back with `value` and what the export returned.
    Allocate { len: u32, value: Vec<u8> },
    /// Return this to the contract: the region of the value, or 0 when the
    /// key has none.
    Return(i32),
}

/// What has happened so far in a host function that changes storage.
#[derive(Debug)]
pub enum StoreEvent {
    /// The contract has just called.
    Called,
    /// The storage service answered with the gas the change cost.
    Answered(Result<u64, WasmEngineError>),
}

/// What is to be done next in a host function that changes storage.
#[derive(Debug)]
pub enum StoreStep {
    /// Write this value under this key and come back with the answer.
    Write(StorageKey, Vec<u8>),
    /// Remove this key and come back with the answer.
    Remove(StorageKey),
    /// Return this status to the contract: 0, the change was made.
    Return(i32),
}

/// The sum of two gas amounts, held at the largest amount when it would
/// pass it.
pub open spec fn saturating_sum(a: u64, b: u64) -> u64 {
    if a + b > u64::MAX {
        u64::MAX
    } else {
        (a + b) as u64
    }
}

/// The memory address that a contract means by the 32-bit value `p`.
pub open spec fn address_of(p: i32) -> u32 {
    if p >= 0 {
        p as u32
    } else {
        (p + 0x1_0000_0000) as u32
    }
}

/// The gas amount that the interpreter means by the 32-bit value `amount`:
/// the value extended to 64 bits with its sign.
pub open spec fn gas_amount_of(amount: i32) -> u64 {
    if amount >= 0 {
        amount as u64
    } else {
        (amount + 0x1_0000_0000_0000_0000) as u64
    }
}

/// The 32-bit value that a contract sees for the address `p`.
pub open spec fn value_of(p: u32) -> i32 {
    if p < 0x8000_0000 {
        p as i32
    } else {
        (p - 0x1_0000_0000) as i32
    }
}

/// The region that `allocate` returned, or why there is none.
pub open spec fn allocated_region(returned: Result<Option<ExportValue>, InterpreterError>) -> Result<
    u32,
    InterpreterError,
> {
    match returned {
        Ok(Some(ExportValue::I32(offset))) => Ok(address_of(offset)),
        Ok(_) => Err(InterpreterError::Value),
        Err(e) => Err(e),
    }
}

/// Memory and result after the canonical form of the textual address in the
/// region at `human_ptr` was asked into the region at `canonical_ptr`.
pub open spec fn canonicalized(mem: Seq<u8>, human_ptr: i32, canonical_ptr: i32) -> (
    Seq<u8>,
    Result<Option<i32>, WasmEngineError>,
) {
    match region_payload(mem, address_of(human_ptr)) {
        None => (mem, Err(WasmEngineError::MemoryReadError)),
        Some(human) => match canonical_of(human) {
            Err(e) => (mem, Err(e)),
            Ok(Err(status)) => (mem, Ok(Some(status))),
            Ok(Ok(canonical)) => (
                region_written(mem, canonical, address_of(canonical_ptr)),
                match region_write_kind(mem, canonical, address_of(canonical_ptr)) {
                    RegionWrite::Written => Ok(Some(STATUS_OK)),
                    _ => Err(WasmEngineError::MemoryWriteError),
                },
            ),
        },
    }
}

/// Memory and result after the textual form of the canonical address in the
/// region at `canonical_ptr` was asked into the region at `human_ptr`.
pub open spec fn humanized(mem: Seq<u8>, canonical_ptr: i32, human_ptr: i32) -> (
    Seq<u8>,
    Result<Option<i32>, WasmEngineError>,
) {
    match region_payload(mem, address_of(canonical_ptr)) {
        None => (mem, Err(WasmEngineError::MemoryReadError)),
        Some(canonical) => match human_of(canonical) {
            Err(status) => (mem, Ok(Some(status))),
            Ok(text) => (
                region_written(mem, encode_utf8(text), address_of(human_ptr)),
                match region_write_kind(mem, encode_utf8(text), address_of(human_ptr)) {
                    RegionWrite::Written => Ok(Some(STATUS_OK)),
                    _ => Err(WasmEngineError::MemoryWriteError),
                },
            ),
        },
    }
}

/// The address that a contract means by `p`.
fn to_address(p: i32) -> (r: u32)
    ensures
        r == address_of(p),
{
    if p >= 0 {
        p as u32
    } else {
        (p as i64 + 0x1_0000_0000) as u32
    }
}

/// The value that a contract sees for the address `p`.
fn to_value(p: u32) -> (r: i32)
    ensures
        r == value_of(p),
{
    if p < 0x8000_0000 {
        p as i32
    } else {
        (p as i64 - 0x1_0000_0000) as i32
    }
}

/// The execution context of one contract call.
#[derive(Debug)]
pub struct ContractInstance {
    /// The contract's linear memory.
    pub memory: Vec<u8>,
    pub gas_limit: u64,
    /// Gas used by interpreted instructions.
    pub gas_used: u64,
    /// Gas used by host-mediated services, kept apart so that it is not
    /// charged twice.
    pub gas_used_externally: u64,
    pub contract_key: ContractKey,
}

impl View for StorageKey {
    type V = (ContractKey, Seq<u8>);

    open spec fn view(&self) -> (ContractKey, Seq<u8>) {
        scoped_key(self.contract_key, self.key@)
    }
}

impl ContractInstance {
    /// All gas used so far, on both accounts.
    pub open spec fn gas_total(&self) -> u64 {
        saturating_sum(self.gas_used, self.gas_used_externally)
    }

    /// Whether the gas used has reached the limit.
    pub open spec fn gas_depleted(&self) -> bool {
        self.gas_limit <= self.gas_total()
    }

    /// The verdict on the gas used so far.
    pub open spec fn gas_verdict(&self) -> Result<(), WasmEngineError> {
        if self.gas_depleted() {
            Err(WasmEngineError::OutOfGas)
        } else {
            Ok(())
        }
    }

    /// This context after `gas_amount` was charged for interpreted
    /// instructions.
    pub open spec fn charged(self, gas_amount: u64) -> ContractInstance {
        ContractInstance { gas_used: saturating_sum(self.gas_used, gas_amount), ..self }
    }

    /// This context after `gas_amount` was charged for a host-mediated
    /// service.
    pub open spec fn charged_externally(self, gas_amount: u64) -> ContractInstance {
        ContractInstance {
            gas_used_externally: saturating_sum(self.gas_used_externally, gas_amount),
            ..self
        }
    }


    /// Whether `other` differs from this context in its memory at most.
    pub open spec fn same_accounts(&self, other: &ContractInstance) -> bool {
        &&& self.gas_limit == other.gas_limit
        &&& self.gas_used == other.gas_used
        &&& self.gas_used_externally == other.gas_used_externally
        &&& self.contract_key == other.contract_key
    }

    /// A context over `memory` with nothing charged yet.
    pub fn new(memory: Vec<u8>, gas_limit: u64, contract_key: ContractKey) -> (r: ContractInstance)
        ensures
            r.memory == memory,
            r.gas_limit == gas_limit,
            r.gas_used == 0,
            r.gas_used_externally == 0,
            r.contract_key == contract_key,
    {
        ContractInstance { memory, gas_limit, gas_used: 0, gas_used_externally: 0, contract_key }
    }

    /// Copies out the buffer that the region at `vec_ptr_ptr` describes.
    pub fn extract_vector(&self, vec_ptr_ptr: u32) -> (r: Result<Vec<u8>, InterpreterError>)
        ensures
            match region_payload(self.memory@, vec_ptr_ptr) {
                Some(bytes) => r is Ok && r.unwrap()@ == bytes,
                None => r == Err::<Vec<u8>, InterpreterError>(InterpreterError::Memory),
            },
    {
        crate::memory::extract_vector(&self.memory, vec_ptr_ptr)
    }

    /// The number of bytes to ask the contract's `allocate` export for, so
    /// that a buffer of `len` bytes can be written: `len` itself, if a 32-bit
    /// memory can hold it.
    pub fn allocation_len(len: usize) -> (r: Option<u32>)
        ensures
            r == if len <= u32::MAX {
                Some(len as u32)
            } else {
                None
            },
    {
        if len as u64 <= u32::MAX as u64 {
            Some(len as u32)
        } else {
            None
        }
    }

    /// Judges what the contract's `allocate` export returned: only a 32-bit
    /// value is the address of a region.
    pub fn allocate(&self, returned: Result<Option<ExportValue>, InterpreterError>) -> (r: Result<
        u32,
        InterpreterError,
    >)
        ensures
            r == allocated_region(returned),
    {
        match returned {
            Ok(Some(ExportValue::I32(offset))) => Ok(to_address(offset)),
            Ok(_) => Err(InterpreterError::Value),
            Err(e) => Err(e),
        }
    }

    /// Writes `buffer` into the region at `ptr_to_region_in_wasm_vm` and
    /// returns the region. A region whose capacity is below the buffer's
    /// length is refused and memory stays as it was.
    pub fn write_to_allocated_memory(&mut self, buffer: &[u8], ptr_to_region_in_wasm_vm: u32) -> (r:
        Result<u32, InterpreterError>)
        ensures
            final(self).same_accounts(old(self)),
            final(self).memory@ == region_written(
                old(self).memory@,
                buffer@,
                ptr_to_region_in_wasm_vm,
            ),
            r == match region_write_kind(old(self).memory@, buffer@, ptr_to_region_in_wasm_vm) {
                RegionWrite::Written => Ok::<u32, InterpreterError>(ptr_to_region_in_wasm_vm),
                _ => Err(InterpreterError::Memory),
            },
    {
        crate::memory::write_to_allocated_memory(&mut self.memory, buffer, ptr_to_region_in_wasm_vm)
    }

    /// Writes `buffer` into the region that the contract's `allocate` export
    /// returned for it; `returned` is what the export returned.
    pub fn write_to_memory(
        &mut self,
        buffer: &[u8],
        returned: Result<Option<ExportValue>, InterpreterError>,
    ) -> (r: Result<u32, InterpreterError>)
        ensures
            final(self).same_accounts(old(self)),
            match allocated_region(returned) {
                Err(e) => r == Err::<u32, InterpreterError>(e) && final(self).memory@ == old(
                    self,
                ).memory@,
                Ok(region) => final(self).memory@ == region_written(
                    old(self).memory@,
                    buffer@,
                    region,
                ) && r == match region_write_kind(old(self).memory@, buffer@, region) {
                    RegionWrite::Written => Ok::<u32, InterpreterError>(region),
                    _ => Err(InterpreterError::Memory),
                },
            },
    {
        let ptr_to_region_in_wasm_vm = match self.allocate(returned) {
            Ok(p) => p,
            Err(e) => {
                return Err(e);
            },
        };
        self.write_to_allocated_memory(buffer, ptr_to_region_in_wasm_vm)
    }

    /// Charges `gas_amount` for interpreted instructions.
    pub fn use_gas(&mut self, gas_amount: u64) -> (r: Result<(), WasmEngineError>)
        ensures
            *final(self) == old(self).charged(gas_amount),
            r == final(self).gas_verdict(),
    {
        self.gas_used = self.gas_used.saturating_add(gas_amount);
        self.check_gas_usage()
    }

    /// Charges `gas_amount` for a host-mediated service.
    pub fn use_gas_externally(&mut self, gas_amount: u64) -> (r: Result<(), WasmEngineError>)
        ensures
            *final(self) == old(self).charged_externally(gas_amount),
            r == final(self).gas_verdict(),
    {
        self.gas_used_externally = self.gas_used_externally.saturating_add(gas_amount);
        self.check_gas_usage()
    }

    /// Out of gas once the gas used on both accounts has reached the limit.
    pub fn check_gas_usage(&self) -> (r: Result<(), WasmEngineError>)
        ensures
            r == self.gas_verdict(),
    {
        if self.is_gas_depleted() {
            Err(WasmEngineError::OutOfGas)
        } else {
            Ok(())
        }
    }

    /// All gas used so far, on both accounts: the figure a call is billed.
    pub fn gas_used_total(&self) -> (r: u64)
        ensures
            r == self.gas_total(),
    {
        self.gas_used.saturating_add(self.gas_used_externally)
    }

    /// Whether the gas used on both accounts has reached the limit.
    pub fn is_gas_depleted(&self) -> (r: bool)
        ensures
            r == self.gas_depleted(),
    {
        self.gas_limit <= self.gas_used_total()
    }

    /// The storage key for the raw key in the region at `state_key_ptr_ptr`,
    /// scoped by this contract's key.
    pub fn storage_key(&self, state_key_ptr_ptr: i32) -> (r: Result<StorageKey, WasmEngineError>)
        ensures
            match region_payload(self.memory@, address_of(state_key_ptr_ptr)) {
                Some(bytes) => r matches Ok(k) && k.key@ == bytes && k.contract_key
                    == self.contract_key,
                None => r matches Err(e) && e == WasmEngineError::MemoryReadError,
            },
    {
        match self.extract_vector(to_address(state_key_ptr_ptr)) {
            Ok(key) => Ok(StorageKey { contract_key: self.contract_key, key }),
            Err(_) => Err(WasmEngineError::MemoryReadError),
        }
    }

    /// Host function `read_db`: reads the value stored under the key in the
    /// region at `state_key_ptr_ptr`.
    ///
    /// When called, the key is taken from memory and its read is asked for.
    /// When the storage service has answered, the read is charged to the
    /// external gas account even if nothing was found; a failed read or an
    /// exhausted account ends the call. With no value, 0 is returned to the
    /// contract; with a value, space for it is asked of the contract. When
    /// the space was allocated, the value is written into it and its region
    /// is returned.
    pub fn read_db_index(&mut self, state_key_ptr_ptr: i32, event: ReadEvent) -> (r: Result<
        ReadStep,
        WasmEngineError,
    >)
        ensures
            match event {
                ReadEvent::Called => *final(self) == *old(self) && match region_payload(
                    old(self).memory@,
                    address_of(state_key_ptr_ptr),
                ) {
                    Some(bytes) => r matches Ok(ReadStep::Fetch(k)) && k.key@ == bytes
                        && k.contract_key == old(self).contract_key,
                    None => r matches Err(e) && e == WasmEngineError::MemoryReadError,
                },
                ReadEvent::Answered(Err(e)) => *final(self) == *old(self) && r == Err::<
                    ReadStep,
                    WasmEngineError,
                >(e),
                ReadEvent::Answered(Ok((value, gas_used))) => *final(self) == old(
                    self,
                ).charged_externally(gas_used) && r == (if final(self).gas_depleted() {
                    Err::<ReadStep, WasmEngineError>(WasmEngineError::OutOfGas)
                } else {
                    match value {
                        None => Ok(ReadStep::Return(0)),
                        Some(v) => if v@.len() <= u32::MAX {
                            Ok(ReadStep::Allocate { len: v@.len() as u32, value: v })
                        } else {
                            Err(WasmEngineError::MemoryAllocationError)
                        },
                    }
                }),
                ReadEvent::Allocated { value, returned } => final(self).same_accounts(old(self))
                    && match allocated_region(returned) {
                    Err(_) => final(self).memory@ == old(self).memory@ && r == Err::<
                        ReadStep,
                        WasmEngineError,
                    >(WasmEngineError::MemoryAllocationError),
                    Ok(region) => final(self).memory@ == region_written(
                        old(self).memory@,
                        value@,
                        region,
                    ) && r == match region_write_kind(old(self).memory@, value@, region) {
                        RegionWrite::Written => Ok::<ReadStep, WasmEngineError>(
                            ReadStep::Return(value_of(region)),
                        ),
                        _ => Err(WasmEngineError::MemoryAllocationError),
                    },
                },
            },
    {
        match event {
            ReadEvent::Called => {
                match self.storage_key(state_key_ptr_ptr) {
                    Ok(key) => Ok(ReadStep::Fetch(key)),
                    Err(e) => Err(e),
                }
            },
            ReadEvent::Answered(Err(e)) => Err(e),
            ReadEvent::Answered(Ok((value, gas_used))) => {
                match self.use_gas_externally(gas_used) {
                    Ok(()) => {},
                    Err(e) => {
                        return Err(e);
                    },
                }
                match value {
                    None => Ok(ReadStep::Return(0)),
                    Some(v) => match ContractInstance::allocation_len(v.len()) {
                        Some(len) => Ok(ReadStep::Allocate { len, value: v }),
                        None => Err(WasmEngineError::MemoryAllocationError),
                    },
                }
            },
            ReadEvent::Allocated { value, returned } => {
                match self.write_to_memory(value.as_slice(), returned) {
                    Ok(region) => Ok(ReadStep::Return(to_value(region))),
                    Err(_) => Err(WasmEngineError::MemoryAllocationError),
                }
            },
        }
    }

    /// Charges a change of storage that the storage service has answered: a
    /// failed change ends the call with its error, a successful one is
    /// charged to the external gas account and, unless that exhausts the
    /// gas, status 0 is returned to the contract.
    pub fn charge_storage(&mut self, answer: Result<u64, WasmEngineError>) -> (r: Result<
        StoreStep,
        WasmEngineError,
    >)
        ensures
            match answer {
                Err(e) => *final(self) == *old(self) && r == Err::<StoreStep, WasmEngineError>(e),
                Ok(gas_used) => *final(self) == old(self).charged_externally(gas_used) && r == (
                if final(self).gas_depleted() {
                    Err::<StoreStep, WasmEngineError>(WasmEngineError::OutOfGas)
                } else {
                    Ok(StoreStep::Return(STATUS_OK))
                }),
            },
    {
        match answer {
            Err(e) => Err(e),
            Ok(gas_used) => match self.use_gas_externally(gas_used) {
                Ok(()) => Ok(StoreStep::Return(STATUS_OK)),
                Err(e) => Err(e),
            },
        }
    }

    /// Host function `remove_db`: removes the key in the region at
    /// `state_key_ptr_ptr` from storage. When called, the key is taken from
    /// memory and its removal is asked for; the answer is charged as
    /// `charge_storage` says.
    pub fn remove_db_index(&mut self, state_key_ptr_ptr: i32, event: StoreEvent) -> (r: Result<
        StoreStep,
        WasmEngineError,
    >)
        ensures
            match event {
                StoreEvent::Called => *final(self) == *old(self) && match region_payload(
                    old(self).memory@,
                    address_of(state_key_ptr_ptr),
                ) {
                    Some(bytes) => r matches Ok(StoreStep::Remove(k)) && k.key@ == bytes
                        && k.contract_key == old(self).contract_key,
                    None => r matches Err(e) && e == WasmEngineError::MemoryReadError,
                },
                StoreEvent::Answered(Err(e)) => *final(self) == *old(self) && r == Err::<
                    StoreStep,
                    WasmEngineError,
                >(e),
                StoreEvent::Answered(Ok(gas_used)) => *final(self) == old(self).charged_externally(
                    gas_used,
                ) && r == (if final(self).gas_depleted() {
                    Err::<StoreStep, WasmEngineError>(WasmEngineError::OutOfGas)
                } else {
                    Ok(StoreStep::Return(STATUS_OK))
                }),
            },
    {
        match event {
            StoreEvent::Called => match self.storage_key(state_key_ptr_ptr) {
                Ok(key) => Ok(StoreStep::Remove(key)),
                Err(e) => Err(e),
            },
            StoreEvent::Answered(answer) => self.charge_storage(answer),
        }
    }

    /// Host function `write_db`: stores the value in the region at
    /// `value_ptr_ptr` under the key in the region at `state_key_ptr_ptr`.
    /// When called, key and value are taken from memory, the key first, and
    /// the write is asked for; the answer is charged as `charge_storage`
    /// says.
    pub fn write_db_index(&mut self, state_key_ptr_ptr: i32, value_ptr_ptr: i32, event: StoreEvent)
        -> (r: Result<StoreStep, WasmEngineError>)
        ensures
            match event {
                StoreEvent::Called => *final(self) == *old(self) && match (
                    region_payload(old(self).memory@, address_of(state_key_ptr_ptr)),
                    region_payload(old(self).memory@, address_of(value_ptr_ptr)),
                ) {
                    (Some(key), Some(value)) => r matches Ok(StoreStep::Write(k, v)) && k.key@
                        == key && k.contract_key == old(self).contract_key && v@ == value,
                    _ => r matches Err(e) && e == WasmEngineError::MemoryReadError,
                },
                StoreEvent::Answered(Err(e)) => *final(self) == *old(self) && r == Err::<
                    StoreStep,
                    WasmEngineError,
                >(e),
                StoreEvent::Answered(Ok(gas_used)) => *final(self) == old(self).charged_externally(
                    gas_used,
                ) && r == (if final(self).gas_depleted() {
                    Err::<StoreStep, WasmEngineError>(WasmEngineError::OutOfGas)
                } else {
                    Ok(StoreStep::Return(STATUS_OK))
                }),
            },
    {
        match event {
            StoreEvent::Called => {
                let key = match self.storage_key(state_key_ptr_ptr) {
                    Ok(key) => key,
                    Err(e) => {
                        return Err(e);
                    },
                };
                match self.extract_vector(to_address(value_ptr_ptr)) {
                    Ok(value) => Ok(StoreStep::Write(key, value)),
                    Err(_) => Err(WasmEngineError::MemoryReadError),
                }
            },
            StoreEvent::Answered(answer) => self.charge_storage(answer),
        }
    }

    /// Host function `canonicalize_address`: reads the textual address in the
    /// region at `human_ptr_ptr` and writes its canonical bytes into the
    /// region at `canonical_ptr_ptr`.
    ///
    /// Returns 0 on success and a negative status for an address that is not
    /// UTF-8 (-1), not bech32 (-2), of another network (-3) or of a data part
    /// that does not regroup into bytes (-4). An address that is empty once
    /// trimmed, unreadable memory and a destination too small for the bytes
    /// end the call.
    pub fn canonicalize_address_index(&mut self, human_ptr_ptr: i32, canonical_ptr_ptr: i32) -> (r:
        Result<Option<i32>, WasmEngineError>)
        ensures
            final(self).same_accounts(old(self)),
            (final(self).memory@, r) == canonicalized(
                old(self).memory@,
                human_ptr_ptr,
                canonical_ptr_ptr,
            ),
    {
        let human = match self.extract_vector(to_address(human_ptr_ptr)) {
            Ok(human) => human,
            Err(_) => {
                return Err(WasmEngineError::MemoryReadError);
            },
        };
        let canonical = match canonicalize(human.as_slice()) {
            Err(e) => {
                return Err(e);
            },
            Ok(Err(status)) => {
                return Ok(Some(status));
            },
            Ok(Ok(canonical)) => canonical,
        };
        match self.write_to_allocated_memory(canonical.as_slice(), to_address(canonical_ptr_ptr)) {
            Ok(_) => Ok(Some(STATUS_OK)),
            Err(_) => Err(WasmEngineError::MemoryWriteError),
        }
    }

    /// Host function `humanize_address`: reads the canonical address in the
    /// region at `canonical_ptr_ptr` and writes its text into the region at
    /// `human_ptr_ptr`. Returns 0 on success and -1 when the address cannot
    /// be encoded; unreadable memory and a destination too small for the text
    /// end the call.
    pub fn humanize_address_index(&mut self, canonical_ptr_ptr: i32, human_ptr_ptr: i32) -> (r:
        Result<Option<i32>, WasmEngineError>)
        ensures
            final(self).same_accounts(old(self)),
            (final(self).memory@, r) == humanized(
                old(self).memory@,
                canonical_ptr_ptr,
                human_ptr_ptr,
            ),
    {
        let canonical = match self.extract_vector(to_address(canonical_ptr_ptr)) {
            Ok(canonical) => canonical,
            Err(_) => {
                return Err(WasmEngineError::MemoryReadError);
            },
        };
        let human_addr_str = match humanize(canonical.as_slice()) {
            Err(status) => {
                return Ok(Some(status));
            },
            Ok(text) => text,
        };
        let human_bytes = human_addr_str.as_str().as_bytes();
        match self.write_to_allocated_memory(human_bytes, to_address(human_ptr_ptr)) {
            Ok(_) => Ok(Some(STATUS_OK)),
            Err(_) => Err(WasmEngineError::MemoryWriteError),
        }
    }

    /// Host function `query_chain`: reserved, and refused as not implemented.
    pub fn query_chain_index(&mut self, _query_ptr_ptr: i32) -> (r: Result<
        Option<i32>,
        WasmEngineError,
    >)
        ensures
            *final(self) == *old(self),
            r == Err::<Option<i32>, WasmEngineError>(WasmEngineError::NotImplemented),
    {
        Err(WasmEngineError::NotImplemented)
    }

    /// Host function `gas`: charges `gas_amount` for interpreted
    /// instructions.
    pub fn gas_index(&mut self, gas_amount: i32) -> (r: Result<Option<i32>, WasmEngineError>)
        ensures
            *final(self) == old(self).charged(gas_amount_of(gas_amount)),
            r == match final(self).gas_verdict() {
                Ok(_) => Ok::<Option<i32>, WasmEngineError>(None),
                Err(e) => Err(e),
            },
    {
        let amount: u64 = if gas_amount >= 0 {
            gas_amount as u64
        } else {
            u64::MAX - ((-1 - gas_amount as i64) as u64)
        };
        match self.use_gas(amount) {
            Ok(()) => Ok(None),
            Err(e) => Err(e),
        }
    }
}

/// The scoped key under which a contract's raw key reaches the storage
/// service.
pub open spec fn scoped_key(contract_key: ContractKey, raw: Seq<u8>) -> (ContractKey, Seq<u8>) {
    (contract_key, raw)
}

/// Contracts with different keys never name the same entry of the storage
/// service, whatever raw keys they use.
pub proof fn lemma_scopes_disjoint(first: ContractKey, second: ContractKey, a: Seq<u8>, b: Seq<u8>)
    requires
        first != second,
    ensures
        scoped_key(first, a) != scoped_key(second, b),
{
}

/// Saturation never hides a charge: after any charge the gas counts as
/// depleted exactly when the true sum of everything charged has reached the
/// limit.
pub proof fn lemma_gas_never_capped(instance: ContractInstance, gas_amount: u64)
    ensures
        instance.charged_externally(gas_amount).gas_depleted() <==> instance.gas_limit
            <= instance.gas_used + instance.gas_used_externally + gas_amount,
        instance.charged(gas_amount).gas_depleted() <==> instance.gas_limit <= instance.gas_used
            + instance.gas_used_externally + gas_amount,
{
}

/// The sum of `charges`.
pub open spec fn sum_of(charges: Seq<u64>) -> int
    decreases charges.len(),
{
    if charges.len() == 0 {
        0
    } else {
        sum_of(charges.drop_last()) + charges.last()
    }
}

impl ContractInstance {
    /// This context after each of `charges` was charged, in order, for a
    /// host-mediated service.
    pub open spec fn charged_each(self, charges: Seq<u64>) -> ContractInstance
        decreases charges.len(),
    {
        if charges.len() == 0 {
            self
        } else {
            self.charged_each(charges.drop_last()).charged_externally(charges.last())
        }
    }
}

/// However many charges were made, the gas counts as depleted exactly when
/// the true sum of everything charged has reached the limit: the charge that
/// is refused is the one with which the sum crosses the limit, and a counter
/// held at its largest value never lets a charge through.
pub proof fn lemma_charges_never_capped(instance: ContractInstance, charges: Seq<u64>)
    ensures
        instance.charged_each(charges).gas_used == instance.gas_used,
        instance.charged_each(charges).gas_limit == instance.gas_limit,
        instance.charged_each(charges).gas_used_externally == if instance.gas_used_externally
            + sum_of(charges) > u64::MAX {
            u64::MAX
        } else {
            (instance.gas_used_externally + sum_of(charges)) as u64
        },
        instance.charged_each(charges).gas_depleted() <==> instance.gas_limit <= instance.gas_used
            + instance.gas_used_externally + sum_of(charges),
    decreases charges.len(),
{
    if charges.len() > 0 {
        lemma_charges_never_capped(instance, charges.drop_last());
        lemma_sum_not_negative(charges.drop_last());
    }
    lemma_sum_not_negative(charges);
}

/// A sum of charges is not negative.
pub proof fn lemma_sum_not_negative(charges: Seq<u64>)
    ensures
        sum_of(charges) >= 0,
    decreases charges.len(),
{
    if charges.len() > 0 {
        lemma_sum_not_negative(charges.drop_last());
    }
}

/// Charges that stay under the limit one by one are refused at the charge
/// with which their sum reaches it, and not before.
pub proof fn lemma_charge_crosses_once(instance: ContractInstance, first: u64, second: u64)
    requires
        instance.gas_used == 0,
        instance.gas_used_externally == 0,
        first < instance.gas_limit,
        second < instance.gas_limit,
        first + second >= instance.gas_limit,
    ensures
        instance.charged_externally(first).gas_verdict() is Ok,
        instance.charged_externally(first).charged_externally(second).gas_verdict() == Err::<
            (),
            WasmEngineError,
        >(WasmEngineError::OutOfGas),
        instance.charged_externally(first).charged_externally(second).gas_total()
            >= instance.gas_limit,
{
}

/// As long as every charge was accepted, the gas used stays below the limit.
pub proof fn lemma_accepted_charge_below_limit(instance: ContractInstance, gas_amount: u64)
    ensures
        instance.charged_externally(gas_amount).gas_verdict() is Ok ==> instance.charged_externally(
            gas_amount,
        ).gas_total() < instance.gas_limit,
        instance.charged(gas_amount).gas_verdict() is Ok ==> instance.charged(
            gas_amount,
        ).gas_total() < instance.gas_limit,
{
}

} // verus!
