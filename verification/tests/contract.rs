use enclave_core::contract::ContractInstance;
use enclave_core::contract::ExportValue;
use enclave_core::contract::ReadEvent;
use enclave_core::contract::ReadStep;
use enclave_core::contract::StoreEvent;
use enclave_core::contract::StoreStep;
use enclave_core::errors::DbError;
use enclave_core::errors::InterpreterError;
use enclave_core::errors::WasmEngineError;

// Lays a region at `at`: buffer address, capacity and length, then copies
// `content` to the buffer's address.
fn put_region(memory: &mut Vec<u8>, at: usize, address: u32, capacity: u32, content: &[u8]) {
    memory[at..at + 4].copy_from_slice(&address.to_le_bytes());
    memory[at + 4..at + 8].copy_from_slice(&capacity.to_le_bytes());
    memory[at + 8..at + 12].copy_from_slice(&(content.len() as u32).to_le_bytes());
    let start = address as usize;
    memory[start..start + content.len()].copy_from_slice(content);
}

fn instance_with(memory: Vec<u8>, gas_limit: u64, key_byte: u8) -> ContractInstance {
    ContractInstance::new(memory, gas_limit, [key_byte; 64])
}

fn blank_instance(gas_limit: u64) -> ContractInstance {
    instance_with(vec![0u8; 256], gas_limit, 1)
}

#[test]
fn new_instance_has_used_no_gas() {
    let instance = instance_with(vec![1, 2, 3], 500, 9);
    assert_eq!(instance.memory, vec![1, 2, 3]);
    assert_eq!(instance.gas_limit, 500);
    assert_eq!(instance.gas_used, 0);
    assert_eq!(instance.gas_used_externally, 0);
    assert_eq!(instance.contract_key, [9u8; 64]);
    assert!(!instance.is_gas_depleted());
    assert_eq!(instance.check_gas_usage(), Ok(()));
}

#[test]
fn charges_under_the_limit_are_accepted() {
    let mut instance = blank_instance(100);
    assert_eq!(instance.use_gas(40), Ok(()));
    assert_eq!(instance.use_gas_externally(59), Ok(()));
    assert_eq!(instance.gas_used, 40);
    assert_eq!(instance.gas_used_externally, 59);
    assert!(!instance.is_gas_depleted());
}

#[test]
fn charge_that_reaches_the_limit_is_out_of_gas() {
    let mut instance = blank_instance(100);
    assert_eq!(instance.use_gas_externally(60), Ok(()));
    assert_eq!(instance.use_gas_externally(60), Err(WasmEngineError::OutOfGas));
    assert_eq!(instance.gas_used_externally, 120);
    assert!(instance.is_gas_depleted());

    let mut exact = blank_instance(100);
    assert_eq!(exact.use_gas(99), Ok(()));
    assert_eq!(exact.use_gas_externally(1), Err(WasmEngineError::OutOfGas));
    assert_eq!(exact.gas_used + exact.gas_used_externally, 100);
}

#[test]
fn either_account_can_tip_the_limit() {
    let mut instance = blank_instance(100);
    assert_eq!(instance.use_gas_externally(70), Ok(()));
    assert_eq!(instance.use_gas(30), Err(WasmEngineError::OutOfGas));
    assert_eq!(instance.check_gas_usage(), Err(WasmEngineError::OutOfGas));
}

#[test]
fn gas_counters_saturate() {
    let mut instance = blank_instance(u64::MAX);
    assert_eq!(instance.use_gas(u64::MAX - 1), Ok(()));
    assert_eq!(instance.use_gas(5), Err(WasmEngineError::OutOfGas));
    assert_eq!(instance.gas_used, u64::MAX);
    let mut both = blank_instance(u64::MAX);
    assert_eq!(both.use_gas(u64::MAX - 1), Ok(()));
    assert_eq!(both.use_gas_externally(u64::MAX - 1), Err(WasmEngineError::OutOfGas));
    assert_eq!(both.gas_used_externally, u64::MAX - 1);
}

#[test]
fn billed_gas_is_the_sum_of_both_accounts() {
    let mut instance = blank_instance(1000);
    assert_eq!(instance.gas_used_total(), 0);
    assert_eq!(instance.use_gas(40), Ok(()));
    assert_eq!(instance.use_gas_externally(2), Ok(()));
    assert_eq!(instance.gas_used_total(), 42);
    let mut full = blank_instance(u64::MAX);
    assert_eq!(full.use_gas(u64::MAX - 1), Ok(()));
    assert_eq!(full.use_gas_externally(7), Err(WasmEngineError::OutOfGas));
    assert_eq!(full.gas_used_total(), u64::MAX);
}

#[test]
fn zero_limit_is_depleted_from_the_start() {
    let instance = blank_instance(0);
    assert!(instance.is_gas_depleted());
}

#[test]
fn gas_host_function_charges_interpreter_account() {
    let mut instance = blank_instance(1000);
    assert_eq!(instance.gas_index(300), Ok(None));
    assert_eq!(instance.gas_used, 300);
    assert_eq!(instance.gas_used_externally, 0);
    assert_eq!(instance.gas_index(700), Err(WasmEngineError::OutOfGas));
    assert_eq!(instance.gas_used, 1000);
}

#[test]
fn negative_gas_amount_is_sign_extended() {
    let mut instance = blank_instance(1000);
    assert_eq!(instance.gas_index(-1), Err(WasmEngineError::OutOfGas));
    assert_eq!(instance.gas_used, u64::MAX);
    let mut other = blank_instance(1000);
    assert_eq!(other.gas_index(i32::MIN), Err(WasmEngineError::OutOfGas));
    assert_eq!(other.gas_used, 0xffff_ffff_8000_0000);
}

#[test]
fn query_chain_is_not_implemented() {
    let mut instance = blank_instance(1000);
    assert_eq!(instance.query_chain_index(0), Err(WasmEngineError::NotImplemented));
    assert_eq!(instance.query_chain_index(-7), Err(WasmEngineError::NotImplemented));
    assert_eq!(instance.gas_used, 0);
}

#[test]
fn allocate_accepts_only_a_32_bit_value() {
    let instance = blank_instance(10);
    assert_eq!(instance.allocate(Ok(Some(ExportValue::I32(64)))), Ok(64));
    assert_eq!(instance.allocate(Ok(Some(ExportValue::I32(-1)))), Ok(u32::MAX));
    assert_eq!(instance.allocate(Ok(Some(ExportValue::Other))), Err(InterpreterError::Value));
    assert_eq!(instance.allocate(Ok(None)), Err(InterpreterError::Value));
    assert_eq!(instance.allocate(Err(InterpreterError::Trap)), Err(InterpreterError::Trap));
}

#[test]
fn allocation_len_is_the_buffer_length() {
    assert_eq!(ContractInstance::allocation_len(0), Some(0));
    assert_eq!(ContractInstance::allocation_len(4096), Some(4096));
    assert_eq!(ContractInstance::allocation_len(u32::MAX as usize), Some(u32::MAX));
    assert_eq!(ContractInstance::allocation_len(u32::MAX as usize + 1), None);
}

#[test]
fn write_to_memory_uses_the_allocated_region() {
    let mut instance = blank_instance(10);
    put_region(&mut instance.memory, 32, 128, 8, &[]);
    assert_eq!(instance.write_to_memory(&[4, 5, 6], Ok(Some(ExportValue::I32(32)))), Ok(32));
    assert_eq!(instance.extract_vector(32), Ok(vec![4, 5, 6]));
    assert_eq!(&instance.memory[128..131], &[4, 5, 6]);
}

#[test]
fn write_to_memory_fails_without_a_region() {
    let mut instance = blank_instance(10);
    let before = instance.memory.clone();
    assert_eq!(
        instance.write_to_memory(&[4, 5, 6], Ok(Some(ExportValue::Other))),
        Err(InterpreterError::Value)
    );
    assert_eq!(
        instance.write_to_memory(&[4, 5, 6], Err(InterpreterError::Trap)),
        Err(InterpreterError::Trap)
    );
    assert_eq!(instance.memory, before);
}

#[test]
fn write_beyond_capacity_never_succeeds() {
    let mut instance = blank_instance(10);
    put_region(&mut instance.memory, 32, 128, 2, &[]);
    let before = instance.memory.clone();
    assert_eq!(
        instance.write_to_allocated_memory(&[4, 5, 6], 32),
        Err(InterpreterError::Memory)
    );
    assert_eq!(instance.memory, before);
}

#[test]
fn storage_key_is_scoped_by_contract_key() {
    let mut memory = vec![0u8; 256];
    put_region(&mut memory, 16, 64, 8, b"count");
    let first = instance_with(memory.clone(), 100, 1);
    let second = instance_with(memory, 100, 2);
    let a = first.storage_key(16).unwrap();
    let b = second.storage_key(16).unwrap();
    assert_eq!(a.key, b"count".to_vec());
    assert_eq!(b.key, b"count".to_vec());
    assert_eq!(a.contract_key, [1u8; 64]);
    assert_eq!(b.contract_key, [2u8; 64]);
    assert_ne!(a.contract_key, b.contract_key);
}

#[test]
fn contracts_with_different_keys_do_not_see_each_other() {
    // A stand-in for the storage service: entries are kept under the scoped
    // key that the host functions hand out.
    let mut store: Vec<([u8; 64], Vec<u8>, Vec<u8>)> = Vec::new();
    let mut memory = vec![0u8; 256];
    put_region(&mut memory, 16, 64, 8, b"count");
    put_region(&mut memory, 32, 80, 8, b"one");
    let mut first = instance_with(memory.clone(), 1000, 1);
    put_region(&mut memory, 32, 80, 8, b"two");
    let mut second = instance_with(memory, 1000, 2);
    for instance in [&mut first, &mut second] {
        match instance.write_db_index(16, 32, StoreEvent::Called) {
            Ok(StoreStep::Write(key, value)) => store.push((key.contract_key, key.key, value)),
            other => panic!("unexpected step {:?}", other),
        }
        assert!(matches!(
            instance.write_db_index(16, 32, StoreEvent::Answered(Ok(10))),
            Ok(StoreStep::Return(0))
        ));
    }
    let lookup = |instance: &mut ContractInstance| match instance.read_db_index(16, ReadEvent::Called)
    {
        Ok(ReadStep::Fetch(key)) => store
            .iter()
            .find(|(scope, raw, _)| *scope == key.contract_key && *raw == key.key)
            .map(|(_, _, value)| value.clone()),
        other => panic!("unexpected step {:?}", other),
    };
    assert_eq!(lookup(&mut first), Some(b"one".to_vec()));
    assert_eq!(lookup(&mut second), Some(b"two".to_vec()));
}

#[test]
fn read_db_asks_for_the_key_in_memory() {
    let mut instance = blank_instance(100);
    put_region(&mut instance.memory, 16, 64, 8, b"abc");
    match instance.read_db_index(16, ReadEvent::Called) {
        Ok(ReadStep::Fetch(key)) => {
            assert_eq!(key.key, b"abc".to_vec());
            assert_eq!(key.contract_key, [1u8; 64]);
        }
        other => panic!("unexpected step {:?}", other),
    }
    assert_eq!(instance.gas_used_externally, 0);
}

#[test]
fn read_db_with_unreadable_key_is_a_memory_read_error() {
    let mut instance = blank_instance(100);
    put_region(&mut instance.memory, 16, 64, 8, b"abc");
    instance.memory[16..20].copy_from_slice(&255u32.to_le_bytes());
    assert!(matches!(
        instance.read_db_index(16, ReadEvent::Called),
        Err(WasmEngineError::MemoryReadError)
    ));
    assert!(matches!(
        instance.read_db_index(250, ReadEvent::Called),
        Err(WasmEngineError::MemoryReadError)
    ));
    assert!(matches!(
        instance.read_db_index(-1, ReadEvent::Called),
        Err(WasmEngineError::MemoryReadError)
    ));
}

#[test]
fn read_db_of_missing_key_returns_zero_and_charges() {
    let mut instance = blank_instance(100);
    assert!(matches!(
        instance.read_db_index(16, ReadEvent::Answered(Ok((None, 30)))),
        Ok(ReadStep::Return(0))
    ));
    assert_eq!(instance.gas_used_externally, 30);
}

#[test]
fn read_db_of_present_key_asks_for_space() {
    let mut instance = blank_instance(100);
    match instance.read_db_index(16, ReadEvent::Answered(Ok((Some(vec![1, 2, 3, 4, 5]), 30)))) {
        Ok(ReadStep::Allocate { len, value }) => {
            assert_eq!(len, 5);
            assert_eq!(value, vec![1, 2, 3, 4, 5]);
        }
        other => panic!("unexpected step {:?}", other),
    }
    assert_eq!(instance.gas_used_externally, 30);
}

#[test]
fn read_db_writes_value_into_allocated_region() {
    let mut instance = blank_instance(100);
    put_region(&mut instance.memory, 32, 128, 8, &[]);
    let event =
        ReadEvent::Allocated { value: vec![9, 8, 7], returned: Ok(Some(ExportValue::I32(32))) };
    assert!(matches!(instance.read_db_index(16, event), Ok(ReadStep::Return(32))));
    assert_eq!(instance.extract_vector(32), Ok(vec![9, 8, 7]));
}

#[test]
fn read_db_allocation_failures_are_allocation_errors() {
    let mut instance = blank_instance(100);
    put_region(&mut instance.memory, 32, 128, 2, &[]);
    let too_small =
        ReadEvent::Allocated { value: vec![9, 8, 7], returned: Ok(Some(ExportValue::I32(32))) };
    assert!(matches!(
        instance.read_db_index(16, too_small),
        Err(WasmEngineError::MemoryAllocationError)
    ));
    let trapped = ReadEvent::Allocated { value: vec![9], returned: Err(InterpreterError::Trap) };
    assert!(matches!(
        instance.read_db_index(16, trapped),
        Err(WasmEngineError::MemoryAllocationError)
    ));
    let no_value = ReadEvent::Allocated { value: vec![9], returned: Ok(None) };
    assert!(matches!(
        instance.read_db_index(16, no_value),
        Err(WasmEngineError::MemoryAllocationError)
    ));
}

#[test]
fn read_db_failure_of_storage_is_passed_on() {
    let mut instance = blank_instance(100);
    let failed = ReadEvent::Answered(Err(WasmEngineError::DbError(DbError::FailedRead)));
    assert!(matches!(
        instance.read_db_index(16, failed),
        Err(WasmEngineError::DbError(DbError::FailedRead))
    ));
    assert_eq!(instance.gas_used_externally, 0);
}

#[test]
fn read_db_runs_out_of_gas_on_the_crossing_charge() {
    let mut instance = blank_instance(100);
    assert!(matches!(
        instance.read_db_index(16, ReadEvent::Answered(Ok((None, 60)))),
        Ok(ReadStep::Return(0))
    ));
    assert!(matches!(
        instance.read_db_index(16, ReadEvent::Answered(Ok((Some(vec![1]), 60)))),
        Err(WasmEngineError::OutOfGas)
    ));
    assert_eq!(instance.gas_used_externally, 120);
}

#[test]
fn write_db_asks_for_key_and_value() {
    let mut instance = blank_instance(100);
    put_region(&mut instance.memory, 16, 64, 8, b"key");
    put_region(&mut instance.memory, 32, 80, 8, b"value");
    match instance.write_db_index(16, 32, StoreEvent::Called) {
        Ok(StoreStep::Write(key, value)) => {
            assert_eq!(key.key, b"key".to_vec());
            assert_eq!(key.contract_key, [1u8; 64]);
            assert_eq!(value, b"value".to_vec());
        }
        other => panic!("unexpected step {:?}", other),
    }
    assert!(matches!(
        instance.write_db_index(16, 250, StoreEvent::Called),
        Err(WasmEngineError::MemoryReadError)
    ));
    assert!(matches!(
        instance.write_db_index(250, 32, StoreEvent::Called),
        Err(WasmEngineError::MemoryReadError)
    ));
}

#[test]
fn write_db_charges_external_gas() {
    let mut instance = blank_instance(100);
    assert!(matches!(
        instance.write_db_index(16, 32, StoreEvent::Answered(Ok(99))),
        Ok(StoreStep::Return(0))
    ));
    assert_eq!(instance.gas_used_externally, 99);
    assert_eq!(instance.gas_used, 0);
    assert!(matches!(
        instance.write_db_index(16, 32, StoreEvent::Answered(Ok(1))),
        Err(WasmEngineError::OutOfGas)
    ));
    let failed = StoreEvent::Answered(Err(WasmEngineError::DbError(DbError::FailedWrite)));
    assert!(matches!(
        instance.write_db_index(16, 32, failed),
        Err(WasmEngineError::DbError(DbError::FailedWrite))
    ));
    assert_eq!(instance.gas_used_externally, 100);
}

#[test]
fn remove_db_asks_for_key_and_charges() {
    let mut instance = blank_instance(100);
    put_region(&mut instance.memory, 16, 64, 8, b"gone");
    match instance.remove_db_index(16, StoreEvent::Called) {
        Ok(StoreStep::Remove(key)) => {
            assert_eq!(key.key, b"gone".to_vec());
            assert_eq!(key.contract_key, [1u8; 64]);
        }
        other => panic!("unexpected step {:?}", other),
    }
    assert!(matches!(
        instance.remove_db_index(16, StoreEvent::Answered(Ok(25))),
        Ok(StoreStep::Return(0))
    ));
    assert_eq!(instance.gas_used_externally, 25);
    let failed = StoreEvent::Answered(Err(WasmEngineError::DbError(DbError::FailedRemove)));
    assert!(matches!(
        instance.remove_db_index(16, failed),
        Err(WasmEngineError::DbError(DbError::FailedRemove))
    ));
    assert!(matches!(
        instance.remove_db_index(250, StoreEvent::Called),
        Err(WasmEngineError::MemoryReadError)
    ));
}

#[test]
fn charge_storage_passes_failure_without_charging() {
    let mut instance = blank_instance(100);
    assert!(matches!(
        instance.charge_storage(Err(WasmEngineError::FailedOcall)),
        Err(WasmEngineError::FailedOcall)
    ));
    assert_eq!(instance.gas_used_externally, 0);
    assert!(matches!(instance.charge_storage(Ok(5)), Ok(StoreStep::Return(0))));
    assert_eq!(instance.gas_used_externally, 5);
}

#[test]
fn canonicalize_host_function_writes_canonical_bytes() {
    let mut instance = blank_instance(100);
    let text = b" secret1qypqxpq9qcrsszg2pvxq6rs0zqg3yyc5a8chmq ";
    put_region(&mut instance.memory, 16, 64, 64, text);
    put_region(&mut instance.memory, 32, 160, 32, &[]);
    assert_eq!(instance.canonicalize_address_index(16, 32), Ok(Some(0)));
    assert_eq!(instance.extract_vector(32), Ok((1u8..=20).collect::<Vec<u8>>()));
    assert_eq!(instance.gas_used, 0);
    assert_eq!(instance.gas_used_externally, 0);
}

#[test]
fn canonicalize_host_function_statuses() {
    let cases: Vec<(&[u8], i32)> = vec![
        (&[0xff, 0xfe], -1),
        (b"secret1qypqxpq9qcrsszg2pvxq6rs0zqg3yyc5a8chmp", -2),
        (b"cosmos1qypqxpq9qcrsszg2pvxq6rs0zqg3yyc5lzv7xu", -3),
        (b"secret1ll7j8ars", -4),
    ];
    for (text, status) in cases {
        let mut instance = blank_instance(100);
        put_region(&mut instance.memory, 16, 64, 64, text);
        put_region(&mut instance.memory, 32, 160, 32, &[]);
        let before = instance.memory.clone();
        assert_eq!(instance.canonicalize_address_index(16, 32), Ok(Some(status)));
        assert_eq!(instance.memory, before);
    }
}

#[test]
fn canonicalize_host_function_hard_failures() {
    let mut instance = blank_instance(100);
    put_region(&mut instance.memory, 16, 64, 64, b"  ");
    put_region(&mut instance.memory, 32, 160, 32, &[]);
    assert_eq!(instance.canonicalize_address_index(16, 32), Err(WasmEngineError::InputEmpty));
    assert_eq!(
        instance.canonicalize_address_index(250, 32),
        Err(WasmEngineError::MemoryReadError)
    );
    put_region(&mut instance.memory, 16, 64, 64, b"secret1qypqxpq9qcrsszg2pvxq6rs0zqg3yyc5a8chmq");
    put_region(&mut instance.memory, 32, 160, 19, &[]);
    let before = instance.memory.clone();
    assert_eq!(
        instance.canonicalize_address_index(16, 32),
        Err(WasmEngineError::MemoryWriteError)
    );
    assert_eq!(instance.memory, before);
}

#[test]
fn humanize_host_function_writes_text() {
    let mut instance = blank_instance(100);
    let canonical: Vec<u8> = (1u8..=20).collect();
    put_region(&mut instance.memory, 16, 64, 32, &canonical);
    put_region(&mut instance.memory, 32, 160, 64, &[]);
    assert_eq!(instance.humanize_address_index(16, 32), Ok(Some(0)));
    assert_eq!(
        instance.extract_vector(32),
        Ok(b"secret1qypqxpq9qcrsszg2pvxq6rs0zqg3yyc5a8chmq".to_vec())
    );
}

#[test]
fn humanize_host_function_hard_failures() {
    let mut instance = blank_instance(100);
    let canonical: Vec<u8> = (1u8..=20).collect();
    put_region(&mut instance.memory, 16, 64, 32, &canonical);
    put_region(&mut instance.memory, 32, 160, 44, &[]);
    let before = instance.memory.clone();
    assert_eq!(
        instance.humanize_address_index(16, 32),
        Err(WasmEngineError::MemoryWriteError)
    );
    assert_eq!(instance.memory, before);
    assert_eq!(instance.humanize_address_index(250, 32), Err(WasmEngineError::MemoryReadError));
}

#[test]
fn address_host_functions_round_trip() {
    let mut instance = blank_instance(100);
    put_region(&mut instance.memory, 0, 64, 64, b"secret1qypqxpq9qcrsszg2pvxq6rs0zqg3yyc5a8chmq");
    put_region(&mut instance.memory, 16, 128, 32, &[]);
    put_region(&mut instance.memory, 32, 192, 64, &[]);
    assert_eq!(instance.canonicalize_address_index(0, 16), Ok(Some(0)));
    assert_eq!(instance.humanize_address_index(16, 32), Ok(Some(0)));
    assert_eq!(instance.extract_vector(32), instance.extract_vector(0));
}
