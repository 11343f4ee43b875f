use vm_runtime::block_metadata::{BlockMetadata, encode_block_metadata};
use vm_runtime::bytes::u64_to_le_bytes;
use vm_runtime::data_cache::BlockDataCache;
use vm_runtime::executor::{TransactionExecutor, TransactionMetadata};
use vm_runtime::gas::{CostTable, GasUnits};
use vm_runtime::module_cache::{FunctionDef, Instr, Module, ModuleCache, ModuleId};
use vm_runtime::natives::NativeFunction;
use vm_runtime::status::{StatusCode, TransactionStatus, discard_error_output};
use vm_runtime::system_txn::process_block_metadata;
use vm_runtime::types::{AccessPath, AccountAddress, Identifier, Value, WriteOp};

fn addr(fill: u8) -> AccountAddress {
    AccountAddress::new(vec![fill; 32]).unwrap()
}

fn path(fill: u8, suffix: &[u8]) -> AccessPath {
    AccessPath { address: addr(fill), path: suffix.to_vec() }
}

fn table() -> CostTable {
    CostTable {
        push_cost: 1,
        pop_cost: 1,
        read_cost: 1,
        write_cost: 1,
        call_cost: 1,
        abort_cost: 1,
        gas_per_unit: 1,
    }
}

fn module_with(body: Vec<Instr>) -> (Module, ModuleId, Identifier) {
    let module = Module {
        address: addr(1),
        name: Identifier::new(b"Account".to_vec()),
        functions: vec![FunctionDef { name: Identifier::new(b"entry".to_vec()), code: body }],
    };
    let id = ModuleId { address: addr(1), name: Identifier::new(b"Account".to_vec()) };
    (module, id, Identifier::new(b"entry".to_vec()))
}

fn metadata(budget: u64, price: u64) -> TransactionMetadata {
    let mut md = TransactionMetadata::default();
    md.max_gas_amount = GasUnits::new(budget);
    md.gas_price = price;
    md
}

#[test]
fn execution_buffers_writes_and_charges_gas() {
    let p = path(2, b"counter");
    let (module, id, entry) = module_with(vec![Instr::PushU64(42), Instr::WriteRef(p.clone())]);
    let mut modules = ModuleCache::new(vec![module]);
    let data = BlockDataCache::new(vec![]);
    let schedule = table();
    let mut exec = TransactionExecutor::new(&schedule, metadata(100, 0));
    exec.execute_function(&mut modules, &data, &id, &entry, vec![]).unwrap();
    let out = exec.transaction_cleanup(vec![]);
    assert_eq!(
        out.status,
        TransactionStatus::Keep(vm_runtime::status::VMStatus::new(StatusCode::Executed))
    );
    assert_eq!(out.gas_used, 2);
    assert_eq!(out.write_set, vec![(p, WriteOp::Value(Value::U64(42)))]);
}

#[test]
fn reads_see_the_transactions_own_writes() {
    let p = path(2, b"a");
    let q = path(2, b"b");
    let (module, id, entry) = module_with(vec![
        Instr::PushU64(5),
        Instr::WriteRef(p.clone()),
        Instr::ReadRef(p.clone()),
        Instr::WriteRef(q.clone()),
    ]);
    let mut modules = ModuleCache::new(vec![module]);
    let data = BlockDataCache::new(vec![]);
    let schedule = table();
    let mut exec = TransactionExecutor::new(&schedule, metadata(100, 0));
    exec.execute_function(&mut modules, &data, &id, &entry, vec![]).unwrap();
    let out = exec.transaction_cleanup(vec![]);
    assert_eq!(
        out.write_set,
        vec![
            (p, WriteOp::Value(Value::U64(5))),
            (q, WriteOp::Value(Value::U64(5))),
        ]
    );
}

#[test]
fn native_call_runs_inside_execution() {
    let p = path(2, b"joined");
    let (module, id, entry) = module_with(vec![
        Instr::PushBytes(vec![1, 2]),
        Instr::PushBytes(vec![3]),
        Instr::CallNative(NativeFunction::BytearrayConcat),
        Instr::WriteRef(p.clone()),
    ]);
    let mut modules = ModuleCache::new(vec![module]);
    let data = BlockDataCache::new(vec![]);
    let schedule = table();
    let mut exec = TransactionExecutor::new(&schedule, metadata(100, 0));
    exec.execute_function(&mut modules, &data, &id, &entry, vec![]).unwrap();
    let out = exec.transaction_cleanup(vec![]);
    // two pushes, one dispatch, three bytes of native output, one write
    assert_eq!(out.gas_used, 7);
    assert_eq!(out.write_set, vec![(p, WriteOp::Value(Value::ByteArray(vec![1, 2, 3])))]);
}

#[test]
fn out_of_gas_fails_and_discard_has_empty_write_set() {
    let p = path(2, b"counter");
    let (module, id, entry) = module_with(vec![Instr::PushU64(42), Instr::WriteRef(p)]);
    let mut modules = ModuleCache::new(vec![module]);
    let data = BlockDataCache::new(vec![]);
    let schedule = table();
    let mut exec = TransactionExecutor::new(&schedule, metadata(1, 0));
    let err = exec.execute_function(&mut modules, &data, &id, &entry, vec![]).unwrap_err();
    assert_eq!(err.major, StatusCode::OutOfGas);
    let out = discard_error_output(err);
    assert!(out.write_set.is_empty());
    assert_eq!(out.gas_used, 0);
}

#[test]
fn abort_discards_buffered_effects() {
    let p = path(2, b"partial");
    let (module, id, entry) = module_with(vec![
        Instr::PushU64(1),
        Instr::WriteRef(p),
        Instr::Abort(3),
    ]);
    let mut modules = ModuleCache::new(vec![module]);
    let data = BlockDataCache::new(vec![]);
    let schedule = table();
    let mut exec = TransactionExecutor::new(&schedule, metadata(100, 0));
    let err = exec.execute_function(&mut modules, &data, &id, &entry, vec![]).unwrap_err();
    assert_eq!(err.major, StatusCode::Aborted);
    assert_eq!(err.sub_status, Some(3));
    let out = discard_error_output(err);
    assert!(out.write_set.is_empty());
}

#[test]
fn missing_data_read_fails() {
    let (module, id, entry) = module_with(vec![Instr::ReadRef(path(9, b"absent"))]);
    let mut modules = ModuleCache::new(vec![module]);
    let data = BlockDataCache::new(vec![]);
    let schedule = table();
    let mut exec = TransactionExecutor::new(&schedule, metadata(100, 0));
    let err = exec.execute_function(&mut modules, &data, &id, &entry, vec![]).unwrap_err();
    assert_eq!(err.major, StatusCode::MissingData);
}

#[test]
fn unknown_module_and_function_are_linker_errors() {
    let (module, id, entry) = module_with(vec![]);
    let mut modules = ModuleCache::new(vec![module]);
    let data = BlockDataCache::new(vec![]);
    let schedule = table();
    let mut exec = TransactionExecutor::new(&schedule, metadata(100, 0));
    let missing_module = ModuleId { address: addr(9), name: Identifier::new(b"Nope".to_vec()) };
    let err = exec
        .execute_function(&mut modules, &data, &missing_module, &entry, vec![])
        .unwrap_err();
    assert_eq!(err.major, StatusCode::LinkerError);
    let missing_fn = Identifier::new(b"nope".to_vec());
    let err = exec.execute_function(&mut modules, &data, &id, &missing_fn, vec![]).unwrap_err();
    assert_eq!(err.major, StatusCode::LinkerError);
}

#[test]
fn cleanup_credits_gas_recipients() {
    let (module, id, entry) = module_with(vec![Instr::PushU64(1), Instr::Pop]);
    let mut modules = ModuleCache::new(vec![module]);
    let data = BlockDataCache::new(vec![]);
    let schedule = table();
    let mut exec = TransactionExecutor::new(&schedule, metadata(100, 2));
    exec.execute_function(&mut modules, &data, &id, &entry, vec![]).unwrap();
    let recipient = addr(7);
    let out = exec.transaction_cleanup(vec![recipient.clone()]);
    assert_eq!(out.gas_used, 2);
    assert_eq!(
        out.write_set,
        vec![(
            AccessPath { address: recipient, path: b"gas_fee".to_vec() },
            WriteOp::Value(Value::U64(4)),
        )]
    );
}

fn system_module(body: Vec<Instr>) -> Module {
    Module {
        address: AccountAddress::new(vec![0; 32]).unwrap(),
        name: Identifier::new(b"LibraSystem".to_vec()),
        functions: vec![FunctionDef {
            name: Identifier::new(b"block_prologue".to_vec()),
            code: body,
        }],
    }
}

fn well_formed_blob() -> Vec<u8> {
    encode_block_metadata(&vec![0xaa, 0xbb], 123456, &vec![0xcc], &addr(6))
}

#[test]
fn metadata_blob_roundtrips() {
    let blob = well_formed_blob();
    let (id, ts, votes, proposer) = BlockMetadata::new(blob).into_inner().unwrap();
    assert_eq!(id, vec![0xaa, 0xbb]);
    assert_eq!(ts, 123456);
    assert_eq!(votes, vec![0xcc]);
    assert_eq!(proposer, addr(6));
}

#[test]
fn truncated_or_garbage_blob_is_malformed() {
    let mut blob = well_formed_blob();
    blob.pop();
    let err = BlockMetadata::new(blob).into_inner().unwrap_err();
    assert_eq!(err.major, StatusCode::Malformed);
    let err = BlockMetadata::new(vec![1, 2, 3]).into_inner().unwrap_err();
    assert_eq!(err.major, StatusCode::Malformed);
}

#[test]
fn prologue_succeeds_with_zero_gas() {
    let clock = path(0, b"clock");
    let mut modules = ModuleCache::new(vec![system_module(vec![
        Instr::PushU64(123456),
        Instr::WriteRef(clock.clone()),
    ])]);
    let data = BlockDataCache::new(vec![]);
    let out = process_block_metadata(BlockMetadata::new(well_formed_blob()), &mut modules, &data);
    assert_eq!(
        out.status,
        TransactionStatus::Keep(vm_runtime::status::VMStatus::new(StatusCode::Executed))
    );
    assert_eq!(out.gas_used, 0);
    assert_eq!(out.write_set, vec![(clock, WriteOp::Value(Value::U64(123456)))]);
}

#[test]
fn malformed_prologue_is_discarded_with_zero_gas() {
    let mut modules = ModuleCache::new(vec![system_module(vec![])]);
    let data = BlockDataCache::new(vec![]);
    let out = process_block_metadata(BlockMetadata::new(vec![0xff]), &mut modules, &data);
    assert_eq!(
        out.status,
        TransactionStatus::Discard(vm_runtime::status::VMStatus::new(StatusCode::Malformed))
    );
    assert!(out.write_set.is_empty());
    assert_eq!(out.gas_used, 0);
}

#[test]
fn prologue_is_never_out_of_gas() {
    // a deliberately expensive, terminating body: thousands of instructions
    // and native calls that would exhaust any ordinary metered budget
    let mut body = Vec::new();
    for i in 0..2000u64 {
        body.push(Instr::PushBytes(u64_to_le_bytes(i)));
        body.push(Instr::PushBytes(u64_to_le_bytes(i)));
        body.push(Instr::CallNative(NativeFunction::BytearrayConcat));
        body.push(Instr::Pop);
    }
    let mut modules = ModuleCache::new(vec![system_module(body)]);
    let data = BlockDataCache::new(vec![]);
    let out = process_block_metadata(BlockMetadata::new(well_formed_blob()), &mut modules, &data);
    assert_eq!(
        out.status,
        TransactionStatus::Keep(vm_runtime::status::VMStatus::new(StatusCode::Executed))
    );
    assert_eq!(out.gas_used, 0);
}

#[test]
fn prologue_without_system_module_is_discarded() {
    let mut modules = ModuleCache::new(vec![]);
    let data = BlockDataCache::new(vec![]);
    let out = process_block_metadata(BlockMetadata::new(well_formed_blob()), &mut modules, &data);
    assert_eq!(
        out.status,
        TransactionStatus::Discard(vm_runtime::status::VMStatus::new(StatusCode::LinkerError))
    );
    assert!(out.write_set.is_empty());
    assert_eq!(out.gas_used, 0);
}

#[test]
fn aborting_prologue_is_discarded_without_effects() {
    let p = path(0, b"partial");
    let mut modules = ModuleCache::new(vec![system_module(vec![
        Instr::PushU64(1),
        Instr::WriteRef(p),
        Instr::Abort(7),
    ])]);
    let data = BlockDataCache::new(vec![]);
    let out = process_block_metadata(BlockMetadata::new(well_formed_blob()), &mut modules, &data);
    match out.status {
        TransactionStatus::Discard(s) => {
            assert_eq!(s.major, StatusCode::Aborted);
            assert_eq!(s.sub_status, Some(7));
        }
        _ => panic!("expected a discard"),
    }
    assert!(out.write_set.is_empty());
    assert_eq!(out.gas_used, 0);
}
