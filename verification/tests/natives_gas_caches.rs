use std::collections::VecDeque;

use vm_runtime::data_cache::BlockDataCache;
use vm_runtime::gas::{CostTable, GasAlgebra, GasUnits};
use vm_runtime::module_cache::{FunctionDef, Instr, Module, ModuleCache, ModuleId};
use vm_runtime::natives::{native_address_to_bytes, native_bytearray_concat, native_u64_to_bytes};
use vm_runtime::status::StatusCode;
use vm_runtime::types::{AccessPath, AccountAddress, Identifier, Value, WriteOp};

fn addr(fill: u8) -> AccountAddress {
    AccountAddress::new(vec![fill; 32]).unwrap()
}

fn table(gas_per_unit: u64) -> CostTable {
    CostTable {
        push_cost: 1,
        pop_cost: 1,
        read_cost: 1,
        write_cost: 1,
        call_cost: 1,
        abort_cost: 1,
        gas_per_unit,
    }
}

#[test]
fn concat_yields_concatenation_with_cost() {
    let mut args: VecDeque<Value> = VecDeque::new();
    args.push_back(Value::ByteArray(vec![0x01, 0x02]));
    args.push_back(Value::ByteArray(vec![0x03]));
    let res = native_bytearray_concat(args).unwrap();
    assert_eq!(res.cost, 3);
    assert_eq!(res.return_values, vec![Value::ByteArray(vec![0x01, 0x02, 0x03])]);
}

#[test]
fn concat_keeps_argument_order() {
    let mut args: VecDeque<Value> = VecDeque::new();
    args.push_back(Value::ByteArray(vec![9]));
    args.push_back(Value::ByteArray(vec![7]));
    let res = native_bytearray_concat(args).unwrap();
    assert_eq!(res.return_values, vec![Value::ByteArray(vec![9, 7])]);
}

#[test]
fn concat_wrong_arity_is_internal_error() {
    let mut one: VecDeque<Value> = VecDeque::new();
    one.push_back(Value::ByteArray(vec![1]));
    let err = native_bytearray_concat(one).unwrap_err();
    assert_eq!(err.major, StatusCode::Unreachable);

    let mut three: VecDeque<Value> = VecDeque::new();
    three.push_back(Value::ByteArray(vec![1]));
    three.push_back(Value::ByteArray(vec![2]));
    three.push_back(Value::ByteArray(vec![3]));
    let err = native_bytearray_concat(three).unwrap_err();
    assert_eq!(err.major, StatusCode::Unreachable);
}

#[test]
fn concat_wrong_type_is_internal_error() {
    let mut args: VecDeque<Value> = VecDeque::new();
    args.push_back(Value::U64(1));
    args.push_back(Value::ByteArray(vec![2]));
    let err = native_bytearray_concat(args).unwrap_err();
    assert_eq!(err.major, StatusCode::Unreachable);
}

#[test]
fn address_to_bytes_is_deterministic() {
    let bytes: Vec<u8> = (0u8..32).collect();
    let a = AccountAddress::new(bytes.clone()).unwrap();
    let mut args1: VecDeque<Value> = VecDeque::new();
    args1.push_back(Value::Address(a.clone()));
    let mut args2: VecDeque<Value> = VecDeque::new();
    args2.push_back(Value::Address(a));
    let r1 = native_address_to_bytes(args1).unwrap();
    let r2 = native_address_to_bytes(args2).unwrap();
    assert_eq!(r1.return_values, vec![Value::ByteArray(bytes)]);
    assert_eq!(r1.return_values, r2.return_values);
    assert_eq!(r1.cost, 32);
    assert_eq!(r2.cost, 32);
}

#[test]
fn u64_to_bytes_is_deterministic_little_endian() {
    let mut args1: VecDeque<Value> = VecDeque::new();
    args1.push_back(Value::U64(0x0102030405060708));
    let mut args2: VecDeque<Value> = VecDeque::new();
    args2.push_back(Value::U64(0x0102030405060708));
    let r1 = native_u64_to_bytes(args1).unwrap();
    let r2 = native_u64_to_bytes(args2).unwrap();
    let expect = vec![0x08, 0x07, 0x06, 0x05, 0x04, 0x03, 0x02, 0x01];
    assert_eq!(r1.return_values, vec![Value::ByteArray(expect)]);
    assert_eq!(r1.return_values, r2.return_values);
    assert_eq!(r1.cost, 8);
    assert_eq!(r2.cost, 8);
}

#[test]
fn u64_to_bytes_wrong_type_is_internal_error() {
    let mut args: VecDeque<Value> = VecDeque::new();
    args.push_back(Value::Bool(true));
    let err = native_u64_to_bytes(args).unwrap_err();
    assert_eq!(err.major, StatusCode::Unreachable);
}

#[test]
fn gas_charges_accumulate_and_never_wrap() {
    let mut gas = GasAlgebra::new(table(1), GasUnits::new(10));
    assert!(gas.charge(3).is_ok());
    assert_eq!(gas.remaining().get(), 7);
    assert!(gas.charge(4).is_ok());
    assert_eq!(gas.remaining().get(), 3);
    let err = gas.charge(5).unwrap_err();
    assert_eq!(err.major, StatusCode::OutOfGas);
    assert_eq!(gas.remaining().get(), 3);
    assert!(gas.charge(3).is_ok());
    assert_eq!(gas.remaining().get(), 0);
}

#[test]
fn gas_conversion_uses_the_table() {
    let mut gas = GasAlgebra::new(table(2), GasUnits::new(10));
    assert!(gas.charge(3).is_ok());
    assert_eq!(gas.remaining().get(), 4);
}

#[test]
fn gas_overflowing_charge_fails_cleanly() {
    let mut gas = GasAlgebra::new(table(u64::MAX), GasUnits::new(u64::MAX));
    let err = gas.charge(2).unwrap_err();
    assert_eq!(err.major, StatusCode::OutOfGas);
    assert_eq!(gas.remaining().get(), u64::MAX);
}

#[test]
fn zero_table_charges_nothing() {
    let mut gas = GasAlgebra::new(CostTable::zero(), GasUnits::new(5));
    assert!(gas.charge(u64::MAX).is_ok());
    assert_eq!(gas.remaining().get(), 5);
}

fn sample_module() -> Module {
    Module {
        address: addr(1),
        name: Identifier::new(b"Sample".to_vec()),
        functions: vec![FunctionDef {
            name: Identifier::new(b"noop".to_vec()),
            code: vec![Instr::PushU64(1), Instr::Pop],
        }],
    }
}

#[test]
fn resolving_twice_yields_the_same_module() {
    let mut cache = ModuleCache::new(vec![sample_module()]);
    let id = ModuleId { address: addr(1), name: Identifier::new(b"Sample".to_vec()) };
    let first = cache.resolve(&id).unwrap();
    let second = cache.resolve(&id).unwrap();
    assert_eq!(first, second);
    assert_eq!(first, sample_module());
}

#[test]
fn resolving_unknown_identity_is_a_linker_error() {
    let mut cache = ModuleCache::new(vec![sample_module()]);
    let id = ModuleId { address: addr(2), name: Identifier::new(b"Sample".to_vec()) };
    let err = cache.resolve(&id).unwrap_err();
    assert_eq!(err.major, StatusCode::LinkerError);
}

fn path(fill: u8, suffix: &[u8]) -> AccessPath {
    AccessPath { address: addr(fill), path: suffix.to_vec() }
}

#[test]
fn read_your_writes_in_block_cache() {
    let p = path(3, b"balance");
    let store = vec![(p.clone(), Value::U64(1))];
    let mut cache = BlockDataCache::new(store);
    assert_eq!(cache.read(&p), Some(Value::U64(1)));
    cache.write_op(p.clone(), WriteOp::Value(Value::U64(2)));
    assert_eq!(cache.read(&p), Some(Value::U64(2)));
    cache.write_op(p.clone(), WriteOp::Deletion);
    assert_eq!(cache.read(&p), None);
    let q = path(4, b"balance");
    assert_eq!(cache.read(&q), None);
}

#[test]
fn block_cache_falls_back_to_store() {
    let p = path(3, b"a");
    let q = path(3, b"b");
    let mut cache = BlockDataCache::new(vec![(p.clone(), Value::U64(7))]);
    cache.write_op(q.clone(), WriteOp::Value(Value::U64(9)));
    assert_eq!(cache.read(&p), Some(Value::U64(7)));
    assert_eq!(cache.read(&q), Some(Value::U64(9)));
}

#[test]
fn pushed_write_set_is_visible_to_later_reads() {
    let p = path(5, b"x");
    let mut cache = BlockDataCache::new(vec![]);
    let ws = vec![(p.clone(), WriteOp::Value(Value::U64(11)))];
    cache.push_write_set(&ws);
    assert_eq!(cache.read(&p), Some(Value::U64(11)));
}
