//! The block-metadata prologue: the first, system-authored
//! pseudo-transaction of a block. It runs through the same execution and
//! caching machinery as user transactions, but with the largest possible
//! gas budget and the zero cost table, so it can never run out of gas and
//! is billed nothing.

use vstd::prelude::*;
use crate::block_metadata::{BlockMetadata, decode_spec};
use crate::data_cache::BlockDataCache;
use crate::executor::{
    InterpState, TransactionExecutor, TransactionMetadata, addresses_view, fee_entries_spec,
    lemma_unmetered_run, run,
};
use crate::gas::{CostTable, GasUnits, zero_cost_table};
use crate::natives::values_view;
use crate::module_cache::{ModuleCache, ModuleId, find_function, resolve_model};
use crate::status::{
    StatusCode, TransactionOutput, TransactionStatus, VMStatus, discard_error_output,
};
use crate::types::{
    AccountAddress, AccessPathView, Identifier, Value, ValueView, WriteOpView, core_code_address,
    zero_address_spec,
};

verus! {

/// The name of the system module that holds the prologue entry point.
pub open spec fn libra_system_name_spec() -> Seq<u8> {
    seq![0x4cu8, 0x69u8, 0x62u8, 0x72u8, 0x61u8, 0x53u8, 0x79u8, 0x73u8, 0x74u8, 0x65u8, 0x6du8]
}

/// The name of the well-known prologue entry point.
pub open spec fn block_prologue_name_spec() -> Seq<u8> {
    seq![
        0x62u8,
        0x6cu8,
        0x6fu8,
        0x63u8,
        0x6bu8,
        0x5fu8,
        0x70u8,
        0x72u8,
        0x6fu8,
        0x6cu8,
        0x6fu8,
        0x67u8,
        0x75u8,
        0x65u8,
    ]
}

/// The identity of the system module, under the all-zero system address.
pub fn libra_system_module_id() -> (r: ModuleId)
    ensures
        r@.address == zero_address_spec(),
        r@.name == libra_system_name_spec(),
{
    let mut name: Vec<u8> = Vec::new();
    name.push(0x4c);
    name.push(0x69);
    name.push(0x62);
    name.push(0x72);
    name.push(0x61);
    name.push(0x53);
    name.push(0x79);
    name.push(0x73);
    name.push(0x74);
    name.push(0x65);
    name.push(0x6d);
    proof {
        assert(name@ =~= libra_system_name_spec());
    }
    ModuleId { address: core_code_address(), name: Identifier::new(name) }
}

/// The name of the prologue entry point.
pub fn block_prologue_name() -> (r: Identifier)
    ensures
        r@ == block_prologue_name_spec(),
{
    let mut name: Vec<u8> = Vec::new();
    name.push(0x62);
    name.push(0x6c);
    name.push(0x6f);
    name.push(0x63);
    name.push(0x6b);
    name.push(0x5f);
    name.push(0x70);
    name.push(0x72);
    name.push(0x6f);
    name.push(0x6c);
    name.push(0x6f);
    name.push(0x67);
    name.push(0x75);
    name.push(0x65);
    proof {
        assert(name@ =~= block_prologue_name_spec());
    }
    Identifier::new(name)
}

/// The prologue's argument stack for decoded metadata: timestamp,
/// identifier bytes, previous-vote bytes, proposer address, in that fixed
/// order.
pub open spec fn prologue_args_spec(t: (u64, Seq<u8>, Seq<u8>, Seq<u8>)) -> Seq<ValueView> {
    seq![
        ValueView::U64(t.0),
        ValueView::ByteArray(t.1),
        ValueView::ByteArray(t.2),
        ValueView::Address(t.3),
    ]
}

/// Processes the block-metadata pseudo-transaction. A payload that does not
/// decode is discarded as malformed without touching the executor; a
/// decoded payload runs the well-known prologue entry point unmetered, so
/// the output is never out of gas, records zero gas used, and pays no fee;
/// any failure discards every effect.
pub fn process_block_metadata(
    block_metadata: BlockMetadata,
    module_cache: &mut ModuleCache,
    data_cache: &BlockDataCache,
) -> (output: TransactionOutput)
    ensures
        output.gas_used == 0,
        match output.status {
            TransactionStatus::Keep(s) => s == VMStatus {
                major: StatusCode::Executed,
                sub_status: None::<u64>,
            },
            TransactionStatus::Discard(s) => s.major != StatusCode::OutOfGas,
        },
        output.is_discarded() ==> output.write_set@.len() == 0,
        final(module_cache).storage_view() == old(module_cache).storage_view(),
        match decode_spec(block_metadata@) {
            None => output.status == TransactionStatus::Discard(
                VMStatus { major: StatusCode::Malformed, sub_status: None::<u64> },
            ) && final(module_cache).loaded_view() == old(module_cache).loaded_view(),
            Some(t) => ({
                let (l2, res) = resolve_model(
                    old(module_cache).loaded_view(),
                    old(module_cache).storage_view(),
                    zero_address_spec(),
                    libra_system_name_spec(),
                );
                final(module_cache).loaded_view() == l2 && match res {
                    None => output.status == TransactionStatus::Discard(
                        VMStatus { major: StatusCode::LinkerError, sub_status: None::<u64> },
                    ),
                    Some(m) => match find_function(m.functions, block_prologue_name_spec()) {
                        None => output.status == TransactionStatus::Discard(
                            VMStatus { major: StatusCode::LinkerError, sub_status: None::<u64> },
                        ),
                        Some(f) => {
                            let init = InterpState {
                                stack: prologue_args_spec(t),
                                writes: Seq::<(AccessPathView, WriteOpView)>::empty(),
                                gas: u64::MAX,
                            };
                            match run(zero_cost_table(), *data_cache, init, f.code) {
                                Ok(st2) => output.status == TransactionStatus::Keep(
                                    VMStatus { major: StatusCode::Executed, sub_status: None::<
                                        u64,
                                    > },
                                ) && output.write_set_view() == st2.writes,
                                Err(e) => output.status == TransactionStatus::Discard(e.status),
                            }
                        },
                    },
                }
            }),
        },
{
    let ghost bm = block_metadata@;
    let mut txn_data = TransactionMetadata::default();
    txn_data.max_gas_amount = GasUnits::new(u64::MAX);
    let gas_schedule = CostTable::zero();
    let mut txn_executor = TransactionExecutor::new(&gas_schedule, txn_data);
    let result = match block_metadata.into_inner() {
        Ok((id, timestamp, previous_vote, proposer)) => {
            let mut args: Vec<Value> = Vec::new();
            args.push(Value::U64(timestamp));
            args.push(Value::ByteArray(id));
            args.push(Value::ByteArray(previous_vote));
            args.push(Value::Address(proposer));
            proof {
                let t = decode_spec(bm)->Some_0;
                assert(values_view(args@) =~= prologue_args_spec(t));
            }
            let module_id = libra_system_module_id();
            let name = block_prologue_name();
            txn_executor.execute_function(module_cache, data_cache, &module_id, &name, args)
        },
        Err(e) => Err(e),
    };
    proof {
        if decode_spec(bm) is Some {
            let t = decode_spec(bm)->Some_0;
            let (l2, res) = resolve_model(
                old(module_cache).loaded_view(),
                old(module_cache).storage_view(),
                zero_address_spec(),
                libra_system_name_spec(),
            );
            match res {
                Some(m) => {
                    match find_function(m.functions, block_prologue_name_spec()) {
                        Some(f) => {
                            let init = InterpState {
                                stack: prologue_args_spec(t),
                                writes: Seq::<(AccessPathView, WriteOpView)>::empty(),
                                gas: u64::MAX,
                            };
                            lemma_unmetered_run(zero_cost_table(), *data_cache, init, f.code);
                        },
                        None => {},
                    }
                },
                None => {},
            }
        }
    }
    match result {
        Ok(()) => {
            let output = txn_executor.transaction_cleanup(Vec::new());
            proof {
                assert(addresses_view(Seq::<AccountAddress>::empty())
                    =~= Seq::<Seq<u8>>::empty());
                assert(fee_entries_spec(Seq::<Seq<u8>>::empty(), 0)
                    =~= Seq::<(AccessPathView, WriteOpView)>::empty());
            }
            output
        },
        Err(err) => discard_error_output(err),
    }
}

} // verus!
