//! The transaction executor: runs exactly one transaction's entry function
//! against a module cache and a block data cache, under a transaction's
//! metadata and a cost table, producing either a kept output or a failure
//! that voids every buffered effect.

use vstd::prelude::*;
use crate::data_cache::{BlockDataCache, find_write, lemma_lookup_writes_concat, lookup_writes};
use crate::gas::{CostTable, GasAlgebra, GasUnits, charge_model, lemma_zero_table_charge};
use crate::module_cache::{
    Instr, InstrView, ModuleCache, ModuleId, code_view, find_function, resolve_model,
};
use crate::natives::{dispatch_native, native_apply, native_arity, values_view};
use crate::status::{StatusCode, TransactionOutput, TransactionStatus, VMResult, VMStatus};
use crate::types::{
    AccessPath, AccessPathView, AccountAddress, Value, ValueView, WriteOp, WriteOpView,
    core_code_address, writes_view, zero_address_spec,
};

verus! {

/// Per-transaction execution parameters.
pub struct TransactionMetadata {
    /// The transaction's sender.
    pub sender: AccountAddress,
    /// The gas budget: execution may not cost more.
    pub max_gas_amount: GasUnits,
    /// The price of one gas unit, for the fee.
    pub gas_price: u64,
    /// The sender's sequence number.
    pub sequence_number: u64,
    /// The expiration time of the transaction.
    pub expiration_time: u64,
}

impl Default for TransactionMetadata {
    /// The default metadata: the system address as sender, a fixed budget,
    /// and everything else zero.
    fn default() -> (r: Self)
        ensures
            r.sender@ == zero_address_spec(),
            r.max_gas_amount.0 == 100_000_000,
            r.gas_price == 0,
            r.sequence_number == 0,
            r.expiration_time == 0,
    {
        TransactionMetadata {
            sender: core_code_address(),
            max_gas_amount: GasUnits::new(100_000_000),
            gas_price: 0,
            sequence_number: 0,
            expiration_time: 0,
        }
    }
}

/// The state of the interpreter between two instructions: the value stack,
/// the transaction-local buffered writes, and the remaining gas.
pub struct InterpState {
    pub stack: Seq<ValueView>,
    pub writes: Seq<(AccessPathView, WriteOpView)>,
    pub gas: u64,
}

/// A failed execution: the failing status and the gas remaining at the
/// point of failure.
pub struct InterpErr {
    pub status: VMStatus,
    pub gas: u64,
}

/// The failure of a charge that would exceed the remaining budget.
pub open spec fn out_of_gas_err(gas: u64) -> InterpErr {
    InterpErr {
        status: VMStatus { major: StatusCode::OutOfGas, sub_status: None },
        gas,
    }
}

/// An internal invariant violation: a defect of the trusted pipeline, not
/// user error.
pub open spec fn unreachable_err(gas: u64) -> InterpErr {
    InterpErr {
        status: VMStatus { major: StatusCode::Unreachable, sub_status: None },
        gas,
    }
}

/// What a read during execution observes: the transaction's own buffered
/// writes win over the block data cache.
pub open spec fn txn_read(
    cache: BlockDataCache,
    writes: Seq<(AccessPathView, WriteOpView)>,
    p: AccessPathView,
) -> Option<ValueView> {
    match lookup_writes(writes, p) {
        Some(WriteOpView::Value(v)) => Some(v),
        Some(WriteOpView::Deletion) => None,
        None => cache.lookup(p),
    }
}

/// What one instruction does to an interpreter state: the gas for the
/// instruction is charged first, then the instruction acts on the stack,
/// the buffered writes, or neither; every failure carries the gas remaining
/// when it happened.
pub open spec fn step(
    table: CostTable,
    cache: BlockDataCache,
    st: InterpState,
    i: InstrView,
) -> Result<InterpState, InterpErr> {
    match i {
        InstrView::PushU64(x) => match charge_model(
            table,
            st.gas,
            table.push_cost as nat,
        ) {
            Some(g) => Ok(
                InterpState { stack: st.stack.push(ValueView::U64(x)), writes: st.writes, gas: g },
            ),
            None => Err(out_of_gas_err(st.gas)),
        },
        InstrView::PushBytes(b) => match charge_model(
            table,
            st.gas,
            table.push_cost as nat,
        ) {
            Some(g) => Ok(
                InterpState {
                    stack: st.stack.push(ValueView::ByteArray(b)),
                    writes: st.writes,
                    gas: g,
                },
            ),
            None => Err(out_of_gas_err(st.gas)),
        },
        InstrView::PushAddress(a) => match charge_model(
            table,
            st.gas,
            table.push_cost as nat,
        ) {
            Some(g) => Ok(
                InterpState {
                    stack: st.stack.push(ValueView::Address(a)),
                    writes: st.writes,
                    gas: g,
                },
            ),
            None => Err(out_of_gas_err(st.gas)),
        },
        InstrView::Pop => match charge_model(
            table,
            st.gas,
            table.pop_cost as nat,
        ) {
            Some(g) => if st.stack.len() == 0 {
                Err(unreachable_err(g))
            } else {
                Ok(InterpState { stack: st.stack.drop_last(), writes: st.writes, gas: g })
            },
            None => Err(out_of_gas_err(st.gas)),
        },
        InstrView::CallNative(f) => match charge_model(
            table,
            st.gas,
            table.call_cost as nat,
        ) {
            Some(g1) => if st.stack.len() < native_arity(f) {
                Err(unreachable_err(g1))
            } else {
                match native_apply(
                    f,
                    st.stack.subrange(
                        st.stack.len() - native_arity(f),
                        st.stack.len() as int,
                    ),
                ) {
                    Some(res) => match charge_model(table, g1, res.1) {
                        Some(g2) => Ok(
                            InterpState {
                                stack: st.stack.take(st.stack.len() - native_arity(f)) + res.0,
                                writes: st.writes,
                                gas: g2,
                            },
                        ),
                        None => Err(out_of_gas_err(g1)),
                    },
                    None => Err(unreachable_err(g1)),
                }
            },
            None => Err(out_of_gas_err(st.gas)),
        },
        InstrView::ReadRef(p) => match charge_model(
            table,
            st.gas,
            table.read_cost as nat,
        ) {
            Some(g) => match txn_read(cache, st.writes, p) {
                Some(v) => Ok(
                    InterpState { stack: st.stack.push(v), writes: st.writes, gas: g },
                ),
                None => Err(
                    InterpErr {
                        status: VMStatus { major: StatusCode::MissingData, sub_status: None },
                        gas: g,
                    },
                ),
            },
            None => Err(out_of_gas_err(st.gas)),
        },
        InstrView::WriteRef(p) => match charge_model(
            table,
            st.gas,
            table.write_cost as nat,
        ) {
            Some(g) => if st.stack.len() == 0 {
                Err(unreachable_err(g))
            } else {
                Ok(
                    InterpState {
                        stack: st.stack.drop_last(),
                        writes: st.writes.push((p, WriteOpView::Value(st.stack.last()))),
                        gas: g,
                    },
                )
            },
            None => Err(out_of_gas_err(st.gas)),
        },
        InstrView::DeleteRef(p) => match charge_model(
            table,
            st.gas,
            table.write_cost as nat,
        ) {
            Some(g) => Ok(
                InterpState {
                    stack: st.stack,
                    writes: st.writes.push((p, WriteOpView::Deletion)),
                    gas: g,
                },
            ),
            None => Err(out_of_gas_err(st.gas)),
        },
        InstrView::Abort(c) => match charge_model(
            table,
            st.gas,
            table.abort_cost as nat,
        ) {
            Some(g) => Err(
                InterpErr {
                    status: VMStatus { major: StatusCode::Aborted, sub_status: Some(c) },
                    gas: g,
                },
            ),
            None => Err(out_of_gas_err(st.gas)),
        },
    }
}

/// Runs a function body instruction by instruction from a state; the first
/// failure ends the run.
pub open spec fn run(
    table: CostTable,
    cache: BlockDataCache,
    st: InterpState,
    code: Seq<InstrView>,
) -> Result<InterpState, InterpErr>
    decreases code.len(),
{
    if code.len() == 0 {
        Ok(st)
    } else {
        match step(table, cache, st, code[0]) {
            Ok(st2) => run(table, cache, st2, code.drop_first()),
            Err(e) => Err(e),
        }
    }
}

/// Law: under the zero cost table no run ever fails for want of gas and no
/// run moves the budget — execution under it is bounded by no finite gas
/// limit.
pub proof fn lemma_unmetered_run(
    table: CostTable,
    cache: BlockDataCache,
    st: InterpState,
    code: Seq<InstrView>,
)
    requires
        table.is_zero_spec(),
    ensures
        match run(table, cache, st, code) {
            Ok(st2) => st2.gas == st.gas,
            Err(e) => e.status.major != StatusCode::OutOfGas && e.gas == st.gas,
        },
    decreases code.len(),
{
    assert forall|g: u64, u: nat| charge_model(table, g, u) == Some(g) by {
        lemma_zero_table_charge(table, g, u);
    }
    if code.len() > 0 {
        match step(table, cache, st, code[0]) {
            Ok(st2) => {
                lemma_unmetered_run(table, cache, st2, code.drop_first());
            },
            Err(_) => {},
        }
    }
}

/// The path under a recipient's account that records a gas-fee credit.
pub open spec fn gas_fee_path_spec() -> Seq<u8> {
    seq![0x67u8, 0x61u8, 0x73u8, 0x5fu8, 0x66u8, 0x65u8, 0x65u8]
}

/// The fee path as a byte vector.
pub fn gas_fee_path() -> (r: Vec<u8>)
    ensures
        r@ == gas_fee_path_spec(),
{
    let mut v: Vec<u8> = Vec::new();
    v.push(0x67);
    v.push(0x61);
    v.push(0x73);
    v.push(0x5f);
    v.push(0x66);
    v.push(0x65);
    v.push(0x65);
    proof {
        assert(v@ =~= gas_fee_path_spec());
    }
    v
}

/// The views of a list of addresses.
pub open spec fn addresses_view(s: Seq<AccountAddress>) -> Seq<Seq<u8>> {
    s.map_values(|a: AccountAddress| a@)
}

/// The total fee of a transaction: gas used times gas price, saturating
/// rather than wrapping.
pub open spec fn fee_total_spec(gas_used: u64, price: u64) -> u64 {
    if gas_used * price > u64::MAX {
        u64::MAX
    } else {
        (gas_used * price) as u64
    }
}

/// Each recipient's share of the fee; nothing when there is no recipient.
pub open spec fn fee_share_spec(total: u64, n: nat) -> u64 {
    if n == 0 {
        0
    } else {
        (total as int / n as int) as u64
    }
}

/// The write-set entries that credit each gas recipient with its share.
pub open spec fn fee_entries_spec(recipients: Seq<Seq<u8>>, share: u64) -> Seq<
    (AccessPathView, WriteOpView),
> {
    recipients.map_values(
        |a: Seq<u8>|
            (
                AccessPathView { address: a, path: gas_fee_path_spec() },
                WriteOpView::Value(ValueView::U64(share)),
            ),
    )
}

/// Executes one transaction's entry point, charging gas throughout and
/// buffering its effects until `transaction_cleanup` keeps them or a
/// failure voids them.
pub struct TransactionExecutor {
    gas: GasAlgebra,
    txn_data: TransactionMetadata,
    txn_writes: Vec<(AccessPath, WriteOp)>,
}

impl TransactionExecutor {
    /// The active cost table.
    pub closed spec fn table_spec(self) -> CostTable {
        self.gas.table_spec()
    }

    /// The remaining gas budget.
    pub closed spec fn remaining_gas(self) -> u64 {
        self.gas.remaining_gas()
    }

    /// The transaction's metadata.
    pub closed spec fn metadata_spec(self) -> TransactionMetadata {
        self.txn_data
    }

    /// The writes buffered so far for this transaction.
    pub closed spec fn txn_writes_view(self) -> Seq<(AccessPathView, WriteOpView)> {
        writes_view(self.txn_writes@)
    }

    /// The budget never exceeds the transaction's declared maximum.
    pub open spec fn well_formed(self) -> bool {
        self.remaining_gas() <= self.metadata_spec().max_gas_amount.0
    }

    /// A fresh executor for one transaction: the whole budget left, nothing
    /// buffered.
    pub fn new(gas_schedule: &CostTable, txn_data: TransactionMetadata) -> (r: TransactionExecutor)
        ensures
            r.table_spec() == *gas_schedule,
            r.remaining_gas() == txn_data.max_gas_amount.0,
            r.metadata_spec() == txn_data,
            r.txn_writes_view() == Seq::<(AccessPathView, WriteOpView)>::empty(),
            r.well_formed(),
    {
        let budget = txn_data.max_gas_amount;
        let r = TransactionExecutor {
            gas: GasAlgebra::new(*gas_schedule, budget),
            txn_data,
            txn_writes: Vec::new(),
        };
        proof {
            assert(r.txn_writes_view() =~= Seq::<(AccessPathView, WriteOpView)>::empty());
        }
        r
    }

    /// Resolves the entry function through the module cache and interprets
    /// its body: gas is charged per instruction and per native call, reads
    /// and writes go through the caches, and any runtime failure voids the
    /// whole transaction's buffered effects — no partial write-set survives.
    #[verifier::rlimit(100)]
    pub fn execute_function(
        &mut self,
        module_cache: &mut ModuleCache,
        data_cache: &BlockDataCache,
        module: &ModuleId,
        function_name: &crate::types::Identifier,
        args: Vec<Value>,
    ) -> (r: VMResult<()>)
        ensures
            final(self).table_spec() == old(self).table_spec(),
            final(self).metadata_spec() == old(self).metadata_spec(),
            final(self).remaining_gas() <= old(self).remaining_gas(),
            final(module_cache).storage_view() == old(module_cache).storage_view(),
            ({
                let (l2, res) = resolve_model(
                    old(module_cache).loaded_view(),
                    old(module_cache).storage_view(),
                    module@.address,
                    module@.name,
                );
                final(module_cache).loaded_view() == l2 && match res {
                    None => r == Err::<(), VMStatus>(
                        VMStatus { major: StatusCode::LinkerError, sub_status: None::<u64> },
                    ) && final(self).txn_writes_view() == old(self).txn_writes_view() && final(self).remaining_gas() == old(self).remaining_gas(),
                    Some(m) => match find_function(m.functions, function_name@) {
                        None => r == Err::<(), VMStatus>(
                            VMStatus { major: StatusCode::LinkerError, sub_status: None::<u64> },
                        ) && final(self).txn_writes_view() == old(self).txn_writes_view() && final(self).remaining_gas() == old(self).remaining_gas(),
                        Some(f) => {
                            let init = InterpState {
                                stack: values_view(args@),
                                writes: old(self).txn_writes_view(),
                                gas: old(self).remaining_gas(),
                            };
                            match run(old(self).table_spec(), *data_cache, init, f.code) {
                                Ok(st2) => r is Ok && final(self).txn_writes_view() == st2.writes
                                    && final(self).remaining_gas() == st2.gas,
                                Err(e) => r == Err::<(), VMStatus>(e.status) && final(self).txn_writes_view() == old(self).txn_writes_view() && final(self).remaining_gas() == e.gas,
                            }
                        },
                    },
                }
            }),
    {
        let m = match module_cache.resolve(module) {
            Ok(m) => m,
            Err(e) => {
                return Err(e);
            },
        };
        let fidx = match m.find_function_index(function_name) {
            Some(i) => i,
            None => {
                return Err(VMStatus::new(StatusCode::LinkerError));
            },
        };
        let ghost table = self.gas.table_spec();
        let ghost iw = self.txn_writes_view();
        let ghost argsv = values_view(args@);
        let ghost init = InterpState { stack: argsv, writes: iw, gas: self.gas.remaining_gas() };
        let table_exec = self.gas.cost_table();
        let code: &Vec<Instr> = &m.functions[fidx].code;
        let ghost cv = code_view(code@);
        let mut stack: Vec<Value> = args;
        let mut new_writes: Vec<(AccessPath, WriteOp)> = Vec::new();
        let mut pc: usize = 0;
        proof {
            assert(cv.skip(0) =~= cv);
            assert(iw + writes_view(new_writes@) =~= iw);
        }
        while pc < code.len()
            invariant
                pc <= code@.len(),
                code_view(code@) == cv,
                self.gas.table_spec() == table,
                table_exec == table,
                table == old(self).table_spec(),
                self.txn_writes_view() == iw,
                iw == old(self).txn_writes_view(),
                self.metadata_spec() == old(self).metadata_spec(),
                self.gas.remaining_gas() <= init.gas,
                init == (InterpState {
                    stack: values_view(args@),
                    writes: old(self).txn_writes_view(),
                    gas: old(self).remaining_gas(),
                }),
                module_cache.storage_view() == old(module_cache).storage_view(),
                ({
                    let (l2, res) = resolve_model(
                        old(module_cache).loaded_view(),
                        old(module_cache).storage_view(),
                        module@.address,
                        module@.name,
                    );
                    module_cache.loaded_view() == l2 && res == Some(m@)
                }),
                find_function(m@.functions, function_name@) == Some(
                    m@.functions[fidx as int],
                ),
                fidx < m@.functions.len(),
                cv == m@.functions[fidx as int].code,
                run(table, *data_cache, init, cv) == run(
                    table,
                    *data_cache,
                    InterpState {
                        stack: values_view(stack@),
                        writes: iw + writes_view(new_writes@),
                        gas: self.gas.remaining_gas(),
                    },
                    cv.skip(pc as int),
                ),
            decreases code@.len() - pc,
        {
            let ghost pre = InterpState {
                stack: values_view(stack@),
                writes: iw + writes_view(new_writes@),
                gas: self.gas.remaining_gas(),
            };
            proof {
                assert(cv[pc as int] == code@[pc as int]@);
                assert(cv.skip(pc as int)[0] == cv[pc as int]);
                assert(cv.skip(pc as int).drop_first() =~= cv.skip(pc as int + 1));
            }
            let instr = &code[pc];
            let ghost iv = instr@;
            match instr {
                Instr::PushU64(x) => {
                    match self.gas.charge(table_exec.push_cost) {
                        Ok(()) => {
                            stack.push(Value::U64(*x));
                            proof {
                                assert(values_view(stack@) =~= pre.stack.push(
                                    ValueView::U64(*x),
                                ));
                            }
                        },
                        Err(e) => {
                            proof {
                                assert(run(table, *data_cache, init, cv) == Err::<
                                    InterpState,
                                    InterpErr,
                                >(out_of_gas_err(pre.gas)));
                            }
                            return Err(e);
                        },
                    }
                },
                Instr::PushBytes(b) => {
                    match self.gas.charge(table_exec.push_cost) {
                        Ok(()) => {
                            let c = b.clone();
                            proof {
                                assert(c@ =~= b@);
                            }
                            stack.push(Value::ByteArray(c));
                            proof {
                                assert(values_view(stack@) =~= pre.stack.push(
                                    ValueView::ByteArray(b@),
                                ));
                            }
                        },
                        Err(e) => {
                            proof {
                                assert(run(table, *data_cache, init, cv) == Err::<
                                    InterpState,
                                    InterpErr,
                                >(out_of_gas_err(pre.gas)));
                            }
                            return Err(e);
                        },
                    }
                },
                Instr::PushAddress(a) => {
                    match self.gas.charge(table_exec.push_cost) {
                        Ok(()) => {
                            stack.push(Value::Address(a.clone()));
                            proof {
                                assert(values_view(stack@) =~= pre.stack.push(
                                    ValueView::Address(a@),
                                ));
                            }
                        },
                        Err(e) => {
                            proof {
                                assert(run(table, *data_cache, init, cv) == Err::<
                                    InterpState,
                                    InterpErr,
                                >(out_of_gas_err(pre.gas)));
                            }
                            return Err(e);
                        },
                    }
                },
                Instr::Pop => {
                    match self.gas.charge(table_exec.pop_cost) {
                        Ok(()) => {
                            match stack.pop() {
                                Some(_) => {
                                    proof {
                                        assert(values_view(stack@) =~= pre.stack.drop_last());
                                    }
                                },
                                None => {
                                    proof {
                                        assert(run(table, *data_cache, init, cv) == Err::<
                                            InterpState,
                                            InterpErr,
                                        >(unreachable_err(self.gas.remaining_gas())));
                                    }
                                    return Err(VMStatus::new(StatusCode::Unreachable));
                                },
                            }
                        },
                        Err(e) => {
                            proof {
                                assert(run(table, *data_cache, init, cv) == Err::<
                                    InterpState,
                                    InterpErr,
                                >(out_of_gas_err(pre.gas)));
                            }
                            return Err(e);
                        },
                    }
                },
                Instr::CallNative(nf) => {
                    let f = *nf;
                    match self.gas.charge(table_exec.call_cost) {
                        Ok(()) => {
                            let arity = f.arity();
                            if stack.len() < arity {
                                proof {
                                    assert(run(table, *data_cache, init, cv) == Err::<
                                        InterpState,
                                        InterpErr,
                                    >(unreachable_err(self.gas.remaining_gas())));
                                }
                                return Err(VMStatus::new(StatusCode::Unreachable));
                            }
                            let at = stack.len() - arity;
                            let tail = stack.split_off(at);
                            let mut args_dq: std::collections::VecDeque<Value> =
                                std::collections::VecDeque::new();
                            let mut ti: usize = 0;
                            while ti < tail.len()
                                invariant
                                    ti <= tail@.len(),
                                    args_dq@.len() == ti,
                                    forall|k: int| 0 <= k < ti ==> args_dq@[k]@ == tail@[k]@,
                                decreases tail@.len() - ti,
                            {
                                args_dq.push_back(tail[ti].clone());
                                ti = ti + 1;
                            }
                            proof {
                                assert forall|k: int|
                                    0 <= k < tail@.len() implies values_view(args_dq@)[k]
                                    == pre.stack.subrange(
                                    pre.stack.len() - native_arity(f),
                                    pre.stack.len() as int,
                                )[k] by {
                                    assert(args_dq@[k]@ == tail@[k]@);
                                    assert(tail@[k]@ == values_view(stack@ + tail@)[at + k]);
                                }
                                assert(values_view(args_dq@) =~= pre.stack.subrange(
                                    pre.stack.len() - native_arity(f),
                                    pre.stack.len() as int,
                                ));
                            }
                            match dispatch_native(f, args_dq) {
                                Ok(nr) => {
                                    match self.gas.charge(nr.cost) {
                                        Ok(()) => {
                                            let mut rv = nr.return_values;
                                            let ghost rvv = values_view(rv@);
                                            stack.append(&mut rv);
                                            proof {
                                                assert forall|k: int|
                                                    0 <= k < stack@.len() implies values_view(
                                                    stack@,
                                                )[k] == (pre.stack.take(
                                                    pre.stack.len() - native_arity(f),
                                                ) + rvv)[k] by {
                                                    if k < at {
                                                        assert(stack@[k]@ == pre.stack[k]);
                                                    } else {
                                                        assert(stack@[k]@ == rvv[k - at]);
                                                    }
                                                }
                                                assert(values_view(stack@) =~= pre.stack.take(
                                                    pre.stack.len() - native_arity(f),
                                                ) + rvv);
                                            }
                                        },
                                        Err(e) => {
                                            proof {
                                                assert(run(table, *data_cache, init, cv) == Err::<
                                                    InterpState,
                                                    InterpErr,
                                                >(out_of_gas_err(self.gas.remaining_gas())));
                                            }
                                            return Err(e);
                                        },
                                    }
                                },
                                Err(e) => {
                                    proof {
                                        assert(run(table, *data_cache, init, cv) == Err::<
                                            InterpState,
                                            InterpErr,
                                        >(unreachable_err(self.gas.remaining_gas())));
                                    }
                                    return Err(e);
                                },
                            }
                        },
                        Err(e) => {
                            proof {
                                assert(run(table, *data_cache, init, cv) == Err::<
                                    InterpState,
                                    InterpErr,
                                >(out_of_gas_err(pre.gas)));
                            }
                            return Err(e);
                        },
                    }
                },
                Instr::ReadRef(p) => {
                    match self.gas.charge(table_exec.read_cost) {
                        Ok(()) => {
                            match Self::read_through(data_cache, &self.txn_writes, &new_writes, p) {
                                Some(v) => {
                                    let ghost vv = v@;
                                    stack.push(v);
                                    proof {
                                        assert(values_view(stack@) =~= pre.stack.push(vv));
                                    }
                                },
                                None => {
                                    proof {
                                        assert(run(table, *data_cache, init, cv) == Err::<
                                            InterpState,
                                            InterpErr,
                                        >(InterpErr {
                                            status: VMStatus {
                                                major: StatusCode::MissingData,
                                                sub_status: None,
                                            },
                                            gas: self.gas.remaining_gas(),
                                        }));
                                    }
                                    return Err(VMStatus::new(StatusCode::MissingData));
                                },
                            }
                        },
                        Err(e) => {
                            proof {
                                assert(run(table, *data_cache, init, cv) == Err::<
                                    InterpState,
                                    InterpErr,
                                >(out_of_gas_err(pre.gas)));
                            }
                            return Err(e);
                        },
                    }
                },
                Instr::WriteRef(p) => {
                    match self.gas.charge(table_exec.write_cost) {
                        Ok(()) => {
                            match stack.pop() {
                                Some(v) => {
                                    let ghost vv = v@;
                                    new_writes.push((p.clone(), WriteOp::Value(v)));
                                    proof {
                                        assert(values_view(stack@) =~= pre.stack.drop_last());
                                        assert(vv == pre.stack.last());
                                        assert(iw + writes_view(new_writes@) =~= pre.writes.push(
                                            (p@, WriteOpView::Value(pre.stack.last())),
                                        ));
                                    }
                                },
                                None => {
                                    proof {
                                        assert(run(table, *data_cache, init, cv) == Err::<
                                            InterpState,
                                            InterpErr,
                                        >(unreachable_err(self.gas.remaining_gas())));
                                    }
                                    return Err(VMStatus::new(StatusCode::Unreachable));
                                },
                            }
                        },
                        Err(e) => {
                            proof {
                                assert(run(table, *data_cache, init, cv) == Err::<
                                    InterpState,
                                    InterpErr,
                                >(out_of_gas_err(pre.gas)));
                            }
                            return Err(e);
                        },
                    }
                },
                Instr::DeleteRef(p) => {
                    match self.gas.charge(table_exec.write_cost) {
                        Ok(()) => {
                            new_writes.push((p.clone(), WriteOp::Deletion));
                            proof {
                                assert(iw + writes_view(new_writes@) =~= pre.writes.push(
                                    (p@, WriteOpView::Deletion),
                                ));
                            }
                        },
                        Err(e) => {
                            proof {
                                assert(run(table, *data_cache, init, cv) == Err::<
                                    InterpState,
                                    InterpErr,
                                >(out_of_gas_err(pre.gas)));
                            }
                            return Err(e);
                        },
                    }
                },
                Instr::Abort(c) => {
                    match self.gas.charge(table_exec.abort_cost) {
                        Ok(()) => {
                            proof {
                                assert(run(table, *data_cache, init, cv) == Err::<
                                    InterpState,
                                    InterpErr,
                                >(InterpErr {
                                    status: VMStatus {
                                        major: StatusCode::Aborted,
                                        sub_status: Some(*c),
                                    },
                                    gas: self.gas.remaining_gas(),
                                }));
                            }
                            return Err(VMStatus { major: StatusCode::Aborted, sub_status: Some(*c) });
                        },
                        Err(e) => {
                            proof {
                                assert(run(table, *data_cache, init, cv) == Err::<
                                    InterpState,
                                    InterpErr,
                                >(out_of_gas_err(pre.gas)));
                            }
                            return Err(e);
                        },
                    }
                },
            }
            pc = pc + 1;
        }
        proof {
            assert(cv.skip(pc as int).len() == 0);
        }
        let ghost nwv = writes_view(new_writes@);
        self.txn_writes.append(&mut new_writes);
        proof {
            assert(self.txn_writes_view() =~= iw + nwv);
        }
        Ok(())
    }

    /// Finalizes a successful transaction: yields the kept output with the
    /// accumulated write-set, the gas used, and one fee credit per gas
    /// recipient; the system transaction passes an empty recipient list and
    /// pays no fee.
    pub fn transaction_cleanup(&mut self, gas_recipients: Vec<AccountAddress>) -> (r:
        TransactionOutput)
        requires
            old(self).well_formed(),
        ensures
            r.status == TransactionStatus::Keep(
                VMStatus { major: StatusCode::Executed, sub_status: None::<u64> },
            ),
            r.gas_used == old(self).metadata_spec().max_gas_amount.0 - old(self).remaining_gas(),
            r.write_set_view() == old(self).txn_writes_view() + fee_entries_spec(
                addresses_view(gas_recipients@),
                fee_share_spec(
                    fee_total_spec(r.gas_used, old(self).metadata_spec().gas_price),
                    gas_recipients@.len(),
                ),
            ),
            final(self).txn_writes_view() == Seq::<(AccessPathView, WriteOpView)>::empty(),
    {
        let gas_used = self.txn_data.max_gas_amount.get() - self.gas.remaining().get();
        let total = match gas_used.checked_mul(self.txn_data.gas_price) {
            Some(t) => t,
            None => u64::MAX,
        };
        let nrec = gas_recipients.len();
        let share: u64 = if nrec == 0 {
            0
        } else {
            total / (nrec as u64)
        };
        let ghost fees = fee_entries_spec(addresses_view(gas_recipients@), share);
        let mut write_set = self.txn_writes.split_off(0);
        let ghost base = write_set@;
        proof {
            assert(self.txn_writes_view() =~= Seq::<(AccessPathView, WriteOpView)>::empty());
        }
        let mut k: usize = 0;
        while k < nrec
            invariant
                k <= gas_recipients@.len(),
                nrec == gas_recipients@.len(),
                fees == fee_entries_spec(addresses_view(gas_recipients@), share),
                write_set@.len() == base.len() + k,
                forall|j: int| 0 <= j < base.len() ==> write_set@[j] == base[j],
                forall|j: int|
                    0 <= j < k ==> (write_set@[base.len() + j].0@, write_set@[base.len() + j].1@)
                        == fees[j],
            decreases nrec - k,
        {
            proof {
                assert(addresses_view(gas_recipients@)[k as int] == gas_recipients@[k as int]@);
            }
            let fee_path = AccessPath {
                address: gas_recipients[k].clone(),
                path: gas_fee_path(),
            };
            let fee_op = WriteOp::Value(Value::U64(share));
            proof {
                assert(fee_path@ == AccessPathView {
                    address: gas_recipients@[k as int]@,
                    path: gas_fee_path_spec(),
                });
                assert(fee_op@ == WriteOpView::Value(ValueView::U64(share)));
                assert(fees[k as int] == (fee_path@, fee_op@));
            }
            write_set.push((fee_path, fee_op));
            k = k + 1;
        }
        proof {
            assert forall|j: int| 0 <= j < write_set@.len() implies writes_view(write_set@)[j]
                == (writes_view(base) + fees)[j] by {
                assert(writes_view(write_set@)[j] == (write_set@[j].0@, write_set@[j].1@));
                if j < base.len() {
                    assert(write_set@[j] == base[j]);
                    assert(writes_view(base)[j] == (base[j].0@, base[j].1@));
                } else {
                    assert((write_set@[j].0@, write_set@[j].1@) == fees[j - base.len()]);
                }
            }
            assert(writes_view(write_set@) =~= writes_view(base) + fees);
        }
        TransactionOutput {
            write_set,
            gas_used,
            status: TransactionStatus::Keep(VMStatus::new(StatusCode::Executed)),
        }
    }

    /// Reads a path during execution: the transaction's newest buffered
    /// write wins, then its earlier buffered writes, then the block cache.
    fn read_through(
        data_cache: &BlockDataCache,
        first: &Vec<(AccessPath, WriteOp)>,
        second: &Vec<(AccessPath, WriteOp)>,
        p: &AccessPath,
    ) -> (r: Option<Value>)
        ensures
            match r {
                Some(v) => txn_read(
                    *data_cache,
                    writes_view(first@) + writes_view(second@),
                    p@,
                ) == Some(v@),
                None => txn_read(*data_cache, writes_view(first@) + writes_view(second@), p@)
                    is None,
            },
    {
        proof {
            lemma_lookup_writes_concat(writes_view(first@), writes_view(second@), p@);
        }
        match find_write(second, p) {
            Some(WriteOp::Value(v)) => Some(v),
            Some(WriteOp::Deletion) => None,
            None => match find_write(first, p) {
                Some(WriteOp::Value(v)) => Some(v),
                Some(WriteOp::Deletion) => None,
                None => data_cache.read(p),
            },
        }
    }
}

} // verus!
