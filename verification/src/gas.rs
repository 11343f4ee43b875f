//! Gas accounting: the remaining budget as an exact, overflow-checked
//! counter, and the cost table that converts abstract cost units to gas.

use vstd::prelude::*;
use crate::status::{StatusCode, VMResult, VMStatus};

verus! {

/// An exact, non-negative quantity of gas.
#[derive(Clone, Copy, PartialEq, Eq, Structural, Debug)]
pub struct GasUnits(pub u64);

impl GasUnits {
    /// A gas quantity with the given value.
    pub fn new(v: u64) -> (r: GasUnits)
        ensures
            r.0 == v,
    {
        GasUnits(v)
    }

    /// The value of the quantity.
    pub fn get(&self) -> (r: u64)
        ensures
            r == self.0,
    {
        self.0
    }
}

/// The cost table: abstract cost units for each instruction identifier, and
/// the conversion rate from abstract units to gas units. Identical tables
/// yield identical costs on every node: costs depend on nothing but the
/// table and the charged quantity.
#[derive(Clone, Copy, PartialEq, Eq, Structural, Debug)]
pub struct CostTable {
    /// Abstract units charged for a push instruction.
    pub push_cost: u64,
    /// Abstract units charged for a pop instruction.
    pub pop_cost: u64,
    /// Abstract units charged for a read through the data cache.
    pub read_cost: u64,
    /// Abstract units charged for a buffered write or deletion.
    pub write_cost: u64,
    /// Abstract units charged for dispatching a native call.
    pub call_cost: u64,
    /// Abstract units charged for an abort instruction.
    pub abort_cost: u64,
    /// Gas units per abstract unit.
    pub gas_per_unit: u64,
}

/// The all-zero cost table, under which every charge is a no-op.
pub open spec fn zero_cost_table() -> CostTable {
    CostTable {
        push_cost: 0u64,
        pop_cost: 0u64,
        read_cost: 0u64,
        write_cost: 0u64,
        call_cost: 0u64,
        abort_cost: 0u64,
        gas_per_unit: 0u64,
    }
}

impl CostTable {
    /// Whether every charge under this table is a no-op.
    pub open spec fn is_zero_spec(self) -> bool {
        self.gas_per_unit == 0
    }

    /// The table under which every charge is a no-op; used only for the
    /// system transaction.
    pub fn zero() -> (r: CostTable)
        ensures
            r.is_zero_spec(),
            r == zero_cost_table(),
    {
        CostTable {
            push_cost: 0,
            pop_cost: 0,
            read_cost: 0,
            write_cost: 0,
            call_cost: 0,
            abort_cost: 0,
            gas_per_unit: 0,
        }
    }
}

/// The gas cost of charging `units` abstract units under `table`.
pub open spec fn gas_cost(table: CostTable, units: nat) -> nat {
    units * (table.gas_per_unit as nat)
}

/// What one charge does to a remaining budget: the debited budget if the
/// cost fits, or nothing if the debit would exceed it.
pub open spec fn charge_model(table: CostTable, rem: u64, units: nat) -> Option<u64> {
    if gas_cost(table, units) <= rem {
        Some((rem - gas_cost(table, units)) as u64)
    } else {
        None
    }
}

/// Folds a sequence of charges over a remaining budget; fails as soon as one
/// charge fails.
pub open spec fn charge_seq_model(table: CostTable, rem: u64, costs: Seq<u64>) -> Option<u64>
    decreases costs.len(),
{
    if costs.len() == 0 {
        Some(rem)
    } else {
        match charge_model(table, rem, costs[0] as nat) {
            Some(r2) => charge_seq_model(table, r2, costs.drop_first()),
            None => None,
        }
    }
}

/// The total gas cost of a sequence of charges.
pub open spec fn total_gas(table: CostTable, costs: Seq<u64>) -> nat
    decreases costs.len(),
{
    if costs.len() == 0 {
        0
    } else {
        gas_cost(table, costs[0] as nat) + total_gas(table, costs.drop_first())
    }
}

/// Law: a sequence of charges succeeds exactly when its total gas cost fits
/// in the initial budget, and then the remaining budget equals the initial
/// budget minus that total — it never goes negative and never wraps.
pub proof fn lemma_gas_accounting(table: CostTable, rem: u64, costs: Seq<u64>)
    ensures
        charge_seq_model(table, rem, costs) is Some <==> total_gas(table, costs) <= rem,
        charge_seq_model(table, rem, costs) matches Some(r) ==> r == rem - total_gas(table, costs),
    decreases costs.len(),
{
    if costs.len() == 0 {
    } else {
        match charge_model(table, rem, costs[0] as nat) {
            Some(r2) => {
                lemma_gas_accounting(table, r2, costs.drop_first());
            },
            None => {},
        }
    }
}

/// Law: under the zero cost table a charge never fails and never moves the
/// budget.
pub proof fn lemma_zero_table_charge(table: CostTable, rem: u64, units: nat)
    requires
        table.is_zero_spec(),
    ensures
        charge_model(table, rem, units) == Some(rem),
{
    assert(gas_cost(table, units) == units * 0);
}

/// Tracks the remaining gas budget of one transaction, debiting it charge by
/// charge under a fixed cost table.
pub struct GasAlgebra {
    table: CostTable,
    remaining: GasUnits,
}

impl GasAlgebra {
    /// The active cost table.
    pub closed spec fn table_spec(self) -> CostTable {
        self.table
    }

    /// The remaining budget, in gas units.
    pub closed spec fn remaining_gas(self) -> u64 {
        self.remaining.0
    }

    /// A fresh algebra with the whole budget left.
    pub fn new(table: CostTable, budget: GasUnits) -> (r: GasAlgebra)
        ensures
            r.table_spec() == table,
            r.remaining_gas() == budget.0,
    {
        GasAlgebra { table, remaining: budget }
    }

    /// The active cost table.
    pub fn cost_table(&self) -> (r: CostTable)
        ensures
            r == self.table_spec(),
    {
        self.table
    }

    /// The remaining budget.
    pub fn remaining(&self) -> (r: GasUnits)
        ensures
            r.0 == self.remaining_gas(),
    {
        self.remaining
    }

    /// Debits the budget by `units` abstract units, converted to gas units
    /// via the cost table. Fails, leaving the budget untouched, when the
    /// debit would exceed the remaining budget; never wraps.
    pub fn charge(&mut self, units: u64) -> (r: VMResult<()>)
        ensures
            final(self).table_spec() == old(self).table_spec(),
            match charge_model(old(self).table_spec(), old(self).remaining_gas(), units as nat) {
                Some(rem2) => r is Ok && final(self).remaining_gas() == rem2,
                None => r == Err::<(), VMStatus>(
                    VMStatus { major: StatusCode::OutOfGas, sub_status: None::<u64> },
                ) && final(self).remaining_gas() == old(self).remaining_gas(),
            },
    {
        match units.checked_mul(self.table.gas_per_unit) {
            None => Err(VMStatus::new(StatusCode::OutOfGas)),
            Some(gas) => {
                if gas <= self.remaining.0 {
                    self.remaining = GasUnits(self.remaining.0 - gas);
                    Ok(())
                } else {
                    Err(VMStatus::new(StatusCode::OutOfGas))
                }
            },
        }
    }
}

} // verus!
