//! Native-function dispatch: a fixed table of built-in operations, each with
//! a fixed arity and per-position argument types. Arguments arrive on a
//! stack and are popped in last-declared-first-popped order; a wrong count
//! or a wrong type is an internal error, never a silent drop.

use vstd::prelude::*;
use std::collections::VecDeque;
use crate::bytes::{u64_le_spec, u64_to_le_bytes};
use crate::status::{StatusCode, VMResult, VMStatus};
use crate::types::{Value, ValueView};

verus! {

/// The view of a sequence of runtime values.
pub open spec fn values_view(s: Seq<Value>) -> Seq<ValueView> {
    s.map_values(|v: Value| v@)
}

/// The identifiers of the built-in operations.
#[derive(Clone, Copy, PartialEq, Eq, Structural, Debug)]
pub enum NativeFunction {
    /// Two byte arrays in, their concatenation out.
    BytearrayConcat,
    /// One address in, its canonical byte encoding out.
    AddressToBytes,
    /// One 64-bit integer in, its little-endian byte encoding out.
    U64ToBytes,
}

/// The expected argument count of a native operation.
pub open spec fn native_arity(f: NativeFunction) -> nat {
    match f {
        NativeFunction::BytearrayConcat => 2,
        NativeFunction::AddressToBytes => 1,
        NativeFunction::U64ToBytes => 1,
    }
}

impl NativeFunction {
    /// The expected argument count of the operation.
    pub fn arity(&self) -> (n: usize)
        ensures
            n == native_arity(*self),
    {
        match self {
            NativeFunction::BytearrayConcat => 2,
            NativeFunction::AddressToBytes => 1,
            NativeFunction::U64ToBytes => 1,
        }
    }
}

/// What a native operation returns on an argument stack (arguments in push
/// order): its result values and its cost in abstract units — the size of
/// the produced byte output — or nothing on a wrong argument count or a
/// wrong argument type.
pub open spec fn native_apply(f: NativeFunction, args: Seq<ValueView>) -> Option<
    (Seq<ValueView>, nat),
> {
    match f {
        NativeFunction::BytearrayConcat => if args.len() == 2 {
            match (args[0], args[1]) {
                (ValueView::ByteArray(a), ValueView::ByteArray(b)) => Some(
                    (seq![ValueView::ByteArray(a + b)], a.len() + b.len()),
                ),
                _ => None,
            }
        } else {
            None
        },
        NativeFunction::AddressToBytes => if args.len() == 1 {
            match args[0] {
                ValueView::Address(a) => Some((seq![ValueView::ByteArray(a)], a.len())),
                _ => None,
            }
        } else {
            None
        },
        NativeFunction::U64ToBytes => if args.len() == 1 {
            match args[0] {
                ValueView::U64(x) => Some((seq![ValueView::ByteArray(u64_le_spec(x))], 8)),
                _ => None,
            }
        } else {
            None
        },
    }
}

/// The result of a successful native call: the values to push back and the
/// cost to forward to the gas algebra.
#[derive(PartialEq, Eq, Debug)]
pub struct NativeResult {
    pub cost: u64,
    pub return_values: Vec<Value>,
}

impl NativeResult {
    /// A successful result with the given cost and values.
    pub fn ok(cost: u64, return_values: Vec<Value>) -> (r: NativeResult)
        ensures
            r.cost == cost,
            r.return_values == return_values,
    {
        NativeResult { cost, return_values }
    }
}

/// Concatenates two byte arrays; the cost is the size of the concatenated
/// result. Any other argument count or argument type is an internal error.
pub fn native_bytearray_concat(arguments: VecDeque<Value>) -> (r: VMResult<NativeResult>)
    ensures
        match native_apply(NativeFunction::BytearrayConcat, values_view(arguments@)) {
            Some(res) => r matches Ok(nr) && nr.cost == res.1 && values_view(nr.return_values@)
                == res.0,
            None => r == Err::<NativeResult, VMStatus>(
                VMStatus { major: StatusCode::Unreachable, sub_status: None::<u64> },
            ),
        },
{
    let mut args = arguments;
    if args.len() != 2 {
        return Err(VMStatus::new(StatusCode::Unreachable));
    }
    let arg2 = match args.pop_back() {
        Some(Value::ByteArray(b)) => b,
        _ => {
            return Err(VMStatus::new(StatusCode::Unreachable));
        },
    };
    let arg1 = match args.pop_back() {
        Some(Value::ByteArray(b)) => b,
        _ => {
            return Err(VMStatus::new(StatusCode::Unreachable));
        },
    };
    let mut return_val = arg1;
    let ghost a: Seq<u8> = return_val@;
    let ghost b: Seq<u8> = arg2@;
    proof {
        assert(values_view(arguments@)[0] == arguments@[0]@);
        assert(values_view(arguments@)[1] == arguments@[1]@);
        assert(return_val@ =~= a + b.take(0));
    }
    let mut i: usize = 0;
    while i < arg2.len()
        invariant
            i <= arg2@.len(),
            arg2@ == b,
            return_val@ == a + b.take(i as int),
        decreases arg2@.len() - i,
    {
        return_val.push(arg2[i]);
        proof {
            assert(return_val@ =~= a + b.take(i + 1));
        }
        i = i + 1;
    }
    proof {
        assert(b.take(i as int) =~= b);
        assert(return_val@ == a + b);
    }
    let cost = return_val.len() as u64;
    let mut return_values: Vec<Value> = Vec::new();
    return_values.push(Value::ByteArray(return_val));
    proof {
        assert(values_view(return_values@) =~= seq![ValueView::ByteArray(a + b)]);
        assert(values_view(arguments@)[0] == ValueView::ByteArray(a));
        assert(values_view(arguments@)[1] == ValueView::ByteArray(b));
    }
    Ok(NativeResult::ok(cost, return_values))
}

/// Converts an address to its canonical byte encoding; the cost is the size
/// of that encoding. Any other argument count or argument type is an
/// internal error.
pub fn native_address_to_bytes(arguments: VecDeque<Value>) -> (r: VMResult<NativeResult>)
    ensures
        match native_apply(NativeFunction::AddressToBytes, values_view(arguments@)) {
            Some(res) => r matches Ok(nr) && nr.cost == res.1 && values_view(nr.return_values@)
                == res.0,
            None => r == Err::<NativeResult, VMStatus>(
                VMStatus { major: StatusCode::Unreachable, sub_status: None::<u64> },
            ),
        },
{
    let mut args = arguments;
    if args.len() != 1 {
        return Err(VMStatus::new(StatusCode::Unreachable));
    }
    let arg = match args.pop_back() {
        Some(Value::Address(a)) => a,
        _ => {
            return Err(VMStatus::new(StatusCode::Unreachable));
        },
    };
    let return_val = arg.to_vec();
    let cost = return_val.len() as u64;
    let mut return_values: Vec<Value> = Vec::new();
    return_values.push(Value::ByteArray(return_val));
    proof {
        let a = values_view(arguments@)[0]->Address_0;
        assert(values_view(return_values@) =~= seq![ValueView::ByteArray(a)]);
    }
    Ok(NativeResult::ok(cost, return_values))
}

/// Converts a 64-bit integer to its little-endian byte encoding; the cost is
/// the size of that encoding. Any other argument count or argument type is
/// an internal error.
pub fn native_u64_to_bytes(arguments: VecDeque<Value>) -> (r: VMResult<NativeResult>)
    ensures
        match native_apply(NativeFunction::U64ToBytes, values_view(arguments@)) {
            Some(res) => r matches Ok(nr) && nr.cost == res.1 && values_view(nr.return_values@)
                == res.0,
            None => r == Err::<NativeResult, VMStatus>(
                VMStatus { major: StatusCode::Unreachable, sub_status: None::<u64> },
            ),
        },
{
    let mut args = arguments;
    if args.len() != 1 {
        return Err(VMStatus::new(StatusCode::Unreachable));
    }
    let arg = match args.pop_back() {
        Some(Value::U64(x)) => x,
        _ => {
            return Err(VMStatus::new(StatusCode::Unreachable));
        },
    };
    let return_val = u64_to_le_bytes(arg);
    let cost = return_val.len() as u64;
    let mut return_values: Vec<Value> = Vec::new();
    return_values.push(Value::ByteArray(return_val));
    proof {
        let x = values_view(arguments@)[0]->U64_0;
        assert(values_view(return_values@) =~= seq![ValueView::ByteArray(u64_le_spec(x))]);
    }
    Ok(NativeResult::ok(cost, return_values))
}

/// Dispatches a native call to its implementation by identifier.
pub fn dispatch_native(f: NativeFunction, arguments: VecDeque<Value>) -> (r: VMResult<
    NativeResult,
>)
    ensures
        match native_apply(f, values_view(arguments@)) {
            Some(res) => r matches Ok(nr) && nr.cost == res.1 && values_view(nr.return_values@)
                == res.0,
            None => r == Err::<NativeResult, VMStatus>(
                VMStatus { major: StatusCode::Unreachable, sub_status: None::<u64> },
            ),
        },
{
    match f {
        NativeFunction::BytearrayConcat => native_bytearray_concat(arguments),
        NativeFunction::AddressToBytes => native_address_to_bytes(arguments),
        NativeFunction::U64ToBytes => native_u64_to_bytes(arguments),
    }
}

} // verus!
