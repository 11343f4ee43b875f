//! Core data types of the execution core: account addresses, identifiers,
//! access paths, runtime values and write operations, each with a
//! mathematical view used by the contracts.

use vstd::prelude::*;
use crate::bytes::bytes_eq;

verus! {

/// Length in bytes of a canonical account address.
pub const ADDRESS_LENGTH: usize = 32;

/// An account address: a fixed-length byte string naming an account.
#[derive(PartialEq, Eq, Debug)]
pub struct AccountAddress {
    bytes: Vec<u8>,
}

impl View for AccountAddress {
    type V = Seq<u8>;

    closed spec fn view(&self) -> Seq<u8> {
        self.bytes@
    }
}

impl Clone for AccountAddress {
    fn clone(&self) -> (r: Self)
        ensures
            r@ == self@,
    {
        let b = self.bytes.clone();
        proof {
            assert(b@ =~= self.bytes@);
        }
        AccountAddress { bytes: b }
    }
}

impl AccountAddress {
    /// A well-formed address holds exactly `ADDRESS_LENGTH` bytes.
    pub open spec fn well_formed(self) -> bool {
        self@.len() == ADDRESS_LENGTH
    }

    /// Builds an address from raw bytes; fails on any other length.
    pub fn new(bytes: Vec<u8>) -> (r: Option<AccountAddress>)
        ensures
            match r {
                Some(a) => bytes@.len() == ADDRESS_LENGTH && a@ == bytes@ && a.well_formed(),
                None => bytes@.len() != ADDRESS_LENGTH,
            },
    {
        if bytes.len() == ADDRESS_LENGTH {
            Some(AccountAddress { bytes })
        } else {
            None
        }
    }

    /// The canonical byte encoding of the address: its raw bytes.
    pub fn to_vec(&self) -> (r: Vec<u8>)
        ensures
            r@ == self@,
    {
        let b = self.bytes.clone();
        proof {
            assert(b@ =~= self.bytes@);
        }
        b
    }

    /// Whether two addresses name the same account.
    pub fn eq_address(&self, other: &AccountAddress) -> (r: bool)
        ensures
            r <==> self@ == other@,
    {
        bytes_eq(&self.bytes, &other.bytes)
    }
}

/// The all-zero address reserved for system code.
pub open spec fn zero_address_spec() -> Seq<u8> {
    Seq::new(ADDRESS_LENGTH as nat, |i: int| 0u8)
}

/// The address at which the system modules are published: all zero bytes.
pub fn core_code_address() -> (r: AccountAddress)
    ensures
        r@ == zero_address_spec(),
        r.well_formed(),
{
    let mut v: Vec<u8> = Vec::new();
    let mut i: usize = 0;
    while i < ADDRESS_LENGTH
        invariant
            i <= ADDRESS_LENGTH,
            v@.len() == i,
            forall|k: int| 0 <= k < i ==> v@[k] == 0u8,
        decreases ADDRESS_LENGTH - i,
    {
        v.push(0u8);
        i = i + 1;
    }
    proof {
        assert(v@ =~= zero_address_spec());
    }
    match AccountAddress::new(v) {
        Some(a) => a,
        None => vstd::pervasive::unreached(),
    }
}

/// A name of a module or of a function, as a byte string.
#[derive(PartialEq, Eq, Debug)]
pub struct Identifier {
    bytes: Vec<u8>,
}

impl View for Identifier {
    type V = Seq<u8>;

    closed spec fn view(&self) -> Seq<u8> {
        self.bytes@
    }
}

impl Clone for Identifier {
    fn clone(&self) -> (r: Self)
        ensures
            r@ == self@,
    {
        let b = self.bytes.clone();
        proof {
            assert(b@ =~= self.bytes@);
        }
        Identifier { bytes: b }
    }
}

impl Identifier {
    /// Builds an identifier from its bytes.
    pub fn new(bytes: Vec<u8>) -> (r: Identifier)
        ensures
            r@ == bytes@,
    {
        Identifier { bytes }
    }

    /// Whether two identifiers are the same name.
    pub fn eq_ident(&self, other: &Identifier) -> (r: bool)
        ensures
            r <==> self@ == other@,
    {
        bytes_eq(&self.bytes, &other.bytes)
    }
}

/// The mathematical view of an access path.
pub struct AccessPathView {
    pub address: Seq<u8>,
    pub path: Seq<u8>,
}

/// An address-keyed entry in global storage: an account and a path under it.
#[derive(PartialEq, Eq, Debug)]
pub struct AccessPath {
    pub address: AccountAddress,
    pub path: Vec<u8>,
}

impl View for AccessPath {
    type V = AccessPathView;

    open spec fn view(&self) -> AccessPathView {
        AccessPathView { address: self.address@, path: self.path@ }
    }
}

impl Clone for AccessPath {
    fn clone(&self) -> (r: Self)
        ensures
            r@ == self@,
    {
        let p = self.path.clone();
        proof {
            assert(p@ =~= self.path@);
        }
        AccessPath { address: self.address.clone(), path: p }
    }
}

impl AccessPath {
    /// Whether two access paths name the same storage entry.
    pub fn eq_path(&self, other: &AccessPath) -> (r: bool)
        ensures
            r <==> self@ == other@,
    {
        self.address.eq_address(&other.address) && bytes_eq(&self.path, &other.path)
    }
}

/// The mathematical view of a runtime value.
pub enum ValueView {
    U64(u64),
    Bool(bool),
    Address(Seq<u8>),
    ByteArray(Seq<u8>),
}

/// A runtime value produced and consumed during execution.
#[derive(PartialEq, Eq, Debug)]
pub enum Value {
    U64(u64),
    Bool(bool),
    Address(AccountAddress),
    ByteArray(Vec<u8>),
}

impl View for Value {
    type V = ValueView;

    open spec fn view(&self) -> ValueView {
        match self {
            Value::U64(x) => ValueView::U64(*x),
            Value::Bool(b) => ValueView::Bool(*b),
            Value::Address(a) => ValueView::Address(a@),
            Value::ByteArray(v) => ValueView::ByteArray(v@),
        }
    }
}

impl Clone for Value {
    fn clone(&self) -> (r: Self)
        ensures
            r@ == self@,
    {
        match self {
            Value::U64(x) => Value::U64(*x),
            Value::Bool(b) => Value::Bool(*b),
            Value::Address(a) => Value::Address(a.clone()),
            Value::ByteArray(v) => {
                let c = v.clone();
                proof {
                    assert(c@ =~= v@);
                }
                Value::ByteArray(c)
            },
        }
    }
}

/// The mathematical view of a write operation.
pub enum WriteOpView {
    Value(ValueView),
    Deletion,
}

/// A state change recorded in a write-set: a new value, or a deletion.
#[derive(PartialEq, Eq, Debug)]
pub enum WriteOp {
    Value(Value),
    Deletion,
}

impl View for WriteOp {
    type V = WriteOpView;

    open spec fn view(&self) -> WriteOpView {
        match self {
            WriteOp::Value(v) => WriteOpView::Value(v@),
            WriteOp::Deletion => WriteOpView::Deletion,
        }
    }
}

impl Clone for WriteOp {
    fn clone(&self) -> (r: Self)
        ensures
            r@ == self@,
    {
        match self {
            WriteOp::Value(v) => WriteOp::Value(v.clone()),
            WriteOp::Deletion => WriteOp::Deletion,
        }
    }
}

/// The view of a sequence of buffered writes.
pub open spec fn writes_view(ws: Seq<(AccessPath, WriteOp)>) -> Seq<(AccessPathView, WriteOpView)> {
    ws.map_values(|e: (AccessPath, WriteOp)| (e.0@, e.1@))
}

} // verus!
