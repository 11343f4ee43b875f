//! Modules — immutable, address-scoped, named units of verified bytecode —
//! and the process-wide module cache that resolves them by identity,
//! loading each from the module storage collaborator once and memoizing it.

use vstd::prelude::*;
use crate::natives::NativeFunction;
use crate::status::{StatusCode, VMResult, VMStatus};
use crate::types::{AccessPath, AccessPathView, AccountAddress, Identifier};

verus! {

/// The mathematical view of one bytecode instruction.
pub enum InstrView {
    PushU64(u64),
    PushBytes(Seq<u8>),
    PushAddress(Seq<u8>),
    Pop,
    CallNative(NativeFunction),
    ReadRef(AccessPathView),
    WriteRef(AccessPathView),
    DeleteRef(AccessPathView),
    Abort(u64),
}

/// One bytecode instruction of a function body. The executor trusts the
/// bytecode verifier for type and resource discipline; it still fails
/// closed, never panics, on a malformed body.
#[derive(PartialEq, Eq, Debug)]
pub enum Instr {
    /// Pushes an integer constant.
    PushU64(u64),
    /// Pushes a byte-array constant.
    PushBytes(Vec<u8>),
    /// Pushes an address constant.
    PushAddress(AccountAddress),
    /// Pops the top of the value stack.
    Pop,
    /// Invokes a built-in operation on the top of the stack.
    CallNative(NativeFunction),
    /// Reads an access path through the data cache and pushes the value.
    ReadRef(AccessPath),
    /// Pops a value and buffers it as a write to the access path.
    WriteRef(AccessPath),
    /// Buffers a deletion of the access path.
    DeleteRef(AccessPath),
    /// Aborts the transaction with a code.
    Abort(u64),
}

impl View for Instr {
    type V = InstrView;

    open spec fn view(&self) -> InstrView {
        match self {
            Instr::PushU64(x) => InstrView::PushU64(*x),
            Instr::PushBytes(b) => InstrView::PushBytes(b@),
            Instr::PushAddress(a) => InstrView::PushAddress(a@),
            Instr::Pop => InstrView::Pop,
            Instr::CallNative(f) => InstrView::CallNative(*f),
            Instr::ReadRef(p) => InstrView::ReadRef(p@),
            Instr::WriteRef(p) => InstrView::WriteRef(p@),
            Instr::DeleteRef(p) => InstrView::DeleteRef(p@),
            Instr::Abort(c) => InstrView::Abort(*c),
        }
    }
}

impl Clone for Instr {
    fn clone(&self) -> (r: Self)
        ensures
            r@ == self@,
    {
        match self {
            Instr::PushU64(x) => Instr::PushU64(*x),
            Instr::PushBytes(b) => {
                let c = b.clone();
                proof {
                    assert(c@ =~= b@);
                }
                Instr::PushBytes(c)
            },
            Instr::PushAddress(a) => Instr::PushAddress(a.clone()),
            Instr::Pop => Instr::Pop,
            Instr::CallNative(f) => Instr::CallNative(*f),
            Instr::ReadRef(p) => Instr::ReadRef(p.clone()),
            Instr::WriteRef(p) => Instr::WriteRef(p.clone()),
            Instr::DeleteRef(p) => Instr::DeleteRef(p.clone()),
            Instr::Abort(c) => Instr::Abort(*c),
        }
    }
}

/// The view of a function body.
pub open spec fn code_view(code: Seq<Instr>) -> Seq<InstrView> {
    code.map_values(|i: Instr| i@)
}

/// The mathematical view of a function definition.
pub struct FunctionDefView {
    pub name: Seq<u8>,
    pub code: Seq<InstrView>,
}

/// A named function of a module, with its bytecode body.
#[derive(PartialEq, Eq, Debug)]
pub struct FunctionDef {
    pub name: Identifier,
    pub code: Vec<Instr>,
}

impl View for FunctionDef {
    type V = FunctionDefView;

    open spec fn view(&self) -> FunctionDefView {
        FunctionDefView { name: self.name@, code: code_view(self.code@) }
    }
}

impl Clone for FunctionDef {
    fn clone(&self) -> (r: Self)
        ensures
            r@ == self@,
    {
        let mut code: Vec<Instr> = Vec::new();
        let mut i: usize = 0;
        let n = self.code.len();
        while i < n
            invariant
                i <= self.code@.len(),
                n == self.code@.len(),
                code@.len() == i,
                forall|k: int| 0 <= k < i ==> code@[k]@ == self.code@[k]@,
            decreases n - i,
        {
            code.push(self.code[i].clone());
            i = i + 1;
        }
        proof {
            assert forall|k: int| 0 <= k < n implies code_view(code@)[k] == code_view(
                self.code@,
            )[k] by {
                assert(code@[k]@ == self.code@[k]@);
            }
            assert(code_view(code@) =~= code_view(self.code@));
        }
        FunctionDef { name: self.name.clone(), code }
    }
}

/// The mathematical view of a module.
pub struct ModuleView {
    pub address: Seq<u8>,
    pub name: Seq<u8>,
    pub functions: Seq<FunctionDefView>,
}

/// An immutable, verified unit of bytecode published at an address. Its
/// identity is the pair (publishing address, name); once cached it is never
/// mutated.
#[derive(PartialEq, Eq, Debug)]
pub struct Module {
    pub address: AccountAddress,
    pub name: Identifier,
    pub functions: Vec<FunctionDef>,
}

/// The view of a list of function definitions.
pub open spec fn functions_view(fns: Seq<FunctionDef>) -> Seq<FunctionDefView> {
    fns.map_values(|f: FunctionDef| f@)
}

impl View for Module {
    type V = ModuleView;

    open spec fn view(&self) -> ModuleView {
        ModuleView { address: self.address@, name: self.name@, functions: functions_view(
            self.functions@,
        ) }
    }
}

impl Clone for Module {
    fn clone(&self) -> (r: Self)
        ensures
            r@ == self@,
    {
        let mut functions: Vec<FunctionDef> = Vec::new();
        let mut i: usize = 0;
        let n = self.functions.len();
        while i < n
            invariant
                i <= self.functions@.len(),
                n == self.functions@.len(),
                functions@.len() == i,
                forall|k: int| 0 <= k < i ==> functions@[k]@ == self.functions@[k]@,
            decreases n - i,
        {
            functions.push(self.functions[i].clone());
            i = i + 1;
        }
        proof {
            assert forall|k: int| 0 <= k < n implies functions_view(functions@)[k]
                == functions_view(self.functions@)[k] by {
                assert(functions@[k]@ == self.functions@[k]@);
            }
            assert(functions_view(functions@) =~= functions_view(self.functions@));
        }
        Module { address: self.address.clone(), name: self.name.clone(), functions }
    }
}

/// The first function with the given name in a module's function list.
pub open spec fn find_function(fns: Seq<FunctionDefView>, name: Seq<u8>) -> Option<FunctionDefView>
    decreases fns.len(),
{
    if fns.len() == 0 {
        None
    } else if fns[0].name == name {
        Some(fns[0])
    } else {
        find_function(fns.drop_first(), name)
    }
}

impl Module {
    /// Finds the function with the given name, as an index into the
    /// module's function list.
    pub fn find_function_index(&self, name: &Identifier) -> (r: Option<usize>)
        ensures
            match r {
                Some(i) => i < self@.functions.len() && find_function(self@.functions, name@)
                    == Some(self@.functions[i as int]),
                None => find_function(self@.functions, name@) is None,
            },
    {
        let ghost fns = self@.functions;
        let mut j: usize = 0;
        let n = self.functions.len();
        proof {
            assert(fns.skip(0) =~= fns);
        }
        while j < n
            invariant
                j <= self.functions@.len(),
                n == self.functions@.len(),
                fns == self@.functions,
                find_function(fns, name@) == find_function(fns.skip(j as int), name@),
            decreases n - j,
        {
            proof {
                assert(fns[j as int] == self.functions@[j as int]@);
                assert(fns.skip(j as int)[0] == fns[j as int]);
                assert(fns.skip(j as int).drop_first() =~= fns.skip(j + 1));
            }
            if self.functions[j].name.eq_ident(name) {
                return Some(j);
            }
            j = j + 1;
        }
        proof {
            assert(fns.skip(j as int).len() == 0);
        }
        None
    }
}

/// The identity of a module: its publishing address and its name.
pub struct ModuleIdView {
    pub address: Seq<u8>,
    pub name: Seq<u8>,
}

/// Names a module by its publishing address and name.
#[derive(PartialEq, Eq, Debug)]
pub struct ModuleId {
    pub address: AccountAddress,
    pub name: Identifier,
}

impl View for ModuleId {
    type V = ModuleIdView;

    open spec fn view(&self) -> ModuleIdView {
        ModuleIdView { address: self.address@, name: self.name@ }
    }
}

impl Clone for ModuleId {
    fn clone(&self) -> (r: Self)
        ensures
            r@ == self@,
    {
        ModuleId { address: self.address.clone(), name: self.name.clone() }
    }
}

/// The view of a list of modules.
pub open spec fn modules_view(mods: Seq<Module>) -> Seq<ModuleView> {
    mods.map_values(|m: Module| m@)
}

/// The first module with the given identity in a list.
pub open spec fn find_module(mods: Seq<ModuleView>, address: Seq<u8>, name: Seq<u8>) -> Option<
    ModuleView,
>
    decreases mods.len(),
{
    if mods.len() == 0 {
        None
    } else if mods[0].address == address && mods[0].name == name {
        Some(mods[0])
    } else {
        find_module(mods.drop_first(), address, name)
    }
}

/// A found module carries the identity it was found under.
pub proof fn lemma_find_module_key(mods: Seq<ModuleView>, address: Seq<u8>, name: Seq<u8>)
    ensures
        find_module(mods, address, name) matches Some(m) ==> m.address == address && m.name
            == name,
    decreases mods.len(),
{
    if mods.len() > 0 {
        lemma_find_module_key(mods.drop_first(), address, name);
    }
}

/// Appending a module with a fresh identity makes it findable under that
/// identity.
pub proof fn lemma_find_module_push(mods: Seq<ModuleView>, m: ModuleView)
    requires
        find_module(mods, m.address, m.name) is None,
    ensures
        find_module(mods.push(m), m.address, m.name) == Some(m),
    decreases mods.len(),
{
    if mods.len() == 0 {
        assert(mods.push(m)[0] == m);
    } else {
        assert(mods.push(m)[0] == mods[0]);
        assert(mods.push(m).drop_first() =~= mods.drop_first().push(m));
        lemma_find_module_push(mods.drop_first(), m);
    }
}

/// What resolution does to the cache: the already-loaded module if the
/// identity is cached, else the storage's module memoized into the cache,
/// else a lookup failure.
pub open spec fn resolve_model(
    loaded: Seq<ModuleView>,
    storage: Seq<ModuleView>,
    address: Seq<u8>,
    name: Seq<u8>,
) -> (Seq<ModuleView>, Option<ModuleView>) {
    match find_module(loaded, address, name) {
        Some(m) => (loaded, Some(m)),
        None => match find_module(storage, address, name) {
            Some(m) => (loaded.push(m), Some(m)),
            None => (loaded, None),
        },
    }
}

/// Law (idempotence of module resolution): resolving the same identity
/// twice yields the same module, and the second resolution no longer moves
/// the cache.
pub proof fn lemma_resolve_idempotent(
    loaded: Seq<ModuleView>,
    storage: Seq<ModuleView>,
    address: Seq<u8>,
    name: Seq<u8>,
)
    ensures
        ({
            let (l1, r1) = resolve_model(loaded, storage, address, name);
            let (l2, r2) = resolve_model(l1, storage, address, name);
            l2 == l1 && r2 == r1
        }),
{
    if find_module(loaded, address, name) is None {
        match find_module(storage, address, name) {
            Some(m) => {
                lemma_find_module_key(storage, address, name);
                lemma_find_module_push(loaded, m);
            },
            None => {},
        }
    }
}

/// The process-wide module cache: a read-only handle to module storage and
/// the modules loaded so far. Storage is never mutated through the cache,
/// and a loaded module is never evicted.
pub struct ModuleCache {
    storage: Vec<Module>,
    loaded: Vec<Module>,
}

impl ModuleCache {
    /// The view of the module storage collaborator's contents.
    pub closed spec fn storage_view(self) -> Seq<ModuleView> {
        modules_view(self.storage@)
    }

    /// The view of the modules loaded so far.
    pub closed spec fn loaded_view(self) -> Seq<ModuleView> {
        modules_view(self.loaded@)
    }

    /// A fresh cache over the given module storage, with nothing loaded.
    pub fn new(storage: Vec<Module>) -> (r: ModuleCache)
        ensures
            r.storage_view() == modules_view(storage@),
            r.loaded_view() == Seq::<ModuleView>::empty(),
    {
        let r = ModuleCache { storage, loaded: Vec::new() };
        proof {
            assert(r.loaded_view() =~= Seq::<ModuleView>::empty());
        }
        r
    }

    /// Finds a module by identity in a list, as an index.
    fn find_in(mods: &Vec<Module>, address: &AccountAddress, name: &Identifier) -> (r: Option<
        usize,
    >)
        ensures
            match r {
                Some(i) => i < mods@.len() && find_module(modules_view(mods@), address@, name@)
                    == Some(modules_view(mods@)[i as int]),
                None => find_module(modules_view(mods@), address@, name@) is None,
            },
    {
        let ghost ms = modules_view(mods@);
        let mut j: usize = 0;
        let n = mods.len();
        proof {
            assert(ms.skip(0) =~= ms);
        }
        while j < n
            invariant
                j <= mods@.len(),
                n == mods@.len(),
                ms == modules_view(mods@),
                find_module(ms, address@, name@) == find_module(ms.skip(j as int), address@, name@),
            decreases n - j,
        {
            proof {
                assert(ms[j as int] == mods@[j as int]@);
                assert(ms.skip(j as int)[0] == ms[j as int]);
                assert(ms.skip(j as int).drop_first() =~= ms.skip(j + 1));
            }
            if mods[j].address.eq_address(address) && mods[j].name.eq_ident(name) {
                return Some(j);
            }
            j = j + 1;
        }
        proof {
            assert(ms.skip(j as int).len() == 0);
        }
        None
    }

    /// Resolves a module identity to a shared, immutable module: the cached
    /// instance if the identity was resolved before, else the module loaded
    /// from storage and memoized. An unknown identity is a linking failure,
    /// not a panic, and leaves the cache untouched.
    pub fn resolve(&mut self, id: &ModuleId) -> (r: VMResult<Module>)
        ensures
            final(self).storage_view() == old(self).storage_view(),
            ({
                let (l2, res) = resolve_model(
                    old(self).loaded_view(),
                    old(self).storage_view(),
                    id@.address,
                    id@.name,
                );
                final(self).loaded_view() == l2 && match res {
                    Some(m) => r matches Ok(rm) && rm@ == m,
                    None => r == Err::<Module, VMStatus>(
                        VMStatus { major: StatusCode::LinkerError, sub_status: None::<u64> },
                    ),
                }
            }),
    {
        match Self::find_in(&self.loaded, &id.address, &id.name) {
            Some(i) => Ok(self.loaded[i].clone()),
            None => {
                match Self::find_in(&self.storage, &id.address, &id.name) {
                    Some(i) => {
                        let ghost old_loaded = self.loaded_view();
                        let m = self.storage[i].clone();
                        let out = m.clone();
                        self.loaded.push(m);
                        proof {
                            assert(self.loaded_view() =~= old_loaded.push(
                                modules_view(self.storage@)[i as int],
                            ));
                        }
                        Ok(out)
                    },
                    None => Err(VMStatus::new(StatusCode::LinkerError)),
                }
            },
        }
    }
}

} // verus!
