use vstd::prelude::*;
use std::marker::PhantomData;
use std::sync::Arc;
use crate::error::LoadError;
use crate::names::{find_symbol, is_first_match};
use crate::slot::{same_snapshot, SnapshotSlot};
use crate::snapshot::{all_resolved, load_error_fits, names_of, Inner};
use crate::symbol::RawSymbol;

verus! {

/// A native module that can be replaced at run time by a freshly loaded copy of
/// itself, with the addresses of `N` required symbols. Readers are never paused
/// by a reload, and an old copy is released only once nobody uses it.
#[verifier::reject_recursive_types(M)]
pub struct ReloadableLibrary<M, const N: usize> {
    name: String,
    inner: SnapshotSlot<M, N>,
    symbols: [String; N],
}

impl<M, const N: usize> ReloadableLibrary<M, N> {
    /// The module's name, used again on every reload.
    pub closed spec fn module_name_spec(&self) -> Seq<char> {
        self.name@
    }

    /// The fixed, ordered list of required symbol names.
    pub closed spec fn names(&self) -> Seq<Seq<char>> {
        names_of(self.symbols)
    }

    /// Creates the handle from the module opened under `name` (`None` when it
    /// could not be opened) and the result of resolving each of `symbols` in it.
    /// Fails, and releases the module, when it did not open or a name did not
    /// resolve.
    pub fn new(name: String, symbols: [String; N], lib: Option<M>, resolved: Vec<Option<usize>>) -> (r: Result<Self, LoadError>)
        requires
            lib is Some ==> resolved@.len() == N,
        ensures
            r is Ok <==> lib is Some && all_resolved(resolved@),
            r is Ok ==> r->Ok_0.module_name_spec() == name@ && r->Ok_0.names() == names_of(symbols),
            r is Err ==> load_error_fits(r->Err_0, lib is Some, names_of(symbols), resolved@),
    {
        let first = Inner::new(lib, &symbols, resolved);
        match first {
            Ok(inner) => Ok(ReloadableLibrary { name, inner: SnapshotSlot::new(Arc::new(inner)), symbols }),
            Err(e) => Err(e),
        }
    }

    /// The module's name, for the loader that reopens it.
    pub fn module_name(&self) -> (r: &String)
        ensures
            r@ == self.module_name_spec(),
    {
        &self.name
    }

    /// The required symbol names, in order, for the loader that resolves them.
    pub fn symbol_names(&self) -> (r: &[String; N])
        ensures
            names_of(*r) == self.names(),
    {
        &self.symbols
    }

    /// Cursor for the first symbol named `symbol`, or `None` when no required
    /// name is `symbol`. The module is not touched.
    pub fn get_symbol<T>(&self, symbol: &str) -> (r: Option<ReloadableSymbol<'_, T, M, N>>)
        ensures
            match r {
                Some(c) => is_first_match(self.names(), symbol@, c.index() as int),
                None => forall|j: int| 0 <= j < N ==> self.names()[j] != symbol@,
            },
    {
        let found = find_symbol(&self.symbols, symbol);
        match found {
            Some(symbol_index) => {
                let raw_lib = SnapshotSlot::new(self.inner.load());
                Some(ReloadableSymbol { symbol_index, reloadable_lib: self, raw_lib, _marker: PhantomData })
            },
            None => None,
        }
    }

    /// Installs a new snapshot, built from a fresh copy of the module (`None`
    /// when it could not be opened) and the result of resolving each required
    /// name in it. On failure the current snapshot stays as it was and the copy
    /// is released. The previous snapshot is released once its last user lets go.
    /// Concurrent reloads need no lock: the one installed last stays current, and
    /// one overtaken by another still reports success, its work having been valid.
    pub fn reload(&self, lib: Option<M>, resolved: Vec<Option<usize>>) -> (r: Result<(), LoadError>)
        requires
            lib is Some ==> resolved@.len() == N,
        ensures
            r is Ok <==> lib is Some && all_resolved(resolved@),
            r is Err ==> load_error_fits(r->Err_0, lib is Some, self.names(), resolved@),
    {
        let next = Inner::new(lib, &self.symbols, resolved);
        match next {
            Ok(inner) => {
                self.inner.store(Arc::new(inner));
                Ok(())
            },
            Err(e) => Err(e),
        }
    }
}

/// Access to one symbol of a [`ReloadableLibrary`], by its position among the
/// required names, that follows reloads. It keeps the snapshot it saw last.
#[verifier::reject_recursive_types(M)]
pub struct ReloadableSymbol<'a, T, M, const N: usize> {
    symbol_index: usize,
    reloadable_lib: &'a ReloadableLibrary<M, N>,
    raw_lib: SnapshotSlot<M, N>,
    _marker: PhantomData<T>,
}

impl<'a, T, M, const N: usize> ReloadableSymbol<'a, T, M, N> {
    #[verifier::type_invariant]
    spec fn well_formed(self) -> bool {
        self.symbol_index < N
    }

    /// Position of the symbol among the required names.
    pub closed spec fn index(&self) -> usize {
        self.symbol_index
    }

    /// Position of the symbol among the required names.
    pub fn position(&self) -> (r: usize)
        ensures
            r == self.index(),
    {
        self.symbol_index
    }

    /// Pins the snapshot that is current at this instant and gives the symbol's
    /// address in it. When that snapshot differs from the one kept, it replaces it.
    pub fn get_loaded(&self) -> (r: LoadedSymbol<T, M, N>)
        ensures
            r.index() == self.index(),
    {
        proof { use_type_invariant(self); }
        let my_lib = self.raw_lib.load();
        let other_lib = self.reloadable_lib.inner.load();
        let lib = if !same_snapshot(&my_lib, &other_lib) {
            self.raw_lib.store(Arc::clone(&other_lib));
            other_lib
        } else {
            my_lib
        };
        LoadedSymbol::new(lib, self.symbol_index)
    }
}

/// A symbol's address together with a strong reference to the snapshot it was
/// resolved in, which keeps that snapshot's module loaded for as long as this
/// guard lives, whatever reloads happen meanwhile.
pub struct LoadedSymbol<T, M, const N: usize> {
    _lib: Arc<Inner<M, N>>,
    index: usize,
    symbol: RawSymbol<T>,
}

impl<T, M, const N: usize> LoadedSymbol<T, M, N> {
    #[verifier::type_invariant]
    spec fn well_formed(self) -> bool {
        &&& self.index < N
        &&& self.symbol.addr() == self._lib.addresses()[self.index as int]
    }

    /// Position of the symbol among the required names.
    pub closed spec fn index(&self) -> usize {
        self.index
    }

    /// The addresses of the pinned snapshot, one per required name.
    pub closed spec fn pinned(&self) -> Seq<usize> {
        self._lib.addresses()
    }

    /// Pins `lib` and takes the address at `index` in it.
    pub fn new(lib: Arc<Inner<M, N>>, index: usize) -> (r: Self)
        requires
            index < N,
        ensures
            r.index() == index,
            r.pinned() == lib.addresses(),
    {
        let symbol = RawSymbol::from_ptr(lib.pointer(index));
        LoadedSymbol { _lib: lib, index, symbol }
    }

    /// The symbol's address in the pinned snapshot.
    pub fn address(&self) -> (r: usize)
        ensures
            r == self.pinned()[self.index() as int],
    {
        proof { use_type_invariant(self); }
        self.symbol.address()
    }

    /// The symbol in its raw form, valid while this guard lives.
    pub fn raw(&self) -> (r: &RawSymbol<T>)
        ensures
            r.addr() == self.pinned()[self.index() as int],
    {
        proof { use_type_invariant(self); }
        &self.symbol
    }
}

} // verus!
