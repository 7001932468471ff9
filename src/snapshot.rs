use vstd::prelude::*;
use crate::error::LoadError;

verus! {

/// Every symbol resolved.
pub open spec fn all_resolved(resolved: Seq<Option<usize>>) -> bool {
    forall|i: int| 0 <= i < resolved.len() ==> resolved[i] is Some
}

/// `k` is the first symbol that did not resolve.
pub open spec fn is_first_missing(resolved: Seq<Option<usize>>, k: int) -> bool {
    &&& 0 <= k < resolved.len()
    &&& resolved[k] is None
    &&& forall|j: int| 0 <= j < k ==> resolved[j] is Some
}

/// The names of `symbols`, as character sequences.
pub open spec fn names_of<const N: usize>(symbols: [String; N]) -> Seq<Seq<char>> {
    symbols@.map_values(|s: String| s@)
}

/// `e` is the error owed when building fails: the module did not open, or else
/// the first name that did not resolve.
pub open spec fn load_error_fits(
    e: LoadError,
    has_module: bool,
    names: Seq<Seq<char>>,
    resolved: Seq<Option<usize>>,
) -> bool {
    if !has_module {
        e == LoadError::ModuleNotFound
    } else {
        exists|k: int|
            #![trigger resolved[k]]
            is_first_missing(resolved, k) && (e matches LoadError::SymbolNotFound(name) && name@ == names[k])
    }
}

/// One immutable version of a module: the module itself, which is released when
/// the snapshot is dropped, and the address of each of the `N` required symbols,
/// in the order of the names.
pub struct Inner<M, const N: usize> {
    _lib: M,
    pointers: Vec<usize>,
}

impl<M, const N: usize> Inner<M, N> {
    #[verifier::type_invariant]
    spec fn well_formed(self) -> bool {
        self.pointers@.len() == N
    }

    /// The resolved addresses, one per symbol name.
    pub closed spec fn addresses(&self) -> Seq<usize> {
        self.pointers@
    }

    /// Builds a snapshot from an opened module (`None` when opening failed) and
    /// the result of resolving each name of `symbols` in it. Nothing partial is
    /// ever produced: on failure the module is dropped, and with it released.
    pub fn new(lib: Option<M>, symbols: &[String; N], resolved: Vec<Option<usize>>) -> (r: Result<Self, LoadError>)
        requires
            lib is Some ==> resolved@.len() == N,
        ensures
            r is Ok <==> lib is Some && all_resolved(resolved@),
            r is Ok ==> forall|i: int| 0 <= i < N ==> resolved@[i] == Some(r->Ok_0.addresses()[i]),
            r is Err ==> load_error_fits(r->Err_0, lib is Some, names_of(*symbols), resolved@),
            lib is Some && !all_resolved(resolved@) ==> r matches Err(LoadError::SymbolNotFound(_)),
    {
        let module = match lib {
            Some(l) => l,
            None => return Err(LoadError::ModuleNotFound),
        };
        let mut pointers: Vec<usize> = Vec::new();
        let mut i: usize = 0;
        while i < N
            invariant
                i <= N,
                lib is Some,
                resolved@.len() == N,
                pointers@.len() == i,
                forall|j: int| 0 <= j < i ==> resolved@[j] == Some(pointers@[j]),
            decreases N - i,
        {
            match resolved[i] {
                Some(p) => pointers.push(p),
                None => {
                    assert(is_first_missing(resolved@, i as int));
                    assert(names_of(*symbols)[i as int] == symbols@[i as int]@);
                    return Err(LoadError::SymbolNotFound(symbols[i].clone()));
                },
            }
            i = i + 1;
        }
        Ok(Inner { _lib: module, pointers })
    }

    /// Address of the symbol at `index`.
    pub fn pointer(&self, index: usize) -> (r: usize)
        requires
            index < N,
        ensures
            r == self.addresses()[index as int],
    {
        proof { use_type_invariant(self); }
        self.pointers[index]
    }
}

} // verus!
