use vstd::prelude::*;

verus! {

/// Why a snapshot of a module could not be built.
#[derive(Debug, PartialEq, Eq)]
pub enum LoadError {
    /// The native module could not be opened.
    ModuleNotFound,
    /// A required symbol did not resolve; holds its name.
    SymbolNotFound(String),
}

} // verus!
