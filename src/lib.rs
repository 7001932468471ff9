//! Reloadable native modules: a lock-free, reference-counted "current snapshot"
//! of one loaded module and the addresses of a fixed, ordered list of symbols.
mod error;
mod names;
mod snapshot;
mod slot;
mod symbol;
mod reloadable;

pub use error::LoadError;
pub use names::{find_symbol, is_first_match, lemma_duplicates_reach_first};
pub use snapshot::{all_resolved, is_first_missing, load_error_fits, names_of, Inner};
pub use symbol::{RawSymbol, Symbol};
pub use reloadable::{LoadedSymbol, ReloadableLibrary, ReloadableSymbol};
