//! Bookkeeping of declarations that have not been referenced yet, so that a
//! diagnostics stage can warn about unused imports, functions, structs,
//! traits and type aliases.

pub mod ast;
pub mod laws;
pub mod pairs;
pub mod usage_tracker;

pub use ast::{FuncId, Ident, ItemVisibility, ModuleId, Span, StructId, TraitId, TypeAliasId};
pub use usage_tracker::{ModuleUnusedItems, UnusedEntry, UnusedItem, UsageTracker};
