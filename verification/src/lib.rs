//! Extraction of full definitions from a compiler session.
//!
//! The library works on a [`tcx::TyCtxt`]: a table that holds, as plain values, what the compiler
//! answers about the definitions of a program. From it the library assembles a
//! [`full_def::FullDef`] for each definition.
pub mod body;
pub mod cache;
pub mod caching_laws;
pub mod children;
pub mod children_laws;
pub mod convert;
pub mod def_id;
pub mod def_laws;
pub mod export_laws;
pub mod full_def;
pub mod full_def_spec;
pub mod item_laws;
pub mod lookup;
pub mod number;
pub mod queries;
pub mod query_laws;
pub mod rustc_utils;
pub mod simple_kinds;
pub mod span;
pub mod state;
pub mod tcx;
mod tcx_check;
pub mod traits;
pub mod ty;
pub mod uniqueness;

