//! Entity references and the compilation driver of a code generator.
//!
//! The intermediate representation of a function refers to its blocks,
//! values, instructions and preamble tables through small typed indices
//! rather than pointers. This crate defines those references, their textual
//! form and a compact optional encoding ([`ir::entities`], [`entity_ref`],
//! [`packed_option`], [`decimal`]).
//!
//! It also holds the part of the compilation pipeline that decides: the
//! [`context`] says which pass runs next and what an operation reports, and
//! [`filetest`] plans the runs of the tests that a test file asks for. The
//! passes, the parser and the tests themselves are not here; the crate
//! works on what they report.
//!
//! Every function is verified against its contract, and none of them
//! panics. Where a function has a `requires` clause, the caller answers for
//! it.

pub mod context;
pub mod decimal;
pub mod entity_ref;
pub mod filetest;
pub mod ir;
pub mod isa;
pub mod packed_option;
pub mod result;
pub mod settings;
