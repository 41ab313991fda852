//! The intermediate representation of a function.

pub mod entities;
