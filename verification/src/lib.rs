//! Query-compilation and instruction-encoding layer of a register-based,
//! unification-oriented abstract machine.
//!
//! The crate provides a closed, non-branching instruction set
//! ([`operation::Operation`]), a small assembler that collects instructions
//! into an immutable program ([`program::Program`]), and a query builder
//! that compiles a term tree into such a program register by register
//! ([`query::QueryBuilder`]).

pub mod operation;
pub mod program;
pub mod query;
