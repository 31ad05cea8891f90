//! Compile-time binding generator for the Ring embeddable runtime.
//!
//! The generator turns typed function, struct and method declarations into
//! glue code that exposes them to the runtime's untyped calling convention.
//! Its heart is type-directed marshalling: a classifier turns a type's
//! textual spelling into a shape, and a binder and a return synthesizer turn
//! shapes into the checks, extractions and conversions a wrapper needs.

pub mod abi;
pub mod assemble;
pub mod binder;
pub mod boundary;
pub mod classify;
pub mod decl;
pub mod extract;
pub mod fragments;
pub mod grammar;
pub mod handle;
pub mod names;
pub mod process;
pub mod retsyn;
pub mod strutil;
