//! A query engine over parsed Solidity syntax trees, together with a few
//! smaller verified components that grew alongside it.
//!
//! The heart of the crate is in [`ast`], [`identifier`], [`classify`] and
//! [`traverse`]: every node of a parsed tree is classified into a closed
//! taxonomy of kinds, and a search walks the tree depth-first collecting, in
//! pre-order, every node whose kind lies in a caller-supplied target set.

pub mod ast;
pub mod basics;
pub mod chess;
pub mod classify;
pub mod combiner;
pub mod generics;
pub mod guessing;
pub mod identifier;
pub mod laws;
pub mod rectangles;
pub mod restaurant;
pub mod summaries;
pub mod targets;
pub mod text;
pub mod traverse;
