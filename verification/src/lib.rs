//! A zero-knowledge proof layer for five-letter word-guess feedback.
//!
//! A prover holds a hidden five-letter word. For each guess it reports,
//! per position, whether the guessed letter occurs anywhere in the word
//! and whether it sits at the right position, and it produces a succinct
//! proof that this feedback was computed honestly, without revealing the
//! word. The feedback predicates are compiled into a fixed rank-1
//! constraint system (R1CS); the Spartan backend proves and verifies
//! satisfiability of that system.

pub mod errors;
pub mod game;
pub mod encode;
pub mod circuit;
pub mod witness;
pub mod backend;
pub mod orchestrate;
