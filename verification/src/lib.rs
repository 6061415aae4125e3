//! A small-step CEK (Control / Environment / Kontinuation) machine for a
//! lambda calculus extended with integer and boolean literals, `let`-binding,
//! conditionals, and fuel-bounded fixpoint recursion.
//!
//! The machine's single-step transition is a total, deterministic function
//! over states; the driver iterates it to a terminal state under a caller
//! supplied step bound.

pub mod ast;
pub mod driver;
pub mod machine;
