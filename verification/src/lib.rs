//! Static cost estimation for the patterns of a `match` construct.
//!
//! Every pattern node has a relative cost, a natural number computed from the
//! node's shape alone. A later pass may sort the clauses of a `match` by that
//! cost so that the cheap tests run first.

pub mod ast;
pub mod analyzer;
pub mod sums;
pub mod laws;
