//! Propositional boolean expressions as trees, with substitution of a truth
//! value for a variable, a query for the first unbound variable, and a
//! bottom-up pass of constant folding.
//!
//! Every operation is pure and structurally recursive. Their contracts are
//! stated over the tree itself, read as a mathematical value: the sequence of
//! its variable occurrences ([`Expr::variables`]) and its truth value under
//! an assignment ([`Expr::eval`]).

pub mod expr;
pub mod substitute;
pub mod simplify;

pub use expr::Expr;
