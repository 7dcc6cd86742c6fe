//! Structural eligibility classifier for a bitwise-copy capability.
//!
//! Given the structural kind of a type (tuple, array, closure, and so on),
//! the capability under test, and the binder context in scope, the classifier
//! emits at most one program clause into a clause builder: an unconditional
//! fact, or a conditional clause whose subgoals require the capability on the
//! type's components.

pub mod clauses;
pub mod copy;
pub mod db;
pub mod laws;
pub mod ty;
