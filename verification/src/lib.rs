//! Naming checks for declarations: whether the names of functions, of their
//! parameters, of structs and of their fields follow the expected casing, and
//! for each name that does not, a diagnostic with the name to use instead.
//!
//! - [`case_conv`] decides whether a name follows a convention and derives
//!   the name that does.
//! - [`database`] and [`syntax`] hold what the checks read: what the items of
//!   a program declare, and the syntax they were declared with.
//! - [`replacement`] is the unit of work between finding a name at fault and
//!   finding its place in the source.
//! - [`alignment`] matches the names at fault with the parameters or fields
//!   that the syntax shows, and [`agreement`] proves that it finds them all
//!   where declaration and syntax agree.
//! - [`decl_check`] validates one item and pushes what it finds into the
//!   sink of [`diagnostics`].

pub mod agreement;
pub mod alignment;
pub mod case_conv;
pub mod database;
pub mod decl_check;
pub mod diagnostics;
pub mod replacement;
pub mod syntax;
