//! A test harness for small command line programs, and the tools around it.
//!
//! The harness picks a package of a cargo workspace, builds it, lists the parameter files of its tests, and runs them:
//! [`worker`] goes through these stages, which are [`package`], [`discovery`], [`executable`], [`test`] and [`run`],
//! while [`spinner`] shows how far it is.
//!
//! [`result_fn`] rewrites a function so that it leaves the terminal's raw mode wherever a failure leaves the function
//! through a `?`, other than one in the arguments of a macro.
//!
//! [`wcat`] prints files.

pub mod discovery;
pub mod executable;
pub mod expand;
pub mod fallible;
pub mod outside;
pub mod package;
pub mod path;
pub mod result_fn;
pub mod run;
pub mod shape;
pub mod spinner;
pub mod syntax;
pub mod test;
pub mod text;
pub mod wcat;
pub mod worker;
