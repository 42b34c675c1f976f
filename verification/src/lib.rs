//! Compile-time transformation engine for canister entry points.
//!
//! Given a model of a function signature, a method kind, and a resolved
//! configuration, this library validates the combination and produces the
//! text of a replacement entry point: a zero-argument exported function that
//! decodes arguments, runs an optional guard, invokes the original body, and
//! encodes the result — or a located diagnostic explaining why the entry
//! point cannot be generated.

pub mod config;
pub mod diag;
pub mod generate;
pub mod method;
pub mod names;
pub mod render;
pub mod signature;
pub mod text;

pub use method::MethodType;
