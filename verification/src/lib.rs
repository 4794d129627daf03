//! Registration bridge between native code and a dynamically typed runtime.
//!
//! Native functions of several shapes are turned into one uniform callable,
//! stored in a function table under a name and a signature, and looked up
//! again by the types of the arguments of a call.
pub mod dynamic;
pub mod error;
pub mod variant;
pub mod native;
pub mod module;
pub mod engine;
pub mod api;
pub mod packages;
