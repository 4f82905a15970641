//! Resolution of the filesystem location of a named external executable.
//!
//! Given a logical tool name such as `cargo`, the resolver tries, in strict
//! priority order: an environment-variable override (the name uppercased),
//! the bare name on the process search path, and finally
//! `<home>/.cargo/bin/<name>`. Each candidate must pass a validation trial
//! before it is returned. The decision logic is verified here; reading the
//! environment and spawning the trial process are left to the caller, who
//! drives a [`resolver::Resolver`] step by step.

pub mod error;
pub mod fallback;
pub mod resolver;
pub mod upper;
