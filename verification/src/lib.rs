//! Builtin presets: named bundles of option values for a command-line
//! text-formatting tool.
//!
//! A preset maps option names to value functions. A value function computes
//! one option's value from the options resolved so far and, where it declares
//! a configuration key, from an external key-value configuration, which takes
//! precedence over the function's own fallback.
//!
//! - [`cli`]: the options that presets can set and the snapshot of their values.
//! - [`git_config`]: the key-value configuration.
//! - [`preset`]: value functions, the builtin presets, and the lookup of a value
//!   function by the type of the option's value.
//! - [`resolve`]: applying presets to the snapshot in the order requested.

pub mod cli;
pub mod git_config;
pub mod preset;
pub mod resolve;
