//! Verified core of a host binding layer for an embedded Lua runtime.
//!
//! The library states, on plain values, the protocol between a host program and the
//! runtime it embeds: the discipline of the value stack, how values read as host values,
//! how host closures become functions of the runtime, how host types become classes of
//! script objects, how modules are composed, which states a coroutine goes through while
//! the host drives it, and how errors travel in both directions.
//!
//! The interpreter itself is not part of the library. Whatever only it can do, compiling
//! a chunk or executing one, reaches the library as a value: the way a load ended, the
//! outcome of a call, a native function handed in as a closure. Whatever touches the
//! operating system stays with the host as well; the library decides what is asked of it
//! and what is made of the answer.

pub mod api;
pub mod coroutine;
pub mod engine;
pub mod error;
pub mod frame;
pub mod host;
pub mod manifest;
pub mod module;
pub mod os;
pub mod output;
pub mod registry;
pub mod script;
pub mod setup;
pub mod table;
pub mod text;
pub mod ty;
pub mod value;
