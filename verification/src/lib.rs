//! Symbolication of crash-report stack frames: module offsets in, function
//! names out.
//!
//! A request names the modules of a crashed process and lists stack frames
//! as pairs of a module index and an address inside that module. The library
//! turns each pair into the name of the function at that address, looked up
//! in the module's Breakpad symbol file, and says for each module whether
//! all of its addresses could be named.

use vstd::prelude::*;

pub mod config;
pub mod coordinator;
pub mod fetch;
pub mod hex;
pub mod module_key;
pub mod resolve;
pub mod server;
pub mod stack_map;
pub mod symbols;

pub use crate::config::get_config;
pub use crate::coordinator::client;
pub use crate::server::server;
pub use crate::stack_map::stacks_to_stack_map;

verus! {

/// A decoded symbolication request.
#[allow(non_snake_case)]
#[derive(Debug)]
pub struct SymbolRequest {
    /// The modules of the process: debug file name and debug identifier.
    /// A frame's module index is a position in this list.
    pub memoryMap: Vec<(String, String)>,
    /// Lists of frames, each a module index and an address. The index `-1`
    /// stands for "no known module".
    pub stacks: Vec<Vec<(i8, u64)>>,
    /// The version of the protocol that the sender speaks.
    pub version: u8,
}

/// The answer to a [`SymbolRequest`].
#[allow(non_snake_case)]
#[derive(Debug)]
pub struct SymbolResponse {
    /// One list of texts, one text per frame that was symbolicated.
    pub symbolicatedStacks: Vec<Vec<String>>,
    /// One flag per module of the request's memory map, in its order.
    pub knownModules: Vec<bool>,
}

} // verus!
