//! Code emission for a cross-language binding generator: turns a list of
//! analysed foreign API items into the glue declarations that expose them.

pub mod names;
pub mod text;
pub mod model;
pub mod context;
pub mod emit_common;
pub mod errors;
pub mod bridge_types;
pub mod types;
pub mod subclass;
pub mod emit;
pub mod ns_tree;
pub mod assemble;
pub mod codegen;
