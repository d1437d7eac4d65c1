//! Formats and sequences the directives that a build script hands to cargo:
//! typed values, instructions with a namespace prefix, and an accumulator that
//! writes them at once or queues them until it is flushed.
pub mod cargo_rustc_link_lib;
pub mod cargo_rustc_link_search;
pub mod env;
pub mod instruction;
pub mod prefix;
pub mod script;
pub mod utils;
pub mod value;

pub use instruction::Instruction;
pub use prefix::Prefix;
pub use script::BuildScript;
pub use value::Value;
