//! The permission schema: a tree of named nodes and its notation, its compiled
//! form, the codec between structured permission paths and dotted strings, and
//! the description of the tree for tooling.

pub mod codec;
pub mod compiled;
pub mod depends;
pub mod describe;
pub mod lexer;
pub mod node;
pub mod notation;
pub mod validate;
