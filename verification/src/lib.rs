//! Semantic core of a language server for a GPU shading language.
//!
//! - `type_ref`: the canonical model of a type.
//! - `syntax`, `lower`: a type as it is written, and its lowering to the model.
//! - `render`: the canonical spelling of a type.
//! - `layout`: size, alignment and member offsets under an address space.
//! - `param_names`, `inlay_hints`: hints for the parameters of resolved calls,
//!   for the types of bindings and for the offsets of struct members.
//! - `completions`: what is offered after a dot.
//! - `distribute`, `text`: how a release is named and packed.
//!
//! Every function is total on what its contract admits: none reads a file,
//! keeps state between calls, or fails in another way than its result says.

pub mod completions;
pub mod distribute;
pub mod inlay_hints;
pub mod layout;
pub mod lower;
pub mod param_names;
pub mod render;
pub mod syntax;
pub mod text;
pub mod type_ref;
