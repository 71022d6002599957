//! An owned, immutable CommonMark document tree (AST), built from the node
//! tree that an external CommonMark parsing engine reports.
//!
//! The engine itself (block and inline parsing) is an outside collaborator:
//! it hands over a tree of nodes, each with a kind tag and per-kind
//! attributes. This crate owns everything after that point: the
//! [`engine::EngineNode`] value type that holds such a report as plain data,
//! the converter that turns it into the owned [`ast::Node`] tree, and the
//! [`parser::Parser`] lifecycle around a parse.

pub mod ast;
pub mod convert;
pub mod engine;
pub mod parser;

pub use ast::Node;
pub use engine::EngineNode;
pub use parser::ParseError;
pub use parser::Parser;
