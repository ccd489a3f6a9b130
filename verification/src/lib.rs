//! A source-code formatter core: a document model, the layout engine that
//! renders it under a line-width budget, and the printers that turn a syntax
//! tree into documents.

pub mod ast;
pub mod doc;
pub mod format;
pub mod laws;
pub mod layout;
pub mod node;
pub mod operator;
pub mod options;
pub mod printer;
pub mod session;
pub mod worklist;

pub use crate::doc::{Doc, Separator};
pub use crate::node::Format;
pub use crate::options::PrettierOptions;
pub use crate::session::Prettier;
