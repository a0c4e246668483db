//! A converter for the function pages of the PHP manual.
//!
//! Each page is one DocBook document. The converter turns it into a [`Function`]: either the
//! definition of a function, with its name, its full signature and its description in typed
//! pieces, or an alias that only points to another function. A construct that the converter
//! has no rule for fails the document; nothing is dropped in silence.
//!
//! The markup is parsed and queried by libxml2 ([`document`]). What a query matches is copied
//! into plain [`MarkupNode`] values, and everything after that is decided on those values:
//! types ([`type_hint`]), parameters and signatures ([`function`]), descriptions ([`text`]) and
//! the assembly of the entry ([`parser`]). Around the converter stand the recording of a batch
//! of documents ([`batch`]), the clean-up of entity references before parsing ([`entities`]),
//! and the rules of a terminal browser for the entries ([`browser`], [`tui`], [`cli`]).

pub mod batch;
pub mod browser;
pub mod cli;
pub mod document;
pub mod entities;
pub mod error;
pub mod function;
pub mod markup;
pub mod parser;
pub mod strings;
pub mod text;
pub mod tui;
pub mod type_hint;

pub use crate::error::XmlError;
pub use crate::function::{Function, FunctionDefinition, Parameter};
pub use crate::markup::MarkupNode;
pub use crate::parser::XmlParser;
pub use crate::text::TextNode;
pub use crate::type_hint::{TypeHint, UnionTypeHint};
