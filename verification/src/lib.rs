//! Source-position and lexical substrate for a compiler front end.
//!
//! The crate turns raw source text into stable interned file handles,
//! byte-offset / line indices for diagnostics, classified token
//! sequences with exact byte spans, and interned string keys.

pub mod ast;
pub mod error;
pub mod lexer;
pub mod line_index;
pub mod profiler;
pub mod source;
pub mod span;
pub mod strings;
pub mod syntax_kind;
pub mod text;
pub mod token;

pub use error::{Diagnostic, ErrorHandler, Label, Severity};
pub use source::{File, FileId, SourceDatabase};
pub use span::{Index, Locatable, Span, Spanned};
pub use strings::{StringId, StringInterner};
pub use token::{lex, Kind, Token};
