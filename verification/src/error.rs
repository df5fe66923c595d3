//! Contains all different error kinds / types and some utilities.

use crate::source::FileId;
use crate::span::{Locatable, Span};
use vstd::prelude::*;

verus! {

/// What parsing hands back: a value, or a syntax error tied to where
/// it happened.
pub type ParseResult<T> = Result<T, Locatable<SyntaxError>>;

/// How severe a diagnostic is.
#[derive(Debug, Clone, Copy, PartialEq, Eq, Structural)]
pub enum Severity {
    Error,
    Warning,
}

/// A secondary note of a diagnostic, tied to its own location.
#[derive(Debug, Clone)]
pub struct Label {
    pub location: Locatable<()>,
    pub note: String,
}

/// A diagnostic: a message of some severity with a primary location and
/// any number of secondary labels. Rendering it for a terminal is the
/// concern of whatever consumes the collector's buffers.
#[derive(Debug, Clone)]
pub struct Diagnostic {
    pub severity: Severity,
    pub message: String,
    pub primary: Locatable<()>,
    pub labels: Vec<Label>,
}

/// Any error that can happen during parsing.
#[derive(Debug, Clone)]
pub enum SyntaxError {
    /// A byte sequence that matches no lexical category.
    UnrecognizedToken,
}

/// The central error enum which can be **any** error generated
/// by the compiler.
#[derive(Debug, Clone)]
pub enum Error {
    Syntax(SyntaxError),
}

/// Trait to represent anything that can be turned into a [`Diagnostic`]
/// using a file and a span.
pub trait IntoDiagnostic: Sized {
    /// Turns `self` into a [`Diagnostic`].
    fn into_diagnostic(self, span: Span, file: FileId) -> Diagnostic;
}

impl IntoDiagnostic for SyntaxError {
    fn into_diagnostic(self, span: Span, file: FileId) -> Diagnostic {
        match self {
            SyntaxError::UnrecognizedToken => Diagnostic {
                severity: Severity::Error,
                message: "unrecognized token".to_owned(),
                primary: Locatable::new((), file, span),
                labels: Vec::new(),
            },
        }
    }
}

impl IntoDiagnostic for Error {
    fn into_diagnostic(self, span: Span, file: FileId) -> Diagnostic {
        match self {
            Error::Syntax(err) => err.into_diagnostic(span, file),
        }
    }
}

impl<T: IntoDiagnostic> Locatable<T> {
    /// Turns this located value into a [`Diagnostic`] at its own file
    /// and span.
    pub fn into_diagnostic(self) -> Diagnostic {
        let (data, file, span) = self.destruct();
        data.into_diagnostic(span, file)
    }
}

/// A collection of errors and / or warnings.
///
/// Records accumulate in insertion order, are never dropped silently,
/// and leave only when drained by [`ErrorHandler::take_errors`] or
/// [`ErrorHandler::take_warnings`].
pub struct ErrorHandler {
    errors: Vec<Locatable<Error>>,
    warnings: Vec<Diagnostic>,
}

impl ErrorHandler {
    /// The errors recorded and not yet drained, in insertion order.
    pub closed spec fn errors_spec(&self) -> Seq<Locatable<Error>> {
        self.errors@
    }

    /// The warnings recorded and not yet drained, in insertion order.
    pub closed spec fn warnings_spec(&self) -> Seq<Diagnostic> {
        self.warnings@
    }

    /// Appends an error to the list of errors.
    pub fn error(&mut self, error: Locatable<Error>)
        ensures
            final(self).errors_spec() == old(self).errors_spec().push(error),
            final(self).warnings_spec() == old(self).warnings_spec(),
    {
        self.errors.push(error)
    }

    /// Appends a warning to the list of warnings.
    pub fn warning(&mut self, warn: Diagnostic)
        ensures
            final(self).warnings_spec() == old(self).warnings_spec().push(warn),
            final(self).errors_spec() == old(self).errors_spec(),
    {
        self.warnings.push(warn)
    }

    /// Takes all errors out of this error handler and returns them.
    ///
    /// The buffer is swapped for an empty one, so a second call right
    /// after returns nothing.
    pub fn take_errors(&mut self) -> (r: Vec<Locatable<Error>>)
        ensures
            r@ == old(self).errors_spec(),
            final(self).errors_spec().len() == 0,
            final(self).warnings_spec() == old(self).warnings_spec(),
    {
        let mut r: Vec<Locatable<Error>> = Vec::new();
        core::mem::swap(&mut r, &mut self.errors);
        r
    }

    /// Takes all warnings out of this error handler and returns them.
    ///
    /// The buffer is swapped for an empty one, so a second call right
    /// after returns nothing.
    pub fn take_warnings(&mut self) -> (r: Vec<Diagnostic>)
        ensures
            r@ == old(self).warnings_spec(),
            final(self).warnings_spec().len() == 0,
            final(self).errors_spec() == old(self).errors_spec(),
    {
        let mut r: Vec<Diagnostic> = Vec::new();
        core::mem::swap(&mut r, &mut self.warnings);
        r
    }
}

impl Default for ErrorHandler {
    /// A collector with both buffers empty.
    fn default() -> (r: Self)
        ensures
            r.errors_spec().len() == 0,
            r.warnings_spec().len() == 0,
    {
        ErrorHandler { errors: Vec::new(), warnings: Vec::new() }
    }
}

} // verus!
