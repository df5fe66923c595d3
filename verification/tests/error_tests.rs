use cell_front::error::{Error, IntoDiagnostic, SyntaxError};
use cell_front::{Diagnostic, ErrorHandler, File, Locatable, Severity, SourceDatabase, Span};

fn sample_location() -> (cell_front::FileId, Span) {
    let mut db = SourceDatabase::new();
    let id = db.intern_file(File::new("main.cl", "?"));
    (id, Span::new(0, 1))
}

#[test]
fn take_errors_drains_the_buffer() {
    let (file, span) = sample_location();
    let mut handler = ErrorHandler::default();
    handler.error(Locatable::new(Error::Syntax(SyntaxError::UnrecognizedToken), file, span));
    handler.error(Locatable::new(Error::Syntax(SyntaxError::UnrecognizedToken), file, span));
    let first = handler.take_errors();
    assert_eq!(first.len(), 2);
    let second = handler.take_errors();
    assert_eq!(second.len(), 0);
}

#[test]
fn take_warnings_drains_the_buffer() {
    let (file, span) = sample_location();
    let mut handler = ErrorHandler::default();
    let warning = Diagnostic {
        severity: Severity::Warning,
        message: String::from("unused variable"),
        primary: Locatable::new((), file, span),
        labels: Vec::new(),
    };
    handler.warning(warning);
    assert_eq!(handler.take_warnings().len(), 1);
    assert_eq!(handler.take_warnings().len(), 0);
}

#[test]
fn draining_errors_keeps_warnings() {
    let (file, span) = sample_location();
    let mut handler = ErrorHandler::default();
    handler.error(Locatable::new(Error::Syntax(SyntaxError::UnrecognizedToken), file, span));
    let warning = Diagnostic {
        severity: Severity::Warning,
        message: String::from("w"),
        primary: Locatable::new((), file, span),
        labels: Vec::new(),
    };
    handler.warning(warning);
    let _ = handler.take_errors();
    assert_eq!(handler.take_warnings().len(), 1);
}

#[test]
fn errors_come_back_in_insertion_order() {
    let (file, span) = sample_location();
    let other = Span::new(2, 3);
    let mut handler = ErrorHandler::default();
    handler.error(Locatable::new(Error::Syntax(SyntaxError::UnrecognizedToken), file, span));
    handler.error(Locatable::new(Error::Syntax(SyntaxError::UnrecognizedToken), file, other));
    let errors = handler.take_errors();
    assert_eq!(errors[0].span(), span);
    assert_eq!(errors[1].span(), other);
}

#[test]
fn a_syntax_error_becomes_an_error_diagnostic_at_its_location() {
    let (file, span) = sample_location();
    let diagnostic = SyntaxError::UnrecognizedToken.into_diagnostic(span, file);
    assert_eq!(diagnostic.severity, Severity::Error);
    assert_eq!(diagnostic.message, "unrecognized token");
    assert_eq!(diagnostic.primary.file(), file);
    assert_eq!(diagnostic.primary.span(), span);
    assert_eq!(diagnostic.labels.len(), 0);
}

#[test]
fn a_located_error_becomes_a_diagnostic_through_its_own_location() {
    let (file, span) = sample_location();
    let located = Locatable::new(Error::Syntax(SyntaxError::UnrecognizedToken), file, span);
    let diagnostic = located.into_diagnostic();
    assert_eq!(diagnostic.severity, Severity::Error);
    assert_eq!(diagnostic.primary.file(), file);
    assert_eq!(diagnostic.primary.span(), span);
}

#[test]
fn locatable_map_keeps_file_and_span() {
    let (file, span) = sample_location();
    let located = Locatable::new(7u32, file, span);
    assert_eq!(*located.data(), 7);
    assert_eq!(located.file(), file);
    let mapped = located.map(|x| x * 3);
    assert_eq!(*mapped.data(), 21);
    assert_eq!(mapped.file(), file);
    assert_eq!(mapped.span(), span);
    let (data, f, s) = mapped.destruct();
    assert_eq!(data, 21);
    assert_eq!(f, file);
    assert_eq!(s, span);
}
