use vstd::prelude::*;

use crate::frontend::lexer::token::Location;

verus! {

/// The kinds of error that the front end reports.
#[derive(Debug, PartialEq, Eq)]
pub enum Error {
    /// The input ended inside a parse unit.
    UnexpectedEOF,
    /// A token that cannot stand where it was found, with its text.
    UnexpectedToken(String),
    /// Something was expected (first) after a construct (second).
    ExpectedItem(String, String),
    /// A linkage specifier that names no known linkage, with its text.
    InvalidExternalSpecifier(String),
}

/// What an `Error` stands for.
pub enum ErrorView {
    UnexpectedEOF,
    UnexpectedToken(Seq<char>),
    ExpectedItem(Seq<char>, Seq<char>),
    InvalidExternalSpecifier(Seq<char>),
}

impl View for Error {
    type V = ErrorView;

    open spec fn view(&self) -> ErrorView {
        match self {
            Error::UnexpectedEOF => ErrorView::UnexpectedEOF,
            Error::UnexpectedToken(text) => ErrorView::UnexpectedToken(text@),
            Error::ExpectedItem(what, after) => ErrorView::ExpectedItem(what@, after@),
            Error::InvalidExternalSpecifier(text) => ErrorView::InvalidExternalSpecifier(text@),
        }
    }
}

impl Clone for Error {
    fn clone(&self) -> (res: Error)
        ensures
            res == *self,
    {
        match self {
            Error::UnexpectedEOF => Error::UnexpectedEOF,
            Error::UnexpectedToken(text) => Error::UnexpectedToken(text.clone()),
            Error::ExpectedItem(what, after) => Error::ExpectedItem(what.clone(), after.clone()),
            Error::InvalidExternalSpecifier(text) => Error::InvalidExternalSpecifier(text.clone()),
        }
    }
}

/// Free-text remarks that may go with an error. Each one may be absent.
#[derive(Debug, PartialEq, Eq)]
pub struct ErrorInfo {
    pub help: Option<String>,
    pub info: Option<String>,
    pub note: Option<String>,
    pub see: Option<String>,
}

/// What an `ErrorInfo` stands for.
pub struct ErrorInfoView {
    pub help: Option<Seq<char>>,
    pub info: Option<Seq<char>>,
    pub note: Option<Seq<char>>,
    pub see: Option<Seq<char>>,
}

/// The characters of a text that may be absent.
pub open spec fn text_view(text: Option<String>) -> Option<Seq<char>> {
    match text {
        Some(s) => Some(s@),
        None => None,
    }
}

fn clone_text(text: &Option<String>) -> (res: Option<String>)
    ensures
        res == *text,
{
    match text {
        Some(s) => Some(s.clone()),
        None => None,
    }
}

impl View for ErrorInfo {
    type V = ErrorInfoView;

    open spec fn view(&self) -> ErrorInfoView {
        ErrorInfoView {
            help: text_view(self.help),
            info: text_view(self.info),
            note: text_view(self.note),
            see: text_view(self.see),
        }
    }
}

impl ErrorInfoView {
    /// The remarks with every field absent.
    pub open spec fn empty() -> ErrorInfoView {
        ErrorInfoView { help: None, info: None, note: None, see: None }
    }
}

impl Default for ErrorInfo {
    fn default() -> (info: ErrorInfo)
        ensures
            info@ == ErrorInfoView::empty(),
    {
        ErrorInfo { help: None, info: None, note: None, see: None }
    }
}

impl Clone for ErrorInfo {
    fn clone(&self) -> (res: ErrorInfo)
        ensures
            res == *self,
    {
        ErrorInfo {
            help: clone_text(&self.help),
            info: clone_text(&self.info),
            note: clone_text(&self.note),
            see: clone_text(&self.see),
        }
    }
}

/// What a `CompileError` stands for.
pub struct CompileErrorView {
    pub kind: ErrorView,
    pub location: Location,
    pub info: Option<ErrorInfoView>,
}

/// One diagnostic: what went wrong, where, and the remarks on it, if any.
#[derive(Debug, PartialEq, Eq)]
pub struct CompileError {
    kind: Error,
    location: Location,
    info: Option<ErrorInfo>,
}

impl View for CompileError {
    type V = CompileErrorView;

    closed spec fn view(&self) -> CompileErrorView {
        CompileErrorView {
            kind: self.kind@,
            location: self.location,
            info: match self.info {
                Some(info) => Some(info@),
                None => None,
            },
        }
    }
}

impl Clone for CompileError {
    fn clone(&self) -> (res: CompileError)
        ensures
            res == *self,
    {
        CompileError {
            kind: self.kind.clone(),
            location: self.location,
            info: match &self.info {
                Some(info) => Some(info.clone()),
                None => None,
            },
        }
    }
}

impl CompileError {
    /// A diagnostic without remarks.
    pub fn new(kind: Error, location: Location) -> (error: CompileError)
        ensures
            error@ == (CompileErrorView { kind: kind@, location, info: None }),
    {
        CompileError { kind, location, info: None }
    }

    /// The same diagnostic with the given remarks in place of any it had.
    pub fn with_info(self, info: ErrorInfo) -> (error: CompileError)
        ensures
            error@ == (CompileErrorView { info: Some(info@), ..self@ }),
    {
        CompileError { kind: self.kind, location: self.location, info: Some(info) }
    }

    pub fn get_kind(&self) -> (kind: &Error)
        ensures
            kind@ == self@.kind,
    {
        &self.kind
    }

    pub fn get_location(&self) -> (location: Location)
        ensures
            location == self@.location,
    {
        self.location
    }

    pub fn get_info(&self) -> (info: Option<&ErrorInfo>)
        ensures
            info is Some <==> self@.info is Some,
            info matches Some(i) ==> self@.info == Some(i@),
    {
        self.info.as_ref()
    }
}

/// The views of a run of diagnostics, one for one.
pub open spec fn error_views(errors: Seq<CompileError>) -> Seq<CompileErrorView> {
    errors.map_values(|e: CompileError| e@)
}

/// The diagnostics of one parser, in the order in which they were reported.
/// Diagnostics are only ever added.
#[derive(Debug)]
pub struct Reports {
    errors: Vec<CompileError>,
}

impl View for Reports {
    type V = Seq<CompileErrorView>;

    closed spec fn view(&self) -> Seq<CompileErrorView> {
        error_views(self.errors@)
    }
}

impl Reports {
    pub fn new() -> (reports: Reports)
        ensures
            reports@ == Seq::<CompileErrorView>::empty(),
    {
        Reports { errors: Vec::new() }
    }

    /// Appends one diagnostic.
    pub fn add_error(&mut self, error: CompileError)
        ensures
            final(self)@ == old(self)@.push(error@),
    {
        self.errors.push(error);
    }

    pub fn get_errors(&self) -> (errors: &Vec<CompileError>)
        ensures
            error_views(errors@) == self@,
    {
        &self.errors
    }

    pub fn has_errors(&self) -> (some: bool)
        ensures
            some == (self@.len() > 0),
    {
        self.errors.len() > 0
    }
}

} // verus!
