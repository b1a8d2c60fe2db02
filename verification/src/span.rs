use vstd::prelude::*;

verus! {

/// One endpoint of a source range: byte offset from the start of the file,
/// 1-indexed line number, and 1-indexed column number.
#[derive(Clone, Debug, PartialEq, Eq, Copy)]
pub struct ErrorLocation {
    pub byte: usize,
    pub line: usize,
    pub column: usize,
}

/// Mathematical value of an [`ErrorLocation`].
pub struct ErrorLocationV {
    pub byte: nat,
    pub line: nat,
    pub column: nat,
}

impl View for ErrorLocation {
    type V = ErrorLocationV;

    open spec fn view(&self) -> ErrorLocationV {
        ErrorLocationV { byte: self.byte as nat, line: self.line as nat, column: self.column as nat }
    }
}

/// A source range: the file it comes from plus its two endpoints.
/// Every extracted fact carries one of these for diagnostics.
#[derive(Debug, PartialEq, Eq)]
pub struct Span {
    pub path: String,
    pub start: ErrorLocation,
    pub end: ErrorLocation,
}

/// Mathematical value of a [`Span`].
pub struct SpanV {
    pub path: Seq<char>,
    pub start: ErrorLocationV,
    pub end: ErrorLocationV,
}

impl View for Span {
    type V = SpanV;

    open spec fn view(&self) -> SpanV {
        SpanV { path: self.path@, start: self.start@, end: self.end@ }
    }
}

impl Clone for Span {
    fn clone(&self) -> (r: Self)
        ensures
            r@ == self@,
    {
        Span { path: self.path.clone(), start: self.start, end: self.end }
    }
}

} // verus!
