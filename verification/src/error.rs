use vstd::prelude::*;

use crate::ir_items::Name;
use crate::ir_types::RefKind;
use crate::span::{Span, SpanV};

verus! {

/// The closed error taxonomy of the extraction pipeline. Every condition
/// carries the span it arose at, where one exists.
#[derive(Debug, PartialEq, Eq)]
pub enum Error {
    /// Failure reading the source; raised by the surrounding driver.
    Io(String),
    /// Failure in the underlying syntax parse; raised by the surrounding driver.
    Parse(String),
    /// Generic parameters where none are permitted.
    GenericsNotPermitted(Span),
    /// An expected associated-type binding was not found.
    BindingNotFound(Span, Name),
    /// An associated-type binding where none was expected.
    BindingNotExpected(Span),
    /// A struct whose fields are neither all public nor all private.
    MixedPublicPrivateFields(Span),
    /// A syntactically unrecognized item.
    UnrecognizedItem(Span),
    /// A recognized type applied to the wrong number of arguments.
    UnsupportedNumberOfArguments(Span, usize, usize),
    /// An unsupported item.
    UnsupportedItem(Span),
    /// A receiver other than `self`, `&self` or `&mut self`.
    ExplicitSelfNotSupported(Span),
    /// A macro invocation.
    MacroNotSupported(Span),
    /// An unsupported type shape.
    UnsupportedType(Span),
    /// A recognized type not used in the expected way.
    UnsupportedUseOfType(Span),
    /// A name that resolves to nothing public.
    UnresolvedName(Span),
    /// A name that resolves to something other than a type.
    NotType(Span),
    /// An anonymous field.
    AnonymousField(Span),
    /// A function input pattern that is not a single identifier.
    UnsupportedInputPattern(Span),
    /// A crate-root path that is not of the form `<crate>/src/../*.rs`.
    InvalidPath(String),
    /// A path component that is not valid text.
    NotUtf8(String),
    /// An async function returning a future.
    DoubleAsync(Span),
    /// A referenced type where only owned types are permitted.
    ReferenceType(Span, RefKind),
}

/// Mathematical value of an [`Error`].
pub enum ErrorV {
    Io(Seq<char>),
    Parse(Seq<char>),
    GenericsNotPermitted(SpanV),
    BindingNotFound(SpanV, Seq<char>),
    BindingNotExpected(SpanV),
    MixedPublicPrivateFields(SpanV),
    UnrecognizedItem(SpanV),
    UnsupportedNumberOfArguments(SpanV, nat, nat),
    UnsupportedItem(SpanV),
    ExplicitSelfNotSupported(SpanV),
    MacroNotSupported(SpanV),
    UnsupportedType(SpanV),
    UnsupportedUseOfType(SpanV),
    UnresolvedName(SpanV),
    NotType(SpanV),
    AnonymousField(SpanV),
    UnsupportedInputPattern(SpanV),
    InvalidPath(Seq<char>),
    NotUtf8(Seq<char>),
    DoubleAsync(SpanV),
    ReferenceType(SpanV, RefKind),
}

impl View for Error {
    type V = ErrorV;

    open spec fn view(&self) -> ErrorV {
        match self {
            Error::Io(s) => ErrorV::Io(s@),
            Error::Parse(s) => ErrorV::Parse(s@),
            Error::GenericsNotPermitted(s) => ErrorV::GenericsNotPermitted(s@),
            Error::BindingNotFound(s, n) => ErrorV::BindingNotFound(s@, n@),
            Error::BindingNotExpected(s) => ErrorV::BindingNotExpected(s@),
            Error::MixedPublicPrivateFields(s) => ErrorV::MixedPublicPrivateFields(s@),
            Error::UnrecognizedItem(s) => ErrorV::UnrecognizedItem(s@),
            Error::UnsupportedNumberOfArguments(s, a, b) => ErrorV::UnsupportedNumberOfArguments(
                s@,
                *a as nat,
                *b as nat,
            ),
            Error::UnsupportedItem(s) => ErrorV::UnsupportedItem(s@),
            Error::ExplicitSelfNotSupported(s) => ErrorV::ExplicitSelfNotSupported(s@),
            Error::MacroNotSupported(s) => ErrorV::MacroNotSupported(s@),
            Error::UnsupportedType(s) => ErrorV::UnsupportedType(s@),
            Error::UnsupportedUseOfType(s) => ErrorV::UnsupportedUseOfType(s@),
            Error::UnresolvedName(s) => ErrorV::UnresolvedName(s@),
            Error::NotType(s) => ErrorV::NotType(s@),
            Error::AnonymousField(s) => ErrorV::AnonymousField(s@),
            Error::UnsupportedInputPattern(s) => ErrorV::UnsupportedInputPattern(s@),
            Error::InvalidPath(p) => ErrorV::InvalidPath(p@),
            Error::NotUtf8(p) => ErrorV::NotUtf8(p@),
            Error::DoubleAsync(s) => ErrorV::DoubleAsync(s@),
            Error::ReferenceType(s, k) => ErrorV::ReferenceType(s@, *k),
        }
    }
}

/// The fixed description of each error condition.
pub open spec fn spec_error_message(e: ErrorV) -> Seq<char> {
    match e {
        ErrorV::Io(_) => "I/O error"@,
        ErrorV::Parse(_) => "parse error"@,
        ErrorV::GenericsNotPermitted(_) => "generics not permitted"@,
        ErrorV::BindingNotFound(_, _) => "expected associated type binding not found"@,
        ErrorV::BindingNotExpected(_) => "unexpected associated type binding"@,
        ErrorV::MixedPublicPrivateFields(_) => "fields must either be all public or all crate-private"@,
        ErrorV::UnrecognizedItem(_) => "unrecognized item"@,
        ErrorV::UnsupportedNumberOfArguments(_, _, _) => "recognized this type but not its number of arguments"@,
        ErrorV::UnsupportedItem(_) => "unsupported item; consider the ignore marker attribute"@,
        ErrorV::ExplicitSelfNotSupported(_) => "only `self`, `&self`, and `&mut self` are supported"@,
        ErrorV::MacroNotSupported(_) => "macro invocations not supported"@,
        ErrorV::UnsupportedType(_) => "unsupported type"@,
        ErrorV::UnsupportedUseOfType(_) => "type recognized but not used in expected way or with expected arguments"@,
        ErrorV::UnresolvedName(_) => "cannot resolve name (it must be public)"@,
        ErrorV::NotType(_) => "expected a type, not this"@,
        ErrorV::AnonymousField(_) => "anonymous fields unsupported"@,
        ErrorV::UnsupportedInputPattern(_) => "unsupported function input pattern, must be a single identifier"@,
        ErrorV::InvalidPath(_) => "expected to be invoked with a path like `foo/src/../*.rs`"@,
        ErrorV::NotUtf8(_) => "path component could not be converted to a string"@,
        ErrorV::DoubleAsync(_) => "async functions cannot return a future"@,
        ErrorV::ReferenceType(_, _) => "only owned types are permitted here"@,
    }
}

impl Error {
    /// The fixed description of this error condition. The span, if any,
    /// is available separately through [`Error::span`].
    pub fn message(&self) -> (r: &'static str)
        ensures
            r@ == spec_error_message(self@),
    {
        match self {
            Error::Io(_) => "I/O error",
            Error::Parse(_) => "parse error",
            Error::GenericsNotPermitted(_) => "generics not permitted",
            Error::BindingNotFound(_, _) => "expected associated type binding not found",
            Error::BindingNotExpected(_) => "unexpected associated type binding",
            Error::MixedPublicPrivateFields(_) => "fields must either be all public or all crate-private",
            Error::UnrecognizedItem(_) => "unrecognized item",
            Error::UnsupportedNumberOfArguments(_, _, _) => "recognized this type but not its number of arguments",
            Error::UnsupportedItem(_) => "unsupported item; consider the ignore marker attribute",
            Error::ExplicitSelfNotSupported(_) => "only `self`, `&self`, and `&mut self` are supported",
            Error::MacroNotSupported(_) => "macro invocations not supported",
            Error::UnsupportedType(_) => "unsupported type",
            Error::UnsupportedUseOfType(_) => "type recognized but not used in expected way or with expected arguments",
            Error::UnresolvedName(_) => "cannot resolve name (it must be public)",
            Error::NotType(_) => "expected a type, not this",
            Error::AnonymousField(_) => "anonymous fields unsupported",
            Error::UnsupportedInputPattern(_) => "unsupported function input pattern, must be a single identifier",
            Error::InvalidPath(_) => "expected to be invoked with a path like `foo/src/../*.rs`",
            Error::NotUtf8(_) => "path component could not be converted to a string",
            Error::DoubleAsync(_) => "async functions cannot return a future",
            Error::ReferenceType(_, _) => "only owned types are permitted here",
        }
    }

    /// The span this error arose at, where one exists.
    pub open spec fn spec_span(&self) -> Option<SpanV> {
        match self@ {
            ErrorV::Io(_) => None,
            ErrorV::Parse(_) => None,
            ErrorV::GenericsNotPermitted(s) => Some(s),
            ErrorV::BindingNotFound(s, _) => Some(s),
            ErrorV::BindingNotExpected(s) => Some(s),
            ErrorV::MixedPublicPrivateFields(s) => Some(s),
            ErrorV::UnrecognizedItem(s) => Some(s),
            ErrorV::UnsupportedNumberOfArguments(s, _, _) => Some(s),
            ErrorV::UnsupportedItem(s) => Some(s),
            ErrorV::ExplicitSelfNotSupported(s) => Some(s),
            ErrorV::MacroNotSupported(s) => Some(s),
            ErrorV::UnsupportedType(s) => Some(s),
            ErrorV::UnsupportedUseOfType(s) => Some(s),
            ErrorV::UnresolvedName(s) => Some(s),
            ErrorV::NotType(s) => Some(s),
            ErrorV::AnonymousField(s) => Some(s),
            ErrorV::UnsupportedInputPattern(s) => Some(s),
            ErrorV::InvalidPath(_) => None,
            ErrorV::NotUtf8(_) => None,
            ErrorV::DoubleAsync(s) => Some(s),
            ErrorV::ReferenceType(s, _) => Some(s),
        }
    }

    /// The span this error arose at, where one exists.
    pub fn span(&self) -> (r: Option<&Span>)
        ensures
            match r {
                Some(s) => self.spec_span() == Some(s@),
                None => self.spec_span() matches None,
            },
    {
        match self {
            Error::Io(_) => None,
            Error::Parse(_) => None,
            Error::GenericsNotPermitted(s) => Some(s),
            Error::BindingNotFound(s, _) => Some(s),
            Error::BindingNotExpected(s) => Some(s),
            Error::MixedPublicPrivateFields(s) => Some(s),
            Error::UnrecognizedItem(s) => Some(s),
            Error::UnsupportedNumberOfArguments(s, _, _) => Some(s),
            Error::UnsupportedItem(s) => Some(s),
            Error::ExplicitSelfNotSupported(s) => Some(s),
            Error::MacroNotSupported(s) => Some(s),
            Error::UnsupportedType(s) => Some(s),
            Error::UnsupportedUseOfType(s) => Some(s),
            Error::UnresolvedName(s) => Some(s),
            Error::NotType(s) => Some(s),
            Error::AnonymousField(s) => Some(s),
            Error::UnsupportedInputPattern(s) => Some(s),
            Error::InvalidPath(_) => None,
            Error::NotUtf8(_) => None,
            Error::DoubleAsync(s) => Some(s),
            Error::ReferenceType(s, _) => Some(s),
        }
    }
}

} // verus!
