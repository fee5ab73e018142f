//! The categorized error model shared by every layer of the crate.
//!
//! An [`ErrorDetail`] couples a message with optional protocol-specific error
//! data; an [`Error`] tags one detail with the layer that raised the failure,
//! so callers can branch on the failure category without knowing the concrete
//! protocol's error type.

use vstd::prelude::*;
use vstd::string::StringExecFns;

verus! {

/// The fixed part of the diagnostic line for one category and message.
pub open spec fn display_line(category: Seq<char>, message: Seq<char>) -> Seq<char> {
    "[GSTAT ERROR ("@ + category + "): "@ + message
}

/// Relies on the `format!` macro with `{:?}`: renders `value` through its
/// `Debug` implementation. Nothing is promised of the text, since a payload's
/// `Debug` implementation is the caller's own.
#[verifier::external_body]
fn debug_text<E: core::fmt::Debug>(value: &E) -> String {
    format!("{:?}", value)
}

/// A message together with optional protocol-specific error data.
///
/// Immutable once constructed; owned by the [`Error`] variant that wraps it.
#[derive(Debug)]
pub struct ErrorDetail<E> {
    /// The error message.
    message: String,
    /// The optional data associated with the error.
    inner: Option<E>,
}

impl<E> ErrorDetail<E> {
    /// The error message, as a sequence of characters.
    pub closed spec fn spec_message(self) -> Seq<char> {
        self.message@
    }

    /// The optional data associated with the error.
    pub closed spec fn spec_inner(self) -> Option<E> {
        self.inner
    }

    /// Creates a new `ErrorDetail` that holds `message` and `inner` exactly.
    pub fn new(message: &str, inner: Option<E>) -> (d: Self)
        ensures
            d.spec_message() == message@,
            d.spec_inner() == inner,
    {
        ErrorDetail { message: message.to_owned(), inner }
    }

    /// The error message.
    pub fn message(&self) -> (m: &str)
        ensures
            m@ == self.spec_message(),
    {
        self.message.as_str()
    }

    /// The optional data associated with the error.
    pub fn inner(&self) -> (i: &Option<E>)
        ensures
            *i == self.spec_inner(),
    {
        &self.inner
    }

    /// Renders the diagnostic line for this detail under the given category:
    /// the fixed prefix, the category, the message, and then, when inner data
    /// is present, its debug rendering.
    pub fn display(&self, category: &str) -> (out: String) where E: core::fmt::Debug
        ensures
            out@.len() >= display_line(category@, self.spec_message()).len(),
            out@.take(display_line(category@, self.spec_message()).len() as int) == display_line(
                category@,
                self.spec_message(),
            ),
            self.spec_inner() is None ==> out@ == display_line(category@, self.spec_message()),
    {
        let mut out = String::from_str("[GSTAT ERROR (");
        out.append(category);
        out.append("): ");
        out.append(self.message.as_str());
        let ghost line = out@;
        match &self.inner {
            Some(payload) => {
                let rendered = debug_text(payload);
                out.append(rendered.as_str());
                proof {
                    assert(out@.take(line.len() as int) =~= line);
                }
            },
            None => {},
        }
        proof {
            assert(line.take(line.len() as int) =~= line);
        }
        out
    }
}

/// The closed set of failure categories, each wrapping one [`ErrorDetail`].
///
/// The variant tag always reflects which layer raised the failure,
/// independent of the payload type `E`.
#[derive(Debug)]
pub enum Error<E> {
    /// A failure in game-level orchestration.
    GameError(ErrorDetail<E>),
    /// A failure while serializing or deserializing.
    ParserError(ErrorDetail<E>),
    /// A failure in the communication protocol.
    ProtocolError(ErrorDetail<E>),
    /// A failure while creating or using a query.
    QueryError(ErrorDetail<E>),
    /// A failure while receiving or processing a response.
    ResponseError(ErrorDetail<E>),
}

impl<E> Error<E> {
    /// The category name that belongs to this variant.
    pub open spec fn spec_category(self) -> Seq<char> {
        match self {
            Error::GameError(_) => "Game"@,
            Error::ParserError(_) => "Parser"@,
            Error::ProtocolError(_) => "Protocol"@,
            Error::QueryError(_) => "Query"@,
            Error::ResponseError(_) => "Response"@,
        }
    }

    /// The detail carried by this error, whatever the variant.
    pub open spec fn spec_detail(self) -> ErrorDetail<E> {
        match self {
            Error::GameError(d) => d,
            Error::ParserError(d) => d,
            Error::ProtocolError(d) => d,
            Error::QueryError(d) => d,
            Error::ResponseError(d) => d,
        }
    }

    /// The fixed part of the user-facing diagnostic line for this error:
    /// everything before the debug rendering of the inner data.
    pub open spec fn spec_display_line(self) -> Seq<char> {
        display_line(self.spec_category(), self.spec_detail().spec_message())
    }

    /// The category name that belongs to this variant.
    pub fn category(&self) -> (c: &'static str)
        ensures
            c@ == self.spec_category(),
    {
        match self {
            Error::GameError(_) => "Game",
            Error::ParserError(_) => "Parser",
            Error::ProtocolError(_) => "Protocol",
            Error::QueryError(_) => "Query",
            Error::ResponseError(_) => "Response",
        }
    }

    /// The detail carried by this error, whatever the variant.
    pub fn detail(&self) -> (d: &ErrorDetail<E>)
        ensures
            *d == self.spec_detail(),
    {
        match self {
            Error::GameError(d) => d,
            Error::ParserError(d) => d,
            Error::ProtocolError(d) => d,
            Error::QueryError(d) => d,
            Error::ResponseError(d) => d,
        }
    }

    /// Formats the error for display: the category-tagged line, followed by
    /// the debug rendering of the inner data when it is present.
    pub fn display_string(&self) -> (out: String) where E: core::fmt::Debug
        ensures
            out@.len() >= self.spec_display_line().len(),
            out@.take(self.spec_display_line().len() as int) == self.spec_display_line(),
            self.spec_detail().spec_inner() is None ==> out@ == self.spec_display_line(),
    {
        match self {
            Error::GameError(d) => d.display("Game"),
            Error::ParserError(d) => d.display("Parser"),
            Error::ProtocolError(d) => d.display("Protocol"),
            Error::QueryError(d) => d.display("Query"),
            Error::ResponseError(d) => d.display("Response"),
        }
    }
}

/// Law: the display output of every error begins with "[GSTAT ERROR ("
/// followed by exactly the category name that matches the variant. The line
/// this speaks of is a prefix of the rendered output, by the `ensures` of
/// [`Error::display_string`].
pub proof fn lemma_display_prefix<E>(e: Error<E>)
    ensures
        e.spec_display_line().take(14) == "[GSTAT ERROR ("@,
        e.spec_display_line().skip(14).take(e.spec_category().len() as int) == e.spec_category(),
        e is GameError ==> e.spec_category() == "Game"@,
        e is ParserError ==> e.spec_category() == "Parser"@,
        e is ProtocolError ==> e.spec_category() == "Protocol"@,
        e is QueryError ==> e.spec_category() == "Query"@,
        e is ResponseError ==> e.spec_category() == "Response"@,
{
    reveal_strlit("[GSTAT ERROR (");
    assert(e.spec_display_line().take(14) =~= "[GSTAT ERROR ("@);
    assert(e.spec_display_line().skip(14).take(e.spec_category().len() as int)
        =~= e.spec_category());
}

/// Law: the fixed part of the display output of every error ends with
/// exactly the message its detail holds, so wrapping a detail in a variant
/// and rendering it loses nothing of the original message text: the message
/// stands in the rendered output right before any inner-data rendering.
pub proof fn lemma_display_preserves_message<E>(e: Error<E>)
    ensures
        e.spec_display_line().len() >= e.spec_detail().spec_message().len(),
        e.spec_display_line().skip(
            e.spec_display_line().len() - e.spec_detail().spec_message().len(),
        ) == e.spec_detail().spec_message(),
{
    assert(e.spec_display_line().skip(
        e.spec_display_line().len() - e.spec_detail().spec_message().len(),
    ) =~= e.spec_detail().spec_message());
}

} // verus!
