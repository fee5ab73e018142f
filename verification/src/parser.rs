//! The capability contract for converting between typed values and wire
//! bytes.
//!
//! A [`Parser`] is a stateless capability bound to one query type and one
//! response type. The public operations, `serialize_query` and
//! `deserialize_response`, are thin, uniform error-wrapping shims around the
//! implementation-supplied primitives `_serialize_query` and
//! `_deserialize_response`, where the byte-level grammar lives.

use vstd::prelude::*;

use crate::cursor::ByteCursor;
use crate::error::Error;
use crate::error::ErrorDetail;
use crate::query::Query;
use crate::response::Response;

verus! {

/// Whether an executable serialization result carries exactly the bytes or
/// the error of its mathematical counterpart.
pub open spec fn bytes_result_matches<SE>(r: Result<Vec<u8>, SE>, s: Result<Seq<u8>, SE>) -> bool {
    match (r, s) {
        (Ok(v), Ok(bytes)) => v@ == bytes,
        (Err(e), Err(f)) => e == f,
        _ => false,
    }
}

/// A stateless converter between one query type, one response type and wire
/// bytes, with distinct error types for each direction.
pub trait Parser<Q, R>: Sized where Q: Query, R: Response {
    /// The implementation's serialization error data.
    type SE;

    /// The implementation's deserialization error data.
    type DE;

    /// The mathematical serialization this parser implements: the wire bytes
    /// produced for a query, or the serialization error raised for it. A
    /// verified implementation overrides this; the default says nothing.
    open spec fn spec_serialize_query(self, query: Q) -> Result<Seq<u8>, Self::SE> {
        vstd::pervasive::arbitrary()
    }

    /// The mathematical deserialization this parser implements, over the
    /// bytes remaining in the stream: the response parsed from them, or the
    /// deserialization error raised for them. A verified implementation
    /// overrides this; the default says nothing.
    open spec fn spec_deserialize_response(self, data: Seq<u8>) -> Result<R, Self::DE> {
        vstd::pervasive::arbitrary()
    }

    /// The implementation-supplied raw serialization of `query`.
    fn _serialize_query(&self, query: &Q) -> (r: Result<Vec<u8>, Self::SE>)
        ensures
            bytes_result_matches(r, self.spec_serialize_query(*query)),
    ;

    /// The implementation-supplied raw deserialization of the bytes remaining
    /// in `data`.
    fn _deserialize_response(&self, data: ByteCursor) -> (r: Result<R, Self::DE>)
        ensures
            r == self.spec_deserialize_response(data.remaining_bytes()),
    ;

    /// Serializes `query` into wire bytes.
    ///
    /// On failure the implementation's serialization error is wrapped exactly
    /// once, as a [`Error::ParserError`] whose message is
    /// "Failed to serialize query" and whose inner data is the original
    /// error.
    fn serialize_query(&self, query: &Q) -> (r: Result<Vec<u8>, Error<Self::SE>>)
        ensures
            match self.spec_serialize_query(*query) {
                Ok(bytes) => r matches Ok(v) && v@ == bytes,
                Err(e) => {
                    &&& r matches Err(Error::ParserError(d))
                    &&& d.spec_message() == "Failed to serialize query"@
                    &&& d.spec_inner() == Some(e)
                },
            },
    {
        match self._serialize_query(query) {
            Ok(bytes) => Ok(bytes),
            Err(err) => Err(
                Error::ParserError(ErrorDetail::new("Failed to serialize query", Some(err))),
            ),
        }
    }

    /// Deserializes the bytes remaining in `data` into a response.
    ///
    /// On failure the implementation's deserialization error is wrapped
    /// exactly once, as a [`Error::ParserError`] whose message is
    /// "Failed to deserialize response" and whose inner data is the original
    /// error.
    fn deserialize_response(&self, data: ByteCursor) -> (r: Result<R, Error<Self::DE>>)
        ensures
            match self.spec_deserialize_response(data.remaining_bytes()) {
                Ok(response) => r matches Ok(got) && got == response,
                Err(e) => {
                    &&& r matches Err(Error::ParserError(d))
                    &&& d.spec_message() == "Failed to deserialize response"@
                    &&& d.spec_inner() == Some(e)
                },
            },
    {
        match self._deserialize_response(data) {
            Ok(response) => Ok(response),
            Err(err) => Err(
                Error::ParserError(ErrorDetail::new("Failed to deserialize response", Some(err))),
            ),
        }
    }
}

/// Round-trip law: serializing a query and deserializing the produced bytes
/// through the same parser yields exactly the response that the parser's
/// mathematical deserialization assigns to its mathematical serialization of
/// the query. In particular, when the two primitives are mutual inverses on
/// `query`, the corresponding response comes back, and `None` comes back only
/// when one of the two directions fails.
pub fn round_trip<Q, R, P>(parser: &P, query: &Q) -> (r: Option<R>) where
    Q: Query,
    R: Response,
    P: Parser<Q, R>,

    ensures
        match parser.spec_serialize_query(*query) {
            Ok(bytes) => match parser.spec_deserialize_response(bytes) {
                Ok(response) => r == Some(response),
                Err(_) => r is None,
            },
            Err(_) => r is None,
        },
{
    match parser.serialize_query(query) {
        Ok(bytes) => {
            let ghost produced = bytes@;
            let data = ByteCursor::new(bytes);
            proof {
                assert(data.remaining_bytes() =~= produced);
            }
            match parser.deserialize_response(data) {
                Ok(response) => Some(response),
                Err(_) => None,
            }
        },
        Err(_) => None,
    }
}

} // verus!
