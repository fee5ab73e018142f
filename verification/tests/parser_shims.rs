use gstat_core::cursor::ByteCursor;
use gstat_core::error::Error;
use gstat_core::parser::round_trip;
use gstat_core::parser::Parser;
use gstat_core::query::Query;
use gstat_core::response::Response;

#[derive(Debug, PartialEq)]
struct StubErr(u32);

struct EchoQuery {
    payload: u8,
}

impl Query for EchoQuery {
    type E = StubErr;

    fn new() -> Result<Self, Error<StubErr>> {
        Ok(EchoQuery { payload: 0 })
    }
}

#[derive(Debug, PartialEq)]
struct EchoResponse {
    payload: u8,
}

impl Response for EchoResponse {
    type E = StubErr;

    fn new() -> Result<Self, Error<StubErr>> {
        Ok(EchoResponse { payload: 0 })
    }
}

/// A parser whose two primitives are mutual inverses: the wire format is the
/// single payload byte.
struct EchoParser;

impl Parser<EchoQuery, EchoResponse> for EchoParser {
    type SE = StubErr;
    type DE = StubErr;

    fn _serialize_query(&self, query: &EchoQuery) -> Result<Vec<u8>, StubErr> {
        Ok(vec![query.payload])
    }

    fn _deserialize_response(&self, data: ByteCursor) -> Result<EchoResponse, StubErr> {
        let mut data = data;
        match data.read_byte() {
            Some(payload) => Ok(EchoResponse { payload }),
            None => Err(StubErr(0)),
        }
    }
}

/// A parser whose primitives always fail, each with a fixed error.
struct FailingParser;

impl Parser<EchoQuery, EchoResponse> for FailingParser {
    type SE = StubErr;
    type DE = StubErr;

    fn _serialize_query(&self, _query: &EchoQuery) -> Result<Vec<u8>, StubErr> {
        Err(StubErr(5))
    }

    fn _deserialize_response(&self, _data: ByteCursor) -> Result<EchoResponse, StubErr> {
        Err(StubErr(6))
    }
}

#[test]
fn serialize_then_deserialize_round_trips() {
    let parser = EchoParser;
    let query = EchoQuery { payload: 42 };
    let bytes = parser.serialize_query(&query).expect("serialization succeeds");
    assert_eq!(bytes, vec![42]);
    let response = parser
        .deserialize_response(ByteCursor::new(bytes))
        .expect("deserialization succeeds");
    assert_eq!(response, EchoResponse { payload: 42 });
}

#[test]
fn round_trip_reproduces_the_response() {
    let parser = EchoParser;
    let query = EchoQuery { payload: 200 };
    assert_eq!(round_trip(&parser, &query), Some(EchoResponse { payload: 200 }));
}

#[test]
fn round_trip_reports_a_failing_direction_as_none() {
    let parser = FailingParser;
    let query = EchoQuery { payload: 1 };
    assert_eq!(round_trip(&parser, &query), None);
}

#[test]
fn failed_serialization_is_wrapped_once_with_the_fixed_message() {
    let parser = FailingParser;
    let query = EchoQuery { payload: 1 };
    match parser.serialize_query(&query) {
        Err(Error::ParserError(detail)) => {
            assert_eq!(detail.message(), "Failed to serialize query");
            assert_eq!(detail.inner(), &Some(StubErr(5)));
        },
        _ => panic!("expected a parser error"),
    }
}

#[test]
fn failed_deserialization_is_wrapped_once_with_the_fixed_message() {
    let parser = FailingParser;
    match parser.deserialize_response(ByteCursor::new(vec![9])) {
        Err(Error::ParserError(detail)) => {
            assert_eq!(detail.message(), "Failed to deserialize response");
            assert_eq!(detail.inner(), &Some(StubErr(6)));
        },
        _ => panic!("expected a parser error"),
    }
}

#[test]
fn deserialization_error_on_an_empty_stream() {
    let parser = EchoParser;
    match parser.deserialize_response(ByteCursor::new(vec![])) {
        Err(Error::ParserError(detail)) => {
            assert_eq!(detail.message(), "Failed to deserialize response");
            assert_eq!(detail.inner(), &Some(StubErr(0)));
        },
        _ => panic!("expected a parser error"),
    }
}
