//! The capability contract for a stateful connection abstraction.

use vstd::prelude::*;

use crate::error::Error;
use crate::parser::Parser;
use crate::query::Query;
use crate::response::Response;

verus! {

/// An IP address, as plain values.
#[derive(Clone, Copy, Debug)]
pub enum IpAddress {
    /// The four octets of a version 4 address.
    V4([u8; 4]),
    /// The sixteen octets of a version 6 address.
    V6([u8; 16]),
}

/// A network endpoint: an IP address and a port.
#[derive(Clone, Copy, Debug)]
pub struct Address {
    /// The IP address of the endpoint.
    pub ip: IpAddress,
    /// The port of the endpoint.
    pub port: u16,
}

/// A stateful connection abstraction: one instance represents one
/// connect-to-disconnect session with a server.
///
/// A session starts disconnected, becomes connected after a successful
/// `connect` and is disconnected again after a successful `disconnect`.
/// `send_query`, `receive_response`, `send` and `receive` are only valid on a
/// connected instance; calling them otherwise is a contract violation that an
/// implementation must detect and report as [`Error::ProtocolError`], never
/// leave undefined. Retry and timeout policy is the implementation's own.
///
/// Implementations decide how each operation waits for the network; this
/// trait fixes only the call shape and the state contract.
pub trait Protocol: Sized {
    /// The type of query sent over this protocol.
    type Q: Query;

    /// The type of response received over this protocol.
    type R: Response;

    /// The parser that converts between the typed values and wire bytes.
    type P: Parser<Self::Q, Self::R>;

    /// The implementation's connection error data.
    type E;

    /// Whether this instance currently holds an established connection. A
    /// verified implementation overrides this; the default says nothing.
    open spec fn connected(self) -> bool {
        vstd::pervasive::arbitrary()
    }

    /// Establishes a connection with the server at `address`.
    fn connect(&mut self, address: Address) -> (r: Result<(), Error<Self::E>>)
        ensures
            r is Ok ==> final(self).connected(),
    ;

    /// Sends `query` to the connected server, routing it through the bound
    /// parser's `serialize_query` before transmission.
    fn send_query(&mut self, query: Self::Q) -> (r: Result<(), Error<Self::E>>)
        ensures
            !old(self).connected() ==> (r matches Err(e) && e is ProtocolError),
    ;

    /// Receives a response from the connected server, routing the raw bytes
    /// through the bound parser's `deserialize_response`.
    fn receive_response(&mut self) -> (r: Result<Self::R, Error<Self::E>>)
        ensures
            !old(self).connected() ==> (r matches Err(e) && e is ProtocolError),
    ;

    /// Closes the connection or session with the server.
    fn disconnect(&mut self) -> (r: Result<(), Error<Self::E>>)
        ensures
            r is Ok ==> !final(self).connected(),
    ;

    /// Sends a raw data packet, outside the typed query path, for protocols
    /// that need custom framing.
    fn send(&mut self, data: &[u8]) -> (r: Result<(), Error<Self::E>>)
        ensures
            !old(self).connected() ==> (r matches Err(e) && e is ProtocolError),
    ;

    /// Receives a raw data packet, outside the typed response path, for
    /// protocols that need custom framing.
    fn receive(&mut self) -> (r: Result<Vec<u8>, Error<Self::E>>)
        ensures
            !old(self).connected() ==> (r matches Err(e) && e is ProtocolError),
    ;
}

} // verus!
