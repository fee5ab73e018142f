//! The top-level binder that exposes one `fetch` operation per supported
//! game and protocol combination.

use vstd::prelude::*;

use crate::error::Error;
use crate::lifecycle::FetchLifecycle;
use crate::protocol::Address;
use crate::protocol::Protocol;

verus! {

/// A specific game that can interact with a game server over the protocol
/// `P`.
///
/// A game owns no connection state of its own: it produces a fresh protocol
/// instance for each `fetch` call.
pub trait Game<P>: Sized where P: Protocol {
    /// The name of the game.
    fn game_name(&self) -> &'static str;

    /// The year the game was released.
    fn release_year(&self) -> u32;

    /// Provides a fresh protocol instance for one fetch lifecycle.
    fn _protocol(&self) -> P;

    /// Fetches data from the game server at `address`.
    ///
    /// A fresh protocol instance runs the full lifecycle, strictly in order:
    /// connect, send `query`, receive the response, disconnect. The first
    /// failure short-circuits the lifecycle and is the error returned; once
    /// the connection exists, a disconnect is still attempted as best-effort
    /// cleanup, and its result never displaces an earlier error. The body
    /// drives the protocol exactly as the verified
    /// [`FetchLifecycle`](crate::lifecycle::FetchLifecycle) machine directs.
    fn fetch(&self, query: P::Q, address: Address) -> Result<P::R, Error<P::E>> {
        let mut protocol = self._protocol();
        let mut lifecycle = FetchLifecycle::begin();
        lifecycle = lifecycle.after_connect(protocol.connect(address));
        if lifecycle.awaiting_send() {
            lifecycle = lifecycle.after_send(protocol.send_query(query));
        }
        if lifecycle.awaiting_receive() {
            lifecycle = lifecycle.after_receive(protocol.receive_response());
        }
        if lifecycle.awaiting_disconnect() {
            lifecycle = lifecycle.after_disconnect(protocol.disconnect());
        }
        lifecycle.into_outcome()
    }
}

} // verus!
