//! The fetch lifecycle as an explicit, verified state machine.
//!
//! One fetch runs connect, send, receive, disconnect, strictly in that order.
//! A [`FetchLifecycle`] value records which step is awaited next and absorbs
//! each step's result: a failure before the connection exists finishes the
//! lifecycle at once, a failure on an open connection first requests a
//! best-effort disconnect, and the error that first arose is the one
//! reported. [`crate::game::Game::fetch`] drives a protocol through this
//! machine.

use vstd::prelude::*;

use crate::error::Error;

verus! {

/// The state of one fetch lifecycle over response type `R` and error payload
/// type `E`: the step awaited next, or the outcome once the lifecycle is
/// over.
pub enum FetchLifecycle<R, E> {
    /// `connect` is the next step.
    Connecting,
    /// `send_query` is the next step.
    Sending,
    /// `receive_response` is the next step.
    Receiving,
    /// `disconnect` is the next step, as best-effort cleanup; the outcome to
    /// report afterwards is already fixed.
    CleaningUp { outcome: Result<R, Error<E>> },
    /// The lifecycle is over with this outcome.
    Finished { outcome: Result<R, Error<E>> },
}

/// The state that follows the connect step: on success the query is sent
/// next; on failure the lifecycle is over with the connect error, and no
/// further step is requested.
pub open spec fn connect_step<R, E>(r: Result<(), Error<E>>) -> FetchLifecycle<R, E> {
    match r {
        Ok(_) => FetchLifecycle::Sending,
        Err(e) => FetchLifecycle::Finished { outcome: Err(e) },
    }
}

/// The state that follows the send step: on success a response is received
/// next; on failure the open connection is still released, and the send
/// error is the outcome to report.
pub open spec fn send_step<R, E>(r: Result<(), Error<E>>) -> FetchLifecycle<R, E> {
    match r {
        Ok(_) => FetchLifecycle::Receiving,
        Err(e) => FetchLifecycle::CleaningUp { outcome: Err(e) },
    }
}

/// The state that follows the receive step: whatever came back, the open
/// connection is released next, and the receive result is the outcome to
/// report.
pub open spec fn receive_step<R, E>(r: Result<R, Error<E>>) -> FetchLifecycle<R, E> {
    FetchLifecycle::CleaningUp { outcome: r }
}

/// The state that follows the disconnect step. An error pending from an
/// earlier step stays the outcome, whatever disconnect returned; after a
/// clean run, a disconnect failure is itself the outcome.
pub open spec fn disconnect_step<R, E>(
    pending: Result<R, Error<E>>,
    r: Result<(), Error<E>>,
) -> FetchLifecycle<R, E> {
    match pending {
        Err(e) => FetchLifecycle::Finished { outcome: Err(e) },
        Ok(response) => match r {
            Ok(_) => FetchLifecycle::Finished { outcome: Ok(response) },
            Err(e) => FetchLifecycle::Finished { outcome: Err(e) },
        },
    }
}

impl<R, E> FetchLifecycle<R, E> {
    /// Starts a lifecycle: `connect` is the first step.
    pub fn begin() -> (lc: Self)
        ensures
            lc is Connecting,
    {
        FetchLifecycle::Connecting
    }

    /// Absorbs the result of the connect step.
    pub fn after_connect(self, r: Result<(), Error<E>>) -> (next: Self)
        requires
            self is Connecting,
        ensures
            next == connect_step::<R, E>(r),
    {
        match r {
            Ok(_) => FetchLifecycle::Sending,
            Err(e) => FetchLifecycle::Finished { outcome: Err(e) },
        }
    }

    /// Absorbs the result of the send step.
    pub fn after_send(self, r: Result<(), Error<E>>) -> (next: Self)
        requires
            self is Sending,
        ensures
            next == send_step::<R, E>(r),
    {
        match r {
            Ok(_) => FetchLifecycle::Receiving,
            Err(e) => FetchLifecycle::CleaningUp { outcome: Err(e) },
        }
    }

    /// Absorbs the result of the receive step.
    pub fn after_receive(self, r: Result<R, Error<E>>) -> (next: Self)
        requires
            self is Receiving,
        ensures
            next == receive_step::<R, E>(r),
    {
        FetchLifecycle::CleaningUp { outcome: r }
    }

    /// Absorbs the result of the disconnect step.
    pub fn after_disconnect(self, r: Result<(), Error<E>>) -> (next: Self)
        requires
            self is CleaningUp,
        ensures
            next == disconnect_step::<R, E>(self->CleaningUp_outcome, r),
    {
        match self {
            FetchLifecycle::CleaningUp { outcome } => match outcome {
                Err(e) => FetchLifecycle::Finished { outcome: Err(e) },
                Ok(response) => match r {
                    Ok(_) => FetchLifecycle::Finished { outcome: Ok(response) },
                    Err(e) => FetchLifecycle::Finished { outcome: Err(e) },
                },
            },
            _ => vstd::pervasive::unreached(),
        }
    }

    /// Whether `send_query` is the step awaited next.
    pub fn awaiting_send(&self) -> (b: bool)
        ensures
            b == (self is Sending),
    {
        match self {
            FetchLifecycle::Sending => true,
            _ => false,
        }
    }

    /// Whether `receive_response` is the step awaited next.
    pub fn awaiting_receive(&self) -> (b: bool)
        ensures
            b == (self is Receiving),
    {
        match self {
            FetchLifecycle::Receiving => true,
            _ => false,
        }
    }

    /// Whether `disconnect` is the step awaited next.
    pub fn awaiting_disconnect(&self) -> (b: bool)
        ensures
            b == (self is CleaningUp),
    {
        match self {
            FetchLifecycle::CleaningUp { .. } => true,
            _ => false,
        }
    }

    /// The outcome of a finished lifecycle.
    pub fn into_outcome(self) -> (r: Result<R, Error<E>>)
        requires
            self is Finished,
        ensures
            r == self->Finished_outcome,
    {
        match self {
            FetchLifecycle::Finished { outcome } => outcome,
            _ => vstd::pervasive::unreached(),
        }
    }
}

/// Law: a failure at connect finishes the lifecycle at once with exactly the
/// connect error; no send, receive or disconnect step is requested.
pub proof fn lemma_connect_failure_short_circuits<R, E>(e: Error<E>)
    ensures
        connect_step::<R, E>(Err(e)) == (FetchLifecycle::Finished::<R, E> { outcome: Err(e) }),
{
}

/// Law: when connect and send succeed but receive fails, the lifecycle still
/// requests a best-effort disconnect, and the receive error is the outcome,
/// whatever the disconnect result was.
pub proof fn lemma_receive_failure_still_disconnects<R, E>(e: Error<E>, d: Result<(), Error<E>>)
    ensures
        connect_step::<R, E>(Ok(())) is Sending,
        send_step::<R, E>(Ok(())) is Receiving,
        receive_step::<R, E>(Err(e)) is CleaningUp,
        disconnect_step::<R, E>(Err(e), d) == (FetchLifecycle::Finished::<R, E> {
            outcome: Err(e),
        }),
{
}

/// Law: when every step succeeds, the outcome is exactly the received
/// response.
pub proof fn lemma_fetch_success<R, E>(response: R)
    ensures
        connect_step::<R, E>(Ok(())) is Sending,
        send_step::<R, E>(Ok(())) is Receiving,
        receive_step::<R, E>(Ok(response)) == (FetchLifecycle::CleaningUp::<R, E> {
            outcome: Ok(response),
        }),
        disconnect_step::<R, E>(Ok(response), Ok(())) == (FetchLifecycle::Finished::<R, E> {
            outcome: Ok(response),
        }),
{
}

} // verus!
