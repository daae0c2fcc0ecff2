//! Errors of the client and the end of a wait for an acknowledgement.

use vstd::prelude::*;

verus! {

/// What can go wrong in the client's own logic.
#[derive(Debug, Clone, Copy, PartialEq, Eq, Structural)]
pub enum ClientError {
    /// The broker answered the CONNECT with this non-success reason code.
    ConnectRefused(u8),
    /// The broker answered the CONNECT with something else than a CONNACK.
    ExpectedConnAck,
    /// The packet identifier counter produced zero.
    PacketIdOverflow,
    /// A Subscription Identifier must not be zero.
    ZeroSubscriptionId,
    /// The connection was closed while a SUBACK was awaited.
    ClosedBeforeSubAck,
    /// The connection was closed while an UNSUBACK was awaited.
    ClosedBeforeUnsubAck,
    /// No SUBACK came in time.
    SubscribeTimeout,
    /// The SUBACK waiter went away without an answer.
    SubAckWaiterDropped,
    /// No UNSUBACK came in time.
    UnsubscribeTimeout,
    /// The UNSUBACK waiter went away without an answer.
    UnsubAckWaiterDropped,
}

/// Which acknowledgement is awaited.
#[derive(Debug, Clone, Copy, PartialEq, Eq, Structural)]
pub enum AckKind {
    SubAck,
    UnsubAck,
}

/// How the wait for an acknowledgement ended: `E` is the failure the reader
/// hands to a waiter when the connection goes down.
pub enum AckWait<T, E> {
    TimedOut,
    WaiterDropped,
    Answered(Result<T, E>),
}

/// Why no acknowledgement was obtained.
#[derive(Debug)]
pub enum AckFailure<E> {
    Client(ClientError),
    Connection(E),
}

/// The outcome of a subscribe or unsubscribe once the wait is over.
pub open spec fn spec_finish_ack_wait<T, E>(kind: AckKind, w: AckWait<T, E>) -> Result<T, AckFailure<E>> {
    match w {
        AckWait::TimedOut => Err(AckFailure::Client(
            match kind {
                AckKind::SubAck => ClientError::SubscribeTimeout,
                AckKind::UnsubAck => ClientError::UnsubscribeTimeout,
            },
        )),
        AckWait::WaiterDropped => Err(AckFailure::Client(
            match kind {
                AckKind::SubAck => ClientError::SubAckWaiterDropped,
                AckKind::UnsubAck => ClientError::UnsubAckWaiterDropped,
            },
        )),
        AckWait::Answered(Ok(t)) => Ok(t),
        AckWait::Answered(Err(e)) => Err(AckFailure::Connection(e)),
    }
}

/// The acknowledgement when one came, else why not.
pub fn finish_ack_wait<T, E>(kind: AckKind, w: AckWait<T, E>) -> (r: Result<T, AckFailure<E>>)
    ensures
        r == spec_finish_ack_wait(kind, w),
{
    match w {
        AckWait::TimedOut => Err(AckFailure::Client(
            match kind {
                AckKind::SubAck => ClientError::SubscribeTimeout,
                AckKind::UnsubAck => ClientError::UnsubscribeTimeout,
            },
        )),
        AckWait::WaiterDropped => Err(AckFailure::Client(
            match kind {
                AckKind::SubAck => ClientError::SubAckWaiterDropped,
                AckKind::UnsubAck => ClientError::UnsubAckWaiterDropped,
            },
        )),
        AckWait::Answered(Ok(t)) => Ok(t),
        AckWait::Answered(Err(e)) => Err(AckFailure::Connection(e)),
    }
}

/// An acknowledgement that came in time is the outcome, for a subscribe and an
/// unsubscribe alike; a timeout error comes only from a wait that timed out, a
/// dropped-waiter error only from a dropped waiter, and a connection failure
/// is passed on as it is.
pub proof fn lemma_ack_wait_outcomes<T, E>(kind: AckKind, w: AckWait<T, E>)
    ensures
        forall|t: T|
            #[trigger] spec_finish_ack_wait(kind, AckWait::<T, E>::Answered(Ok(t))) == Ok::<
                T,
                AckFailure<E>,
            >(t),
        forall|e: E|
            #[trigger] spec_finish_ack_wait(kind, AckWait::<T, E>::Answered(Err(e))) == Err::<
                T,
                AckFailure<E>,
            >(AckFailure::Connection(e)),
        (spec_finish_ack_wait(kind, w) matches Err(AckFailure::Client(c)) && (c
            == ClientError::SubscribeTimeout || c == ClientError::UnsubscribeTimeout)) ==> w is TimedOut,
        (spec_finish_ack_wait(kind, w) matches Err(AckFailure::Client(c)) && (c
            == ClientError::SubAckWaiterDropped || c == ClientError::UnsubAckWaiterDropped)) ==> w is WaiterDropped,
        spec_finish_ack_wait(kind, w) is Ok <==> w matches AckWait::Answered(Ok(_)),
        w is TimedOut ==> spec_finish_ack_wait(kind, w) == Err::<T, AckFailure<E>>(
            AckFailure::Client(
                if kind == AckKind::SubAck {
                    ClientError::SubscribeTimeout
                } else {
                    ClientError::UnsubscribeTimeout
                },
            ),
        ),
{
}

} // verus!
