//! The decisions of one query/reply exchange with a server, as a state
//! machine: the caller performs each action and reports what happened.

use vstd::prelude::*;
use crate::fields::{Leap, Mode};
use crate::packet::{PACKET_LEN, Packet, pack_lvm};

verus! {

/// Why a query, or the whole run, failed.
#[derive(Debug, Clone, Copy, PartialEq, Eq, Structural)]
pub enum QueryError {
    /// The protocol version asked for is not one of 1 to 4.
    InvalidVersion(u8),
    /// The request went out with fewer or more than 48 bytes.
    SendIncomplete,
    /// No reply came before the deadline.
    Timeout,
    /// The reply held fewer than 48 bytes.
    ResponseTooShort,
    /// The transport reported an error.
    Io,
}

/// Where an exchange stands.
#[derive(Debug)]
pub enum QueryState {
    /// The request is built and handed out to be sent.
    Built,
    /// The request is out; a reply is awaited.
    AwaitingReply,
    /// A reply was received and decoded.
    Decoded(Packet),
    /// The exchange failed.
    Failed(QueryError),
}

/// What the caller reports after performing an action.
#[derive(Debug)]
pub enum QueryEvent {
    /// The request was sent; this many bytes went out.
    Sent(usize),
    /// The endpoint became readable before the deadline.
    Readable,
    /// The deadline passed first.
    TimedOut,
    /// A receive found no datagram ready after all.
    WouldBlock,
    /// A datagram arrived with these bytes.
    Received(Vec<u8>),
    /// The transport failed.
    IoFailed,
}

/// What the caller is to do next.
#[derive(Debug, PartialEq, Eq)]
pub enum QueryAction {
    /// Send these bytes as one datagram.
    Send(Vec<u8>),
    /// Wait, under the deadline, until the endpoint is readable.
    WaitReadable,
    /// Try one non-blocking receive.
    Receive,
    /// Stop: the state is final.
    Finish,
}

/// The versions a request may carry.
pub open spec fn version_ok(version: u8) -> bool {
    1 <= version <= 4
}

/// Accepts a protocol version of 1 to 4 and rejects any other.
pub fn check_version(version: u8) -> (r: Result<u8, QueryError>)
    ensures
        version_ok(version) ==> r == Ok::<u8, QueryError>(version),
        !version_ok(version) ==> r == Err::<u8, QueryError>(QueryError::InvalidVersion(version)),
{
    if 1 <= version && version <= 4 {
        Ok(version)
    } else {
        Err(QueryError::InvalidVersion(version))
    }
}

/// The 48 bytes of a client query of the given version: leap "not in sync",
/// mode "client", stratum 16, and zeros after.
pub open spec fn request_bytes(version: u8) -> Seq<u8> {
    seq![pack_lvm(3, version, 3), 16u8] + Seq::new(46, |i: int| 0u8)
}

/// Builds and encodes the query that opens an exchange.
pub fn build_request(version: u8) -> (r: Vec<u8>)
    ensures
        r@ == request_bytes(version),
        r@.len() == PACKET_LEN,
{
    let p = Packet::new(Leap::NotInSync, version, Mode::Client);
    let mut buf: Vec<u8> = Vec::new();
    p.to_buf(&mut buf);
    assert(buf@ =~= request_bytes(version));
    buf
}

/// Opens an exchange: the request is built and is to be sent.
pub fn start(version: u8) -> (r: (QueryState, QueryAction))
    ensures
        r.0 is Built,
        r.1 matches QueryAction::Send(b) && b@ == request_bytes(version),
{
    (QueryState::Built, QueryAction::Send(build_request(version)))
}

/// The action that a state calls for when nothing new has happened.
pub open spec fn spec_action_of(s: QueryState) -> QueryAction {
    match s {
        QueryState::AwaitingReply => QueryAction::WaitReadable,
        _ => QueryAction::Finish,
    }
}

/// Moves an exchange on by one event.
///
/// A send of other than 48 bytes fails the exchange; readiness leads to a
/// receive; a receive that would block goes back to waiting; the deadline
/// fails it; a reply under 48 bytes fails it, any other is decoded from its
/// first 48 bytes. A transport error fails it. A final state stays as it is.
/// An event that the state does not expect changes nothing.
pub fn step(s: QueryState, e: QueryEvent) -> (r: (QueryState, QueryAction))
    ensures
        match (s, e) {
            (QueryState::Built, QueryEvent::Sent(n)) => if n == PACKET_LEN {
                r == (QueryState::AwaitingReply, QueryAction::WaitReadable)
            } else {
                r == (QueryState::Failed(QueryError::SendIncomplete), QueryAction::Finish)
            },
            (QueryState::Built, QueryEvent::IoFailed) => r == (
            QueryState::Failed(QueryError::Io),
            QueryAction::Finish,
            ),
            (QueryState::AwaitingReply, QueryEvent::Readable) => r == (
            QueryState::AwaitingReply,
            QueryAction::Receive,
            ),
            (QueryState::AwaitingReply, QueryEvent::WouldBlock) => r == (
            QueryState::AwaitingReply,
            QueryAction::WaitReadable,
            ),
            (QueryState::AwaitingReply, QueryEvent::TimedOut) => r == (
            QueryState::Failed(QueryError::Timeout),
            QueryAction::Finish,
            ),
            (QueryState::AwaitingReply, QueryEvent::IoFailed) => r == (
            QueryState::Failed(QueryError::Io),
            QueryAction::Finish,
            ),
            (QueryState::AwaitingReply, QueryEvent::Received(b)) => if b@.len() < PACKET_LEN {
                r == (QueryState::Failed(QueryError::ResponseTooShort), QueryAction::Finish)
            } else {
                &&& r.1 == QueryAction::Finish
                &&& (r.0 matches QueryState::Decoded(p) && p.spec_read_from(b@, 0))
            },
            (s0, _) => r == (s0, spec_action_of(s0)),
        },
{
    match (s, e) {
        (QueryState::Built, QueryEvent::Sent(n)) => {
            if n == PACKET_LEN {
                (QueryState::AwaitingReply, QueryAction::WaitReadable)
            } else {
                (QueryState::Failed(QueryError::SendIncomplete), QueryAction::Finish)
            }
        },
        (QueryState::Built, QueryEvent::IoFailed) => (
            QueryState::Failed(QueryError::Io),
            QueryAction::Finish,
        ),
        (QueryState::AwaitingReply, QueryEvent::Readable) => (
            QueryState::AwaitingReply,
            QueryAction::Receive,
        ),
        (QueryState::AwaitingReply, QueryEvent::WouldBlock) => (
            QueryState::AwaitingReply,
            QueryAction::WaitReadable,
        ),
        (QueryState::AwaitingReply, QueryEvent::TimedOut) => (
            QueryState::Failed(QueryError::Timeout),
            QueryAction::Finish,
        ),
        (QueryState::AwaitingReply, QueryEvent::IoFailed) => (
            QueryState::Failed(QueryError::Io),
            QueryAction::Finish,
        ),
        (QueryState::AwaitingReply, QueryEvent::Received(b)) => {
            if b.len() < PACKET_LEN {
                (QueryState::Failed(QueryError::ResponseTooShort), QueryAction::Finish)
            } else {
                let mut pos: usize = 0;
                let p = Packet::from_buf(b.as_slice(), &mut pos);
                (QueryState::Decoded(p), QueryAction::Finish)
            }
        },
        (QueryState::AwaitingReply, _) => (QueryState::AwaitingReply, QueryAction::WaitReadable),
        (s0, _) => (s0, QueryAction::Finish),
    }
}

} // verus!
