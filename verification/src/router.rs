//! The per-connection routing state machine.
//!
//! One session owns one accepted client connection and moves through
//! `Accepted → HeaderCaptured → SniExtracted → Authorized → Resolved →
//! Connected → Forwarded → Relaying → Closed`; every failure goes directly
//! to `Closed` with its reason.  The machine itself is pure: `step`
//! consumes the current state and one event and returns the next state,
//! and `required_action` says what the embedding program must do in a
//! state — read, resolve, connect, forward, relay, or close — to produce
//! the next event.  The embedding program performs the I/O; every routing
//! decision stands here.
//!
//! Only IPv6 backend addresses are eligible: the proxy's own listener is
//! IPv4, so routing to an IPv4 backend risks a loop back into itself.
//! Sessions share nothing mutable: each owns its state value, and the
//! rules are read-only, so no session can affect another.

use vstd::prelude::*;
use crate::allowlist::{is_allowed, spec_is_allowed};
use crate::hello::{extract_sni_from_header, spec_extract_sni};

verus! {

/// The cap on the single initial read of the client socket.  A ClientHello
/// that does not fit or arrive within one read fails parsing; the buffer
/// is never re-read or grown.
pub const MAX_HEADER_BYTES: usize = 4096;

/// Backends are contacted on the TLS port.
pub const BACKEND_PORT: u16 = 443;

/// Why a session reached its terminal state.
#[derive(Clone, Copy, Debug, PartialEq, Eq, Structural)]
pub enum CloseReason {
    /// The initial read failed or returned zero bytes.
    ReadError,
    /// The captured bytes are not a parseable TLS record.
    ParseFailed,
    /// A valid record, but no usable SNI hostname.
    NoSni,
    /// The hostname is not covered by the configured allowlist.
    NotAllowlisted,
    /// The DNS lookup failed or returned no IPv6 address.
    ResolutionFailed,
    /// The outbound connection could not be opened.
    ConnectFailed,
    /// Replaying the captured header to the backend failed.
    ForwardFailed,
    /// The relay ran; each direction reports independently whether it
    /// ended at end-of-stream rather than on an error.
    Done { client_to_backend_ok: bool, backend_to_client_ok: bool },
}

/// One address from the DNS result set, resolver order preserved.
/// An IPv6 address is carried as its 128-bit big-endian value, an IPv4
/// address as its 32-bit one.
#[derive(Clone, Copy, Debug, PartialEq, Eq, Structural)]
pub enum BackendAddr {
    V4(u32),
    V6(u128),
}

/// The lifecycle states of one session, in order.  Failure transitions go
/// directly to `Closed`.
#[derive(Debug)]
pub enum SessionState {
    /// A client connection was accepted; nothing read yet.
    Accepted,
    /// The single bounded read captured `buffer`.
    HeaderCaptured { buffer: Vec<u8> },
    /// The parser recovered `hostname` from `buffer`.
    SniExtracted { buffer: Vec<u8>, hostname: Vec<u8> },
    /// The allowlist admitted `hostname`.
    Authorized { buffer: Vec<u8>, hostname: Vec<u8> },
    /// DNS yielded the IPv6 `backend` for `hostname`.
    Resolved { buffer: Vec<u8>, hostname: Vec<u8>, backend: u128 },
    /// The outbound connection to `backend` is open.
    Connected { buffer: Vec<u8>, hostname: Vec<u8>, backend: u128 },
    /// The captured header was replayed to the backend in full.
    Forwarded { hostname: Vec<u8> },
    /// Both relay directions are running.
    Relaying { hostname: Vec<u8> },
    /// Terminal: the session is over for `reason`.
    Closed { reason: CloseReason },
}

/// What the embedding program reports back to the machine.
#[derive(Debug)]
pub enum SessionEvent {
    /// Nothing external happened; the machine has pure work pending.
    Advance,
    /// The initial read returned `data` (empty means end-of-stream).
    ReadCompleted { data: Vec<u8> },
    /// The initial read failed.
    ReadFailed,
    /// The DNS lookup returned `addrs`, in resolver order.
    ResolveCompleted { addrs: Vec<BackendAddr> },
    /// The DNS lookup failed.
    ResolveFailed,
    /// The outbound connect finished.
    ConnectCompleted { ok: bool },
    /// The header replay finished.
    ForwardCompleted { ok: bool },
    /// Both relay directions finished, each reporting independently.
    RelayCompleted { client_to_backend_ok: bool, backend_to_client_ok: bool },
}

/// What the embedding program must do next to produce the next event.
#[derive(Debug)]
pub enum SessionAction {
    /// Issue one read of at most `max_len` bytes on the client socket.
    ReadClientHeader { max_len: usize },
    /// No I/O is needed; feed `Advance` to `step` at once.
    Proceed,
    /// Look `hostname` up in DNS.
    ResolveHostname { hostname: Vec<u8> },
    /// Open a connection to `addr` on `port`.
    ConnectBackend { addr: u128, port: u16 },
    /// Write all of `data` to the backend before any other byte flows.
    ForwardHeader { data: Vec<u8> },
    /// Run the two relay directions concurrently, waiting for both.
    RelayBoth,
    /// Close the sockets and end the session.
    CloseSession,
}

/// The first IPv6 address in resolver order, if any.
pub open spec fn spec_first_v6(addrs: Seq<BackendAddr>) -> Option<u128>
    decreases addrs.len(),
{
    if addrs.len() == 0 {
        None
    } else {
        match addrs[0] {
            BackendAddr::V6(a) => Some(a),
            BackendAddr::V4(_) => spec_first_v6(addrs.drop_first()),
        }
    }
}

/// How `step` relates one state and one event to the next state: the
/// transition table of the session lifecycle.
pub open spec fn step_rel(
    pre: SessionState,
    event: SessionEvent,
    rules: Seq<Seq<u8>>,
    post: SessionState,
) -> bool {
    match pre {
        SessionState::Accepted => match event {
            SessionEvent::ReadCompleted { data } => if data@.len() == 0 {
                post == (SessionState::Closed { reason: CloseReason::ReadError })
            } else {
                post matches SessionState::HeaderCaptured { buffer } && buffer@ == data@
            },
            SessionEvent::ReadFailed => post == (SessionState::Closed {
                reason: CloseReason::ReadError,
            }),
            _ => post == pre,
        },
        SessionState::HeaderCaptured { buffer } => match event {
            SessionEvent::Advance => match spec_extract_sni(buffer@) {
                Err(_) => post == (SessionState::Closed { reason: CloseReason::ParseFailed }),
                Ok(None) => post == (SessionState::Closed { reason: CloseReason::NoSni }),
                Ok(Some(h)) => post matches SessionState::SniExtracted { buffer: b2, hostname }
                    && b2@ == buffer@ && hostname@ == h,
            },
            _ => post == pre,
        },
        SessionState::SniExtracted { buffer, hostname } => match event {
            SessionEvent::Advance => if spec_is_allowed(hostname@, rules) {
                post == (SessionState::Authorized { buffer, hostname })
            } else {
                post == (SessionState::Closed { reason: CloseReason::NotAllowlisted })
            },
            _ => post == pre,
        },
        SessionState::Authorized { buffer, hostname } => match event {
            SessionEvent::ResolveCompleted { addrs } => match spec_first_v6(addrs@) {
                Some(a) => post == (SessionState::Resolved { buffer, hostname, backend: a }),
                None => post == (SessionState::Closed { reason: CloseReason::ResolutionFailed }),
            },
            SessionEvent::ResolveFailed => post == (SessionState::Closed {
                reason: CloseReason::ResolutionFailed,
            }),
            _ => post == pre,
        },
        SessionState::Resolved { buffer, hostname, backend } => match event {
            SessionEvent::ConnectCompleted { ok } => if ok {
                post == (SessionState::Connected { buffer, hostname, backend })
            } else {
                post == (SessionState::Closed { reason: CloseReason::ConnectFailed })
            },
            _ => post == pre,
        },
        SessionState::Connected { buffer, hostname, backend } => match event {
            SessionEvent::ForwardCompleted { ok } => if ok {
                post == (SessionState::Forwarded { hostname })
            } else {
                post == (SessionState::Closed { reason: CloseReason::ForwardFailed })
            },
            _ => post == pre,
        },
        SessionState::Forwarded { hostname } => match event {
            SessionEvent::Advance => post == (SessionState::Relaying { hostname }),
            _ => post == pre,
        },
        SessionState::Relaying { hostname } => match event {
            SessionEvent::RelayCompleted { client_to_backend_ok, backend_to_client_ok } => post
                == (SessionState::Closed {
                reason: CloseReason::Done { client_to_backend_ok, backend_to_client_ok },
            }),
            _ => post == pre,
        },
        SessionState::Closed { reason } => post == pre,
    }
}

/// What the embedding program must do in each state: the only state whose
/// action opens an outbound connection is `Resolved`, the only one that
/// forwards bytes is `Connected` — and it forwards exactly the captured
/// buffer — and the relay starts only in `Relaying`, after the forward
/// completed.
pub open spec fn action_rel(state: SessionState, a: SessionAction) -> bool {
    match state {
        SessionState::Accepted => a == (SessionAction::ReadClientHeader {
            max_len: MAX_HEADER_BYTES,
        }),
        SessionState::HeaderCaptured { buffer } => a == SessionAction::Proceed,
        SessionState::SniExtracted { buffer, hostname } => a == SessionAction::Proceed,
        SessionState::Authorized { buffer, hostname } => a matches SessionAction::ResolveHostname {
            hostname: h,
        } && h@ == hostname@,
        SessionState::Resolved { buffer, hostname, backend } => a == (SessionAction::ConnectBackend {
            addr: backend,
            port: BACKEND_PORT,
        }),
        SessionState::Connected { buffer, hostname, backend } => a
            matches SessionAction::ForwardHeader { data } && data@ == buffer@,
        SessionState::Forwarded { hostname } => a == SessionAction::Proceed,
        SessionState::Relaying { hostname } => a == SessionAction::RelayBoth,
        SessionState::Closed { reason } => a == SessionAction::CloseSession,
    }
}

/// A byte-for-byte copy of `v`.
fn clone_bytes(v: &Vec<u8>) -> (r: Vec<u8>)
    ensures
        r@ == v@,
{
    let mut r: Vec<u8> = Vec::new();
    let mut i: usize = 0;
    while i < v.len()
        invariant
            i <= v@.len(),
            r@ == v@.take(i as int),
        decreases v@.len() - i,
    {
        r.push(v[i]);
        proof {
            assert(r@ =~= v@.take(i + 1));
        }
        i += 1;
    }
    proof {
        assert(v@.take(v@.len() as int) =~= v@);
    }
    r
}

fn first_v6_from(addrs: &Vec<BackendAddr>, i: usize) -> (r: Option<u128>)
    requires
        i <= addrs@.len(),
    ensures
        r == spec_first_v6(addrs@.skip(i as int)),
    decreases addrs@.len() - i,
{
    if i == addrs.len() {
        proof {
            assert(addrs@.skip(i as int) =~= Seq::<BackendAddr>::empty());
        }
        None
    } else {
        proof {
            assert(addrs@.skip(i as int)[0] == addrs@[i as int]);
            assert(addrs@.skip(i as int).drop_first() =~= addrs@.skip(i as int + 1));
        }
        match addrs[i] {
            BackendAddr::V6(a) => Some(a),
            BackendAddr::V4(_) => first_v6_from(addrs, i + 1),
        }
    }
}

/// The first IPv6 address in resolver order; `None` when the result set
/// holds only IPv4 addresses, which are discarded by design.
pub fn first_v6(addrs: &Vec<BackendAddr>) -> (r: Option<u128>)
    ensures
        r == spec_first_v6(addrs@),
{
    proof {
        assert(addrs@.skip(0) =~= addrs@);
    }
    first_v6_from(addrs, 0)
}

/// The state a session starts in when a connection is accepted.
pub fn session_start() -> (s: SessionState)
    ensures
        s == SessionState::Accepted,
{
    SessionState::Accepted
}

/// Consumes the current state and one event and returns the next state,
/// exactly as `step_rel` says: parsing, authorization and backend
/// selection all happen here.  A `Closed` state is terminal — every event
/// leaves it unchanged — and an event that does not belong to the current
/// state changes nothing.
pub fn step(state: SessionState, event: SessionEvent, rules: &Vec<Vec<u8>>) -> (next: SessionState)
    ensures
        step_rel(state, event, rules.deep_view(), next),
{
    match (state, event) {
        (SessionState::Accepted, SessionEvent::ReadCompleted { data }) => {
            if data.len() == 0 {
                SessionState::Closed { reason: CloseReason::ReadError }
            } else {
                SessionState::HeaderCaptured { buffer: data }
            }
        },
        (SessionState::Accepted, SessionEvent::ReadFailed) => {
            SessionState::Closed { reason: CloseReason::ReadError }
        },
        (SessionState::HeaderCaptured { buffer }, SessionEvent::Advance) => {
            match extract_sni_from_header(buffer.as_slice()) {
                Err(_) => SessionState::Closed { reason: CloseReason::ParseFailed },
                Ok(None) => SessionState::Closed { reason: CloseReason::NoSni },
                Ok(Some(h)) => SessionState::SniExtracted { buffer, hostname: h },
            }
        },
        (SessionState::SniExtracted { buffer, hostname }, SessionEvent::Advance) => {
            if is_allowed(&hostname, rules) {
                SessionState::Authorized { buffer, hostname }
            } else {
                SessionState::Closed { reason: CloseReason::NotAllowlisted }
            }
        },
        (SessionState::Authorized { buffer, hostname }, SessionEvent::ResolveCompleted {
            addrs,
        }) => {
            match first_v6(&addrs) {
                Some(a) => SessionState::Resolved { buffer, hostname, backend: a },
                None => SessionState::Closed { reason: CloseReason::ResolutionFailed },
            }
        },
        (SessionState::Authorized { .. }, SessionEvent::ResolveFailed) => {
            SessionState::Closed { reason: CloseReason::ResolutionFailed }
        },
        (SessionState::Resolved { buffer, hostname, backend }, SessionEvent::ConnectCompleted {
            ok,
        }) => {
            if ok {
                SessionState::Connected { buffer, hostname, backend }
            } else {
                SessionState::Closed { reason: CloseReason::ConnectFailed }
            }
        },
        (SessionState::Connected { buffer, hostname, backend }, SessionEvent::ForwardCompleted {
            ok,
        }) => {
            if ok {
                SessionState::Forwarded { hostname }
            } else {
                SessionState::Closed { reason: CloseReason::ForwardFailed }
            }
        },
        (SessionState::Forwarded { hostname }, SessionEvent::Advance) => {
            SessionState::Relaying { hostname }
        },
        (SessionState::Relaying { hostname }, SessionEvent::RelayCompleted {
            client_to_backend_ok,
            backend_to_client_ok,
        }) => {
            SessionState::Closed {
                reason: CloseReason::Done { client_to_backend_ok, backend_to_client_ok },
            }
        },
        (s, _) => s,
    }
}

/// What the embedding program must do in `state` to produce the next
/// event, exactly as `action_rel` says.
pub fn required_action(state: &SessionState) -> (a: SessionAction)
    ensures
        action_rel(*state, a),
{
    match state {
        SessionState::Accepted => SessionAction::ReadClientHeader { max_len: MAX_HEADER_BYTES },
        SessionState::HeaderCaptured { .. } => SessionAction::Proceed,
        SessionState::SniExtracted { .. } => SessionAction::Proceed,
        SessionState::Authorized { hostname, .. } => SessionAction::ResolveHostname {
            hostname: clone_bytes(hostname),
        },
        SessionState::Resolved { backend, .. } => SessionAction::ConnectBackend {
            addr: *backend,
            port: BACKEND_PORT,
        },
        SessionState::Connected { buffer, .. } => SessionAction::ForwardHeader {
            data: clone_bytes(buffer),
        },
        SessionState::Forwarded { .. } => SessionAction::Proceed,
        SessionState::Relaying { .. } => SessionAction::RelayBoth,
        SessionState::Closed { .. } => SessionAction::CloseSession,
    }
}

} // verus!
