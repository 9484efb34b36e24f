//! The connection dispatcher's core: session identity and lifecycle, the
//! per-peer session table used to demultiplex UDP traffic, and the dispatch
//! policy that keeps one session's failure away from every other session.

use vstd::prelude::*;

verus! {

broadcast use vstd::std_specs::hash::group_hash_axioms;

use std::collections::HashMap;
use crate::protocols::common::{ProtocolType, TransportKind};

/// Lifecycle of one tunneled session.
#[derive(Clone, Copy, Debug, PartialEq, Eq, Structural)]
pub enum SessionState {
    Handshaking,
    Open,
    Closing,
    Closed,
}

/// A peer's address as plain values: an IPv4 address and a port.
#[derive(Clone, Copy, Debug, PartialEq, Eq, Hash, Structural)]
pub struct PeerAddr {
    pub ip: u32,
    pub port: u16,
}

impl PeerAddr {
    /// The table key of this peer: address and port packed into one integer.
    pub open spec fn key_spec(self) -> u64 {
        (self.ip as int * 0x10000 + self.port as int) as u64
    }

    /// Computes the table key.
    pub fn key(self) -> (r: u64)
        ensures
            r == self.key_spec(),
    {
        self.ip as u64 * 0x10000 + self.port as u64
    }
}

/// Distinct peers have distinct table keys: demultiplexing UDP traffic by
/// peer address never conflates two peers.
pub proof fn lemma_peer_key_injective(a: PeerAddr, b: PeerAddr)
    requires
        a.key_spec() == b.key_spec(),
    ensures
        a == b,
{
    assert(a.ip == b.ip && a.port == b.port) by (nonlinear_arith)
        requires
            a.ip as u64 * 0x10000 + a.port as u64 == b.ip as u64 * 0x10000 + b.port as u64,
            (a.port as u64) < 0x10000,
            (b.port as u64) < 0x10000;
}

/// One logical end-to-end tunneled session, independent of transport kind.
/// It exclusively owns its underlying transport resource.
#[derive(Clone, Copy, Debug, PartialEq, Eq, Structural)]
pub struct Session {
    pub id: u64,
    pub kind: TransportKind,
    pub peer: PeerAddr,
    pub state: SessionState,
}

impl Session {
    /// A session is created on accept or connect, still handshaking.
    pub fn new(id: u64, kind: TransportKind, peer: PeerAddr) -> (r: Self)
        ensures
            r == (Session { id, kind, peer, state: SessionState::Handshaking }),
    {
        Session { id, kind, peer, state: SessionState::Handshaking }
    }

    /// First phase of shutdown: the protocol-level close (e.g. a WebSocket
    /// close control frame) goes before the transport is released; an
    /// already-closed session stays closed.
    pub fn begin_close(&mut self)
        ensures
            final(self).state == (if old(self).state is Closed {
                SessionState::Closed
            } else {
                SessionState::Closing
            }),
            final(self).id == old(self).id,
            final(self).kind == old(self).kind,
            final(self).peer == old(self).peer,
    {
        if self.state != SessionState::Closed {
            self.state = SessionState::Closing;
        }
    }

    /// Second phase of shutdown: the transport resource is released and the
    /// session is destroyed.
    pub fn finish_close(&mut self)
        ensures
            final(self).state is Closed,
            final(self).id == old(self).id,
            final(self).kind == old(self).kind,
            final(self).peer == old(self).peer,
    {
        self.state = SessionState::Closed;
    }

    /// Closes the session in both phases. A repeated close call is a no-op,
    /// not an error: the result says whether there was anything left to
    /// close.
    pub fn close(&mut self) -> (r: bool)
        ensures
            final(self).state is Closed,
            final(self).id == old(self).id,
            final(self).kind == old(self).kind,
            final(self).peer == old(self).peer,
            r == (old(self).state != SessionState::Closed),
    {
        let was_live = self.state != SessionState::Closed;
        self.begin_close();
        self.finish_close();
        was_live
    }
}

/// The UDP demultiplexing table: each distinct peer maps to one logical
/// session entry. The table is owned exclusively by the loop that reads the
/// socket; lookups and insertions happen only there.
pub struct SessionTable {
    entries: HashMap<u64, Session>,
    next_id: u64,
}

impl SessionTable {
    /// The entries as a map from peer key to session.
    pub closed spec fn entries_spec(self) -> Map<u64, Session> {
        self.entries@
    }

    /// The id the next fresh entry will carry.
    pub closed spec fn next_id_spec(self) -> u64 {
        self.next_id
    }

    /// Every entry sits at its own peer's key and is a datagram session.
    pub open spec fn wf(self) -> bool {
        forall|k: u64|
            self.entries_spec().dom().contains(k) ==> {
                &&& (#[trigger] self.entries_spec()[k]).peer.key_spec() == k
                &&& self.entries_spec()[k].kind == TransportKind::Datagram
            }
    }

    /// Creates an empty table.
    pub fn new() -> (r: Self)
        ensures
            r.wf(),
            r.entries_spec() == Map::<u64, Session>::empty(),
            r.next_id_spec() == 0,
    {
        SessionTable { entries: HashMap::new(), next_id: 0 }
    }

    /// Looks up the session entry of a peer.
    pub fn lookup(&self, peer: PeerAddr) -> (r: Option<&Session>)
        ensures
            match r {
                Some(s) => self.entries_spec().contains_key(peer.key_spec()) && *s
                    == self.entries_spec()[peer.key_spec()],
                None => !self.entries_spec().contains_key(peer.key_spec()),
            },
    {
        self.entries.get(&peer.key())
    }

    /// Returns the session entry of `peer`, creating it — handshaking, with
    /// a fresh id — when the peer is new.
    pub fn ensure_entry(&mut self, peer: PeerAddr) -> (r: Session)
        requires
            old(self).wf(),
        ensures
            final(self).wf(),
            final(self).entries_spec().contains_key(peer.key_spec()),
            r == final(self).entries_spec()[peer.key_spec()],
            old(self).entries_spec().contains_key(peer.key_spec()) ==> final(self).entries_spec()
                == old(self).entries_spec() && r == old(self).entries_spec()[peer.key_spec()],
            !old(self).entries_spec().contains_key(peer.key_spec()) ==> {
                &&& r == (Session {
                    id: old(self).next_id_spec(),
                    kind: TransportKind::Datagram,
                    peer,
                    state: SessionState::Handshaking,
                })
                &&& final(self).entries_spec() == old(self).entries_spec().insert(
                    peer.key_spec(),
                    r,
                )
            },
    {
        let k = peer.key();
        match self.entries.get(&k) {
            Some(s) => *s,
            None => {
                let s = Session::new(self.next_id, TransportKind::Datagram, peer);
                self.next_id = self.next_id.wrapping_add(1);
                self.entries.insert(k, s);
                s
            },
        }
    }

    /// Removes a peer's entry, e.g. when it is pruned on idle timeout.
    pub fn remove(&mut self, peer: PeerAddr) -> (r: Option<Session>)
        requires
            old(self).wf(),
        ensures
            final(self).wf(),
            final(self).entries_spec() == old(self).entries_spec().remove(peer.key_spec()),
            match r {
                Some(s) => old(self).entries_spec().contains_key(peer.key_spec()) && s
                    == old(self).entries_spec()[peer.key_spec()],
                None => !old(self).entries_spec().contains_key(peer.key_spec()),
            },
    {
        self.entries.remove(&peer.key())
    }

    /// How many peers currently have a session entry.
    pub fn len(&self) -> (r: usize)
        ensures
            r == self.entries_spec().dom().len(),
    {
        self.entries.len()
    }
}

/// Which protocol serves which transport: stream connections go to OTLS/WS,
/// datagrams to AOQUIC.
pub fn route(kind: TransportKind) -> (r: ProtocolType)
    ensures
        kind is Stream <==> r is OtlsWs,
        kind is Datagram <==> r is AoQuic,
{
    match kind {
        TransportKind::Stream => ProtocolType::OtlsWs,
        TransportKind::Datagram => ProtocolType::AoQuic,
    }
}

/// Events the dispatcher reacts to while it runs its accept loops.
#[derive(Clone, Copy, Debug, PartialEq, Eq, Structural)]
pub enum DispatchEvent {
    /// A listening socket could not be bound at startup.
    BindFailed,
    /// One accept of an incoming connection failed.
    AcceptFailed,
    /// One session's processing unit ended with a terminal error.
    SessionFailed,
    /// One session's processing unit completed.
    SessionDone,
}

/// What the dispatcher does next.
#[derive(Clone, Copy, Debug, PartialEq, Eq, Structural)]
pub enum DispatchAction {
    /// Log if need be, and keep accepting.
    Continue,
    /// Abort startup: both disguised transports are part of the service
    /// contract, so a socket that cannot be bound is fatal.
    Abort,
}

/// The dispatcher's error-propagation policy. Only a bind failure is fatal:
/// accept errors and per-session failures are logged and the loops continue,
/// so a failure in one session's processing unit never aborts the dispatcher
/// or the other sessions.
pub fn dispatch_policy(e: DispatchEvent) -> (r: DispatchAction)
    ensures
        r is Abort <==> e is BindFailed,
{
    match e {
        DispatchEvent::BindFailed => DispatchAction::Abort,
        DispatchEvent::AcceptFailed => DispatchAction::Continue,
        DispatchEvent::SessionFailed => DispatchAction::Continue,
        DispatchEvent::SessionDone => DispatchAction::Continue,
    }
}

} // verus!
