//! Implements the Obfuscated TLS over WebSocket (OTLS/WS) protocol: the
//! TCP-based transport disguised as ordinary HTTPS/WebSocket browsing.

use vstd::prelude::*;

verus! {

use crate::dispatcher::{PeerAddr, Session, SessionState};
use crate::obfuscation::ObfuscatedProtocol;
use crate::protocols::common::{bytes_eq, ProtocolError, TransportKind};
use crate::security::traffic_obfuscation::Obfuscator;

/// The fixed head of the disguised upgrade request: a request line shaped
/// like ordinary browsing, then the start of the Host header.
/// "GET / HTTP/1.1\r\nHost: "
pub open spec fn handshake_prefix() -> Seq<u8> {
    seq![
        0x47u8, 0x45, 0x54, 0x20, 0x2F, 0x20, 0x48, 0x54, 0x54, 0x50, 0x2F, 0x31, 0x2E, 0x31,
        0x0D, 0x0A, 0x48, 0x6F, 0x73, 0x74, 0x3A, 0x20,
    ]
}

/// The fixed tail of the disguised upgrade request: the WebSocket upgrade
/// headers. "\r\nUpgrade: websocket\r\nConnection: Upgrade\r\n\r\n"
pub open spec fn handshake_suffix() -> Seq<u8> {
    seq![
        0x0Du8, 0x0A, 0x55, 0x70, 0x67, 0x72, 0x61, 0x64, 0x65, 0x3A, 0x20, 0x77, 0x65, 0x62,
        0x73, 0x6F, 0x63, 0x6B, 0x65, 0x74, 0x0D, 0x0A, 0x43, 0x6F, 0x6E, 0x6E, 0x65, 0x63,
        0x74, 0x69, 0x6F, 0x6E, 0x3A, 0x20, 0x55, 0x70, 0x67, 0x72, 0x61, 0x64, 0x65, 0x0D,
        0x0A, 0x0D, 0x0A,
    ]
}

/// A domain can stand in a Host header when it holds no carriage return:
/// the header is delimited by the first one after it.
pub open spec fn domain_ok(d: Seq<u8>) -> bool {
    forall|i: int| 0 <= i < d.len() ==> d[i] != 0x0D
}

/// The whole disguised WebSocket upgrade request for a mimic domain.
pub open spec fn handshake_request_spec(domain: Seq<u8>) -> Seq<u8> {
    handshake_prefix() + domain + handshake_suffix()
}

/// Builds the fixed head of the upgrade request.
fn handshake_prefix_vec() -> (r: Vec<u8>)
    ensures
        r@ == handshake_prefix(),
{
    let mut out: Vec<u8> = Vec::new();
    out.push(0x47);
    out.push(0x45);
    out.push(0x54);
    out.push(0x20);
    out.push(0x2F);
    out.push(0x20);
    out.push(0x48);
    out.push(0x54);
    out.push(0x54);
    out.push(0x50);
    out.push(0x2F);
    out.push(0x31);
    out.push(0x2E);
    out.push(0x31);
    out.push(0x0D);
    out.push(0x0A);
    out.push(0x48);
    out.push(0x6F);
    out.push(0x73);
    out.push(0x74);
    out.push(0x3A);
    out.push(0x20);
    proof {
        assert(out@ =~= handshake_prefix());
    }
    out
}

/// Builds the fixed tail of the upgrade request.
fn handshake_suffix_vec() -> (r: Vec<u8>)
    ensures
        r@ == handshake_suffix(),
{
    let mut out: Vec<u8> = Vec::new();
    out.push(0x0D);
    out.push(0x0A);
    out.push(0x55);
    out.push(0x70);
    out.push(0x67);
    out.push(0x72);
    out.push(0x61);
    out.push(0x64);
    out.push(0x65);
    out.push(0x3A);
    out.push(0x20);
    out.push(0x77);
    out.push(0x65);
    out.push(0x62);
    out.push(0x73);
    out.push(0x6F);
    out.push(0x63);
    out.push(0x6B);
    out.push(0x65);
    out.push(0x74);
    out.push(0x0D);
    out.push(0x0A);
    out.push(0x43);
    out.push(0x6F);
    out.push(0x6E);
    out.push(0x6E);
    out.push(0x65);
    out.push(0x63);
    out.push(0x74);
    out.push(0x69);
    out.push(0x6F);
    out.push(0x6E);
    out.push(0x3A);
    out.push(0x20);
    out.push(0x55);
    out.push(0x70);
    out.push(0x67);
    out.push(0x72);
    out.push(0x61);
    out.push(0x64);
    out.push(0x65);
    out.push(0x0D);
    out.push(0x0A);
    out.push(0x0D);
    out.push(0x0A);
    proof {
        assert(out@ =~= handshake_suffix());
    }
    out
}

/// Builds the disguised WebSocket upgrade request whose request line and
/// headers are shaped to resemble ordinary HTTPS browsing to `domain`.
pub fn build_handshake_request(domain: &[u8]) -> (r: Vec<u8>)
    requires
        domain@.len() + 128 <= usize::MAX,
    ensures
        r@ == handshake_request_spec(domain@),
{
    let mut out = handshake_prefix_vec();
    let mut i: usize = 0;
    while i < domain.len()
        invariant
            i <= domain@.len(),
            out@ =~= handshake_prefix() + domain@.take(i as int),
        decreases domain@.len() - i,
    {
        out.push(domain[i]);
        i += 1;
    }
    let mut suffix = handshake_suffix_vec();
    out.append(&mut suffix);
    proof {
        assert(domain@.take(domain@.len() as int) =~= domain@);
        assert(out@ =~= handshake_request_spec(domain@));
    }
    out
}

/// Reads the mimic domain back out of a disguised upgrade request. Exactly
/// the requests that `build_handshake_request` produces for an acceptable
/// domain are accepted; anything else is rejected.
pub fn parse_handshake_host(req: &[u8]) -> (r: Option<Vec<u8>>)
    ensures
        r matches Some(d) ==> req@ == handshake_request_spec(d@) && domain_ok(d@),
        forall|d: Seq<u8>|
            domain_ok(d) && req@ == handshake_request_spec(d) ==> (r matches Some(x) && x@ == d),
{
    let prefix = handshake_prefix_vec();
    let suffix = handshake_suffix_vec();
    if req.len() < prefix.len() + suffix.len() {
        proof {
            lemma_handshake_parts_short(req@);
        }
        return None;
    }
    if !bytes_eq(&req[0..prefix.len()], prefix.as_slice()) {
        proof {
            lemma_handshake_parts_prefix(req@);
        }
        return None;
    }
    // The Host value runs to the first carriage return after the prefix.
    let mut end: usize = prefix.len();
    while end < req.len() && req[end] != 0x0D
        invariant
            handshake_prefix().len() <= end <= req@.len(),
            forall|i: int| handshake_prefix().len() <= i < end ==> req@[i] != 0x0D,
        decreases req@.len() - end,
    {
        end += 1;
    }
    if req.len() - end != suffix.len() {
        proof {
            lemma_handshake_parts_split(req@, end as int);
        }
        return None;
    }
    if !bytes_eq(&req[end..req.len()], suffix.as_slice()) {
        proof {
            lemma_handshake_parts_split(req@, end as int);
        }
        return None;
    }
    let mut domain: Vec<u8> = Vec::new();
    let mut i: usize = prefix.len();
    while i < end
        invariant
            handshake_prefix().len() <= i <= end <= req@.len(),
            domain@ =~= req@.subrange(handshake_prefix().len() as int, i as int),
        decreases end - i,
    {
        domain.push(req[i]);
        i += 1;
    }
    proof {
        let plen = handshake_prefix().len() as int;
        assert(domain@ =~= req@.subrange(plen, end as int));
        assert(req@ =~= handshake_request_spec(domain@));
        lemma_handshake_domain_unique(req@, domain@);
    }
    Some(domain)
}

/// A request shorter than the fixed parts together fits no domain.
proof fn lemma_handshake_parts_short(w: Seq<u8>)
    requires
        w.len() < handshake_prefix().len() + handshake_suffix().len(),
    ensures
        forall|d: Seq<u8>| w != handshake_request_spec(d),
{
    assert forall|d: Seq<u8>| w != handshake_request_spec(d) by {
        assert(handshake_request_spec(d).len() >= handshake_prefix().len()
            + handshake_suffix().len());
    }
}

/// A request that does not open with the fixed head is no upgrade request.
proof fn lemma_handshake_parts_prefix(w: Seq<u8>)
    requires
        w.len() >= handshake_prefix().len(),
        w.subrange(0, handshake_prefix().len() as int) != handshake_prefix(),
    ensures
        forall|d: Seq<u8>| w != handshake_request_spec(d),
{
    assert forall|d: Seq<u8>| w != handshake_request_spec(d) by {
        if w == handshake_request_spec(d) {
            assert(w.subrange(0, handshake_prefix().len() as int) =~= handshake_prefix());
        }
    }
}

/// In a built request, the first carriage return after the head stands
/// exactly where the domain ends; a split anywhere else cannot close with
/// the fixed tail.
proof fn lemma_handshake_parts_split(w: Seq<u8>, end: int)
    requires
        handshake_prefix().len() <= end <= w.len(),
        forall|i: int| handshake_prefix().len() <= i < end ==> w[i] != 0x0D,
        end == w.len() || w[end] == 0x0D,
        w.len() - end != handshake_suffix().len() || w.subrange(end, w.len() as int)
            != handshake_suffix(),
    ensures
        forall|d: Seq<u8>| !(domain_ok(d) && w == handshake_request_spec(d)),
{
    let plen = handshake_prefix().len() as int;
    let slen = handshake_suffix().len() as int;
    assert forall|d: Seq<u8>| !(domain_ok(d) && w == handshake_request_spec(d)) by {
        if domain_ok(d) && w == handshake_request_spec(d) {
            // The domain holds no carriage return and the tail opens with
            // one, so the scan stops exactly at the end of the domain.
            assert(w[plen + d.len()] == handshake_suffix()[0]);
            assert(w[plen + d.len()] == 0x0D);
            if end < plen + d.len() {
                assert(w[end] == d[end - plen]);
                assert(w[end] == 0x0D);
            }
            if end > plen + d.len() {
                assert(w[plen + d.len()] != 0x0D);
            }
            assert(end == plen + d.len());
            assert(w.len() - end == slen);
            assert(w.subrange(end, w.len() as int) =~= handshake_suffix());
        }
    }
}

/// Only one domain fits a given request: the parsed value.
proof fn lemma_handshake_domain_unique(w: Seq<u8>, parsed: Seq<u8>)
    requires
        w == handshake_request_spec(parsed),
        domain_ok(parsed),
    ensures
        forall|d: Seq<u8>|
            domain_ok(d) && w == handshake_request_spec(d) ==> d == parsed,
{
    assert forall|d: Seq<u8>|
        domain_ok(d) && w == handshake_request_spec(d) implies d == parsed by {
        assert(handshake_request_spec(d).len() == handshake_request_spec(parsed).len());
        assert(d.len() == parsed.len());
        let plen = handshake_prefix().len() as int;
        assert forall|i: int| 0 <= i < d.len() implies d[i] == parsed[i] by {
            assert(handshake_request_spec(d)[plen + i] == d[i]);
            assert(handshake_request_spec(parsed)[plen + i] == parsed[i]);
        }
        assert(d =~= parsed);
    }
}

/// Represents the OTLS/WS obfuscated protocol: immutable configuration plus
/// stateless behavior, safely shared by many concurrent sessions. All
/// per-session mutable state lives in the session's own obfuscation context.
#[derive(Clone)]
pub struct OtlsWsProtocol {}

impl OtlsWsProtocol {
    /// Creates a new instance of the OtlsWsProtocol.
    pub fn new() -> (r: Self)
        ensures
            r == (OtlsWsProtocol {  }),
    {
        OtlsWsProtocol {  }
    }

    /// Accepts an incoming byte-stream session: the disguised handshake
    /// upgrades it for tunneling, leaving it open. A datagram session handed
    /// here is a protocol violation and is left untouched.
    pub fn handle_tcp_stream(&self, session: &mut Session) -> (r: Result<(), ProtocolError>)
        ensures
            old(session).kind is Stream ==> {
                &&& r is Ok
                &&& final(session).state is Open
                &&& final(session).id == old(session).id
                &&& final(session).kind == old(session).kind
                &&& final(session).peer == old(session).peer
            },
            old(session).kind is Datagram ==> (r matches Err(e) && e is ProtocolViolation)
                && *final(session) == *old(session),
    {
        match self.check_transport(session.kind) {
            Ok(u) => {
                session.state = SessionState::Open;
                Ok(u)
            },
            Err(e) => Err(e),
        }
    }

    /// OTLS/WS is a TCP-based protocol: a datagram invocation is rejected,
    /// whatever it carries and whoever sent it.
    pub fn handle_udp_packet(&self, _buf: &[u8], _peer: PeerAddr) -> (r: Result<
        (),
        ProtocolError,
    >)
        ensures
            r matches Err(e) && e matches ProtocolError::ProtocolViolation(m) && m@
                == "OTLS/WS does not handle UDP packets."@,
    {
        Err(
            ProtocolError::ProtocolViolation("OTLS/WS does not handle UDP packets.".to_owned()),
        )
    }
}

impl ObfuscatedProtocol for OtlsWsProtocol {
    open spec fn supported_kind(&self) -> TransportKind {
        TransportKind::Stream
    }

    open spec fn spec_name(&self) -> Seq<char> {
        "OTLS/WS"@
    }

    fn name(&self) -> (r: &'static str) {
        "OTLS/WS"
    }

    fn check_transport(&self, kind: TransportKind) -> (r: Result<(), ProtocolError>) {
        match kind {
            TransportKind::Stream => Ok(()),
            TransportKind::Datagram => Err(
                ProtocolError::ProtocolViolation(
                    "OTLS/WS does not handle UDP packets.".to_owned(),
                ),
            ),
        }
    }

    fn seal_payload(&self, engine: &Obfuscator, payload: &[u8]) -> (r: Vec<u8>) {
        engine.obfuscate_data(payload)
    }

    fn open_payload(&self, engine: &Obfuscator, wire: &[u8]) -> (r: Result<
        Vec<u8>,
        ProtocolError,
    >) {
        engine.deobfuscate_data(wire)
    }
}

} // verus!
