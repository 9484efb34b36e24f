//! Implements the Adaptive Obfuscated QUIC (AOQUIC) protocol: the UDP-based
//! transport presenting as ordinary encrypted QUIC traffic.
//!
//! The underlying transport is datagram-based while the exposed interface is
//! stream-like, so the handler buffers partial reads until one complete
//! obfuscated frame is available; an incomplete read reports "not ready"
//! without consuming or exposing partial data.

use vstd::prelude::*;

verus! {

use crate::obfuscation::ObfuscatedProtocol;
use crate::protocols::common::{be16_hi, be16_lo, be16_val, lemma_be16_round_trip, ProtocolError,
    TransportKind};
use crate::security::traffic_obfuscation::Obfuscator;

/// The length a frame header announces for its body.
pub open spec fn frame_len_of(b: Seq<u8>) -> int {
    be16_val(b[0], b[1])
}

/// Whether buffered bytes hold at least one complete frame.
pub open spec fn frame_ready(b: Seq<u8>) -> bool {
    b.len() >= 2 && b.len() >= 2 + frame_len_of(b)
}

/// The wire form of one frame: a two-byte big-endian length prefix, then the
/// body.
pub open spec fn frame_encoding(body: Seq<u8>) -> Seq<u8> {
    seq![be16_hi(body.len() as u16), be16_lo(body.len() as u16)] + body
}

/// Encodes one frame body for the wire.
pub fn encode_frame(body: &[u8]) -> (r: Vec<u8>)
    requires
        body@.len() <= 0xFFFF,
    ensures
        r@ == frame_encoding(body@),
{
    let blen: u16 = body.len() as u16;
    let mut out: Vec<u8> = Vec::new();
    out.push((blen / 256) as u8);
    out.push((blen % 256) as u8);
    let mut i: usize = 0;
    while i < body.len()
        invariant
            i <= body@.len(),
            out@ =~= seq![be16_hi(body@.len() as u16), be16_lo(body@.len() as u16)]
                + body@.take(i as int),
        decreases body@.len() - i,
    {
        out.push(body[i]);
        i += 1;
    }
    proof {
        assert(body@.take(body@.len() as int) =~= body@);
        assert(out@ =~= frame_encoding(body@));
    }
    out
}

/// Reassembles a stream of frames out of datagram fragments.
pub struct FrameBuffer {
    buf: Vec<u8>,
}

impl FrameBuffer {
    /// The bytes buffered and not yet consumed, in arrival order.
    pub closed spec fn contents(self) -> Seq<u8> {
        self.buf@
    }

    /// Creates an empty reassembly buffer.
    pub fn new() -> (r: Self)
        ensures
            r.contents() == Seq::<u8>::empty(),
    {
        let buf: Vec<u8> = Vec::new();
        FrameBuffer { buf }
    }

    /// Appends the bytes of one received datagram.
    pub fn push_datagram(&mut self, d: &[u8])
        requires
            old(self).contents().len() + d@.len() <= usize::MAX,
        ensures
            final(self).contents() == old(self).contents() + d@,
    {
        let mut i: usize = 0;
        while i < d.len()
            invariant
                i <= d@.len(),
                self.buf@ =~= old(self).buf@ + d@.take(i as int),
            decreases d@.len() - i,
        {
            self.buf.push(d[i]);
            i += 1;
        }
        proof {
            assert(d@.take(d@.len() as int) =~= d@);
            assert(self.buf@ =~= old(self).buf@ + d@);
        }
    }

    /// Takes the next complete frame body off the buffer. While no complete
    /// frame is buffered the result is `None` and nothing is consumed.
    pub fn try_next_frame(&mut self) -> (r: Option<Vec<u8>>)
        ensures
            !frame_ready(old(self).contents()) ==> r is None && final(self).contents()
                == old(self).contents(),
            frame_ready(old(self).contents()) ==> {
                &&& r matches Some(f) && f@ == old(self).contents().subrange(
                    2,
                    2 + frame_len_of(old(self).contents()),
                )
                &&& final(self).contents() == old(self).contents().skip(
                    2 + frame_len_of(old(self).contents()),
                )
            },
    {
        if self.buf.len() < 2 {
            return None;
        }
        let flen: usize = (self.buf[0] as usize) * 256 + (self.buf[1] as usize);
        if self.buf.len() < 2 + flen {
            return None;
        }
        let mut frame: Vec<u8> = Vec::new();
        let mut i: usize = 2;
        while i < 2 + flen
            invariant
                flen <= 0xFFFF,
                2 <= i <= 2 + flen <= self.buf@.len(),
                self.buf@ == old(self).buf@,
                frame@ =~= self.buf@.subrange(2, i as int),
            decreases 2 + flen - i,
        {
            frame.push(self.buf[i]);
            i += 1;
        }
        let mut rest: Vec<u8> = Vec::new();
        let mut j: usize = 2 + flen;
        while j < self.buf.len()
            invariant
                2 + flen <= j <= self.buf@.len(),
                self.buf@ == old(self).buf@,
                rest@ =~= self.buf@.subrange(2 + flen as int, j as int),
            decreases self.buf@.len() - j,
        {
            rest.push(self.buf[j]);
            j += 1;
        }
        proof {
            assert(frame@ =~= old(self).buf@.subrange(2, 2 + flen as int));
            assert(rest@ =~= old(self).buf@.skip(2 + flen as int));
        }
        self.buf = rest;
        Some(frame)
    }
}

/// Encoding then reassembly loses nothing: a frame body handed to
/// `encode_frame` and buffered whole is ready, comes back exactly, and
/// leaves the rest of the buffer as it was.
pub proof fn lemma_frame_round_trip(body: Seq<u8>, rest: Seq<u8>)
    requires
        body.len() <= 0xFFFF,
    ensures
        frame_ready(frame_encoding(body) + rest),
        (frame_encoding(body) + rest).subrange(2, 2 + frame_len_of(frame_encoding(body) + rest))
            == body,
        (frame_encoding(body) + rest).skip(2 + frame_len_of(frame_encoding(body) + rest)) == rest,
{
    let w = frame_encoding(body) + rest;
    lemma_be16_round_trip(body.len() as u16);
    assert(w[0] == be16_hi(body.len() as u16));
    assert(w[1] == be16_lo(body.len() as u16));
    assert(frame_len_of(w) == body.len());
    assert(w.len() == 2 + body.len() + rest.len());
    assert(w.subrange(2, 2 + frame_len_of(w)) =~= body);
    assert(w.skip(2 + frame_len_of(w)) =~= rest);
}

/// Represents the AOQUIC obfuscated protocol: immutable configuration plus
/// stateless behavior, safely shared by many concurrent sessions.
#[derive(Clone)]
pub struct AoQuicProtocol {}

impl AoQuicProtocol {
    /// Creates a new instance of the AoQuicProtocol.
    pub fn new() -> (r: Self)
        ensures
            r == (AoQuicProtocol {  }),
    {
        AoQuicProtocol {  }
    }

    /// Handles one incoming datagram of a session: buffers its bytes and,
    /// once one complete obfuscated frame is available, hands the frame body
    /// out. An incomplete read reports `None` without consuming or exposing
    /// partial data.
    pub fn handle_udp_packet(&self, assembly: &mut FrameBuffer, datagram: &[u8]) -> (r: Option<
        Vec<u8>,
    >)
        requires
            old(assembly).contents().len() + datagram@.len() <= usize::MAX,
        ensures
            ({
                let b = old(assembly).contents() + datagram@;
                &&& !frame_ready(b) ==> r is None && final(assembly).contents() == b
                &&& frame_ready(b) ==> (r matches Some(f) && f@ == b.subrange(
                    2,
                    2 + frame_len_of(b),
                )) && final(assembly).contents() == b.skip(2 + frame_len_of(b))
            }),
    {
        assembly.push_datagram(datagram);
        assembly.try_next_frame()
    }

    /// AOQUIC is a UDP-based protocol: a byte-stream invocation is rejected.
    pub fn handle_tcp_stream(&self) -> (r: Result<(), ProtocolError>)
        ensures
            r matches Err(e) && e matches ProtocolError::ProtocolViolation(m) && m@
                == "AOQUIC does not handle TCP streams."@,
    {
        Err(
            ProtocolError::ProtocolViolation("AOQUIC does not handle TCP streams.".to_owned()),
        )
    }
}

impl ObfuscatedProtocol for AoQuicProtocol {
    open spec fn supported_kind(&self) -> TransportKind {
        TransportKind::Datagram
    }

    open spec fn spec_name(&self) -> Seq<char> {
        "AOQUIC"@
    }

    fn name(&self) -> (r: &'static str) {
        "AOQUIC"
    }

    fn check_transport(&self, kind: TransportKind) -> (r: Result<(), ProtocolError>) {
        match kind {
            TransportKind::Datagram => Ok(()),
            TransportKind::Stream => Err(
                ProtocolError::ProtocolViolation(
                    "AOQUIC does not handle TCP streams.".to_owned(),
                ),
            ),
        }
    }

    fn seal_payload(&self, engine: &Obfuscator, payload: &[u8]) -> (r: Vec<u8>) {
        engine.obfuscate_data(payload)
    }

    fn open_payload(&self, engine: &Obfuscator, wire: &[u8]) -> (r: Result<
        Vec<u8>,
        ProtocolError,
    >) {
        engine.deobfuscate_data(wire)
    }
}

} // verus!
