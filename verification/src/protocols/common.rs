//! Common structures and utilities shared across the protocols of the core.

use vstd::prelude::*;
use vstd::string::StringSliceAdditionalSpecFns;

verus! {

use vstd::arithmetic::div_mod::lemma_fundamental_div_mod;

/// High byte of a 16-bit value in big-endian order.
pub open spec fn be16_hi(v: u16) -> u8 {
    (v / 256) as u8
}

/// Low byte of a 16-bit value in big-endian order.
pub open spec fn be16_lo(v: u16) -> u8 {
    (v % 256) as u8
}

/// The 16-bit value read back from two big-endian bytes.
pub open spec fn be16_val(hi: u8, lo: u8) -> int {
    hi as int * 256 + lo as int
}

/// Splitting a 16-bit value into two big-endian bytes loses nothing.
pub proof fn lemma_be16_round_trip(v: u16)
    ensures
        be16_val(be16_hi(v), be16_lo(v)) == v,
{
    lemma_fundamental_div_mod(v as int, 256);
}

/// The two transport shapes a protocol handler can be invoked with: a duplex
/// byte stream (TCP) or a single datagram (UDP).
#[derive(Clone, Copy, Debug, PartialEq, Eq, Structural)]
pub enum TransportKind {
    Stream,
    Datagram,
}

/// A generic error that can occur within the core protocols.
#[derive(Debug, Clone)]
pub enum ProtocolError {
    /// A transport-level failure, carrying the underlying description.
    Io(String),
    /// An error occurred during protocol handshake or negotiation.
    HandshakeError(String),
    /// Data obfuscation/deobfuscation failed.
    ObfuscationError(String),
    /// An unexpected protocol state or data format was encountered.
    ProtocolViolation(String),
    /// General error with a descriptive message.
    Other(String),
}

/// `TunnelConfig` defines configuration parameters for a specific tunnel
/// connection, supplied by an external configuration collaborator.
#[derive(Debug, Clone)]
pub struct TunnelConfig {
    pub server_address: String,
    pub server_port: u16,
    /// The unique identifier for the user/connection.
    pub user_id: String,
    /// Specifies the protocol to use (e.g., "otls-ws", "aoquic").
    pub protocol_type: ProtocolType,
    /// Optional parameters specific to the chosen protocol.
    pub protocol_params: std::collections::HashMap<String, String>,
    /// Indicates if the kill switch should be active for this tunnel.
    pub enable_kill_switch: bool,
    /// Domain to mimic for obfuscation (e.g., "www.example.com").
    pub mimic_domain: String,
}

/// `ProtocolType` enumerates the obfuscated protocols supported by the core.
#[derive(Debug, Clone, PartialEq, Eq, Hash, Structural)]
pub enum ProtocolType {
    OtlsWs,
    AoQuic,
}

/// ASCII lower-casing of one byte: `A`..`Z` map to `a`..`z`, all else unchanged.
pub open spec fn lower_byte(b: u8) -> u8 {
    if 65 <= b && b <= 90 {
        (b + 32) as u8
    } else {
        b
    }
}

/// ASCII lower-casing of a byte sequence, element by element.
pub open spec fn lower_bytes(s: Seq<u8>) -> Seq<u8> {
    s.map_values(|b: u8| lower_byte(b))
}

/// Lower-cases the ASCII letters of a byte slice.
fn lower_ascii(b: &[u8]) -> (r: Vec<u8>)
    ensures
        r@ == lower_bytes(b@),
{
    let mut out: Vec<u8> = Vec::new();
    let mut i: usize = 0;
    while i < b.len()
        invariant
            i <= b@.len(),
            out@.len() == i,
            forall|j: int| 0 <= j < i ==> out@[j] == lower_byte(b@[j]),
        decreases b@.len() - i,
    {
        let c = b[i];
        if 65 <= c && c <= 90 {
            out.push(c + 32);
        } else {
            out.push(c);
        }
        i += 1;
    }
    proof {
        assert(out@ =~= lower_bytes(b@));
    }
    out
}

/// Compares two byte slices for equality of contents.
pub(crate) fn bytes_eq(a: &[u8], b: &[u8]) -> (r: bool)
    ensures
        r == (a@ == b@),
{
    if a.len() != b.len() {
        return false;
    }
    let mut i: usize = 0;
    while i < a.len()
        invariant
            a@.len() == b@.len(),
            i <= a@.len(),
            forall|j: int| 0 <= j < i ==> a@[j] == b@[j],
        decreases a@.len() - i,
    {
        if a[i] != b[i] {
            return false;
        }
        i += 1;
    }
    proof {
        assert(a@ =~= b@);
    }
    true
}

impl ProtocolType {
    /// Converts a string into a `ProtocolType`, ASCII case-insensitively.
    pub fn from_str(s: &str) -> (r: Option<Self>)
        ensures
            r == (if lower_bytes(s.spec_bytes()) == "otls-ws".spec_bytes() {
                Some(ProtocolType::OtlsWs)
            } else if lower_bytes(s.spec_bytes()) == "aoquic".spec_bytes() {
                Some(ProtocolType::AoQuic)
            } else {
                None::<ProtocolType>
            }),
    {
        let lowered = lower_ascii(s.as_bytes());
        if bytes_eq(lowered.as_slice(), "otls-ws".as_bytes()) {
            Some(ProtocolType::OtlsWs)
        } else if bytes_eq(lowered.as_slice(), "aoquic".as_bytes()) {
            Some(ProtocolType::AoQuic)
        } else {
            None
        }
    }

    /// Converts a `ProtocolType` into its canonical string form.
    pub fn to_string_repr(&self) -> (r: &'static str)
        ensures
            self is OtlsWs ==> r@ == "otls-ws"@,
            self is AoQuic ==> r@ == "aoquic"@,
    {
        match self {
            ProtocolType::OtlsWs => "otls-ws",
            ProtocolType::AoQuic => "aoquic",
        }
    }
}

/// Represents a data packet with optional metadata, used for internal
/// communication.
#[derive(Debug, Clone)]
pub struct Packet {
    pub data: Vec<u8>,
    /// Optional metadata, e.g., for routing or session management.
    pub metadata: Option<std::collections::HashMap<String, String>>,
}

impl Packet {
    /// Creates a basic packet carrying `data` and no metadata.
    pub fn new(data: Vec<u8>) -> (r: Self)
        ensures
            r.data == data,
            r.metadata is None,
    {
        Packet { data, metadata: None }
    }
}

} // verus!
