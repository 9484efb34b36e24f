//! The common capability every obfuscated protocol presents: a uniform
//! duplex-session interface, so the higher tunneling layer needs no
//! transport-specific branches.

use vstd::prelude::*;

verus! {

use crate::protocols::common::{ProtocolError, TransportKind};
use crate::security::traffic_obfuscation::{deob_spec, Obfuscator};

/// A trait defining the common interface for all obfuscated protocols. Each
/// protocol implementation must adhere to this interface.
pub trait ObfuscatedProtocol: Sized {
    /// The transport kind this protocol serves.
    spec fn supported_kind(&self) -> TransportKind;

    /// The protocol's name, as contracts speak of it.
    spec fn spec_name(&self) -> Seq<char>;

    /// Returns the static identifier of the protocol.
    fn name(&self) -> (r: &'static str)
        ensures
            r@ == self.spec_name(),
    ;

    /// Checks an invocation's transport kind: a handler that receives the
    /// kind it does not support returns `ProtocolViolation` rather than
    /// silently succeeding.
    fn check_transport(&self, kind: TransportKind) -> (r: Result<(), ProtocolError>)
        ensures
            r is Ok <==> kind == self.supported_kind(),
            kind != self.supported_kind() ==> (r matches Err(e) && e is ProtocolViolation),
    ;

    /// Outbound half of the duplex session: one application payload becomes
    /// one obfuscated wire buffer that the engine can exactly invert.
    fn seal_payload(&self, engine: &Obfuscator, payload: &[u8]) -> (r: Vec<u8>)
        requires
            engine.wf(),
        ensures
            deob_spec(engine.history_spec(), r@) == Some(payload@),
            r@.len() >= payload@.len() + 4,
    ;

    /// Inbound half of the duplex session: exactly inverts `seal_payload`;
    /// malformed wire bytes yield `ObfuscationError`, never a guess.
    fn open_payload(&self, engine: &Obfuscator, wire: &[u8]) -> (r: Result<
        Vec<u8>,
        ProtocolError,
    >)
        requires
            engine.wf(),
        ensures
            match deob_spec(engine.history_spec(), wire@) {
                Some(p) => r matches Ok(v) && v@ == p,
                None => r matches Err(e) && e is ObfuscationError,
            },
    ;
}

} // verus!
