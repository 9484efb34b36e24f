//! Reversible traffic obfuscation.
//!
//! Outbound payloads become disguised wire bytes; inbound wire bytes are
//! exactly inverted. Every obfuscated buffer is self-delimiting: a one-byte
//! marker signals whether a decoy header is present, a two-byte epoch tag
//! selects the parameter set the buffer was built with, and a one-byte noise
//! length says how many trailing noise bytes to strip.

use rand::Rng;
use vstd::prelude::*;

verus! {

use crate::protocols::common::{
    be16_hi, be16_lo, be16_val, bytes_eq, lemma_be16_round_trip, ProtocolError,
};

/// Wire marker: no decoy header follows.
pub const MARKER_BARE: u8 = 0xC0;

/// Wire marker: the epoch's decoy header follows the fixed prefix.
pub const MARKER_MIMIC: u8 = 0xC1;

/// Largest number of trailing noise bytes any epoch may append.
pub const NOISE_MAX: u8 = 15;

/// Number of decoy-header templates the engine can rotate through.
pub const TEMPLATE_COUNT: u8 = 2;

/// Largest number of parameter epochs: the epoch tag on the wire is 16 bits.
pub const MAX_EPOCHS: usize = 65536;

/// Per-epoch obfuscation parameters: the mimicry template, the noise range,
/// and the probability (as a ratio) of wrapping a buffer in a decoy header.
#[derive(Clone, Copy, Debug, PartialEq, Eq, Structural)]
pub struct ObfuscationContext {
    pub template: u8,
    pub noise_max: u8,
    pub mimic_num: u32,
    pub mimic_den: u32,
}

impl ObfuscationContext {
    /// A context is well formed when its template exists, its noise range is
    /// within the wire format's bound, and its mimicry ratio is a probability.
    pub open spec fn wf(self) -> bool {
        &&& self.template < TEMPLATE_COUNT
        &&& self.noise_max <= NOISE_MAX
        &&& 0 < self.mimic_den
        &&& self.mimic_num <= self.mimic_den
    }
}

/// The decoy header of a template, as the bytes of a fixed fake HTTP request.
pub open spec fn template_header_spec(t: u8) -> Seq<u8> {
    if t == 0 {
        // "GET / HTTP/1.1\r\n\r\n"
        seq![
            0x47u8, 0x45, 0x54, 0x20, 0x2F, 0x20, 0x48, 0x54, 0x54, 0x50, 0x2F, 0x31, 0x2E,
            0x31, 0x0D, 0x0A, 0x0D, 0x0A,
        ]
    } else {
        // "POST / HTTP/1.1\r\n\r\n"
        seq![
            0x50u8, 0x4F, 0x53, 0x54, 0x20, 0x2F, 0x20, 0x48, 0x54, 0x54, 0x50, 0x2F, 0x31,
            0x2E, 0x31, 0x0D, 0x0A, 0x0D, 0x0A,
        ]
    }
}

/// No decoy header is longer than this many bytes.
pub proof fn lemma_template_header_len(t: u8)
    ensures
        template_header_spec(t).len() <= 19,
{
}

/// Builds the decoy header of template `t`.
fn template_header(t: u8) -> (r: Vec<u8>)
    ensures
        r@ == template_header_spec(t),
{
    let mut out: Vec<u8> = Vec::new();
    if t == 0 {
        out.push(0x47);
        out.push(0x45);
        out.push(0x54);
    } else {
        out.push(0x50);
        out.push(0x4F);
        out.push(0x53);
        out.push(0x54);
    }
    out.push(0x20);
    out.push(0x2F);
    out.push(0x20);
    out.push(0x48);
    out.push(0x54);
    out.push(0x54);
    out.push(0x50);
    out.push(0x2F);
    out.push(0x31);
    out.push(0x2E);
    out.push(0x31);
    out.push(0x0D);
    out.push(0x0A);
    out.push(0x0D);
    out.push(0x0A);
    proof {
        assert(out@ =~= template_header_spec(t));
    }
    out
}

/// The marker byte that signals whether a decoy header is present.
pub open spec fn marker_of(mimic: bool) -> u8 {
    if mimic {
        MARKER_MIMIC
    } else {
        MARKER_BARE
    }
}

/// The wire bytes produced for `payload` under context `ctx` at epoch `epoch`,
/// with the given noise block and mimicry decision.
pub open spec fn wire_of(
    ctx: ObfuscationContext,
    epoch: u16,
    payload: Seq<u8>,
    noise: Seq<u8>,
    mimic: bool,
) -> Seq<u8> {
    seq![marker_of(mimic), be16_hi(epoch), be16_lo(epoch), noise.len() as u8]
        + (if mimic {
        template_header_spec(ctx.template)
    } else {
        Seq::<u8>::empty()
    }) + payload + noise
}

/// What deobfuscation recovers from wire bytes `w` under parameter history
/// `h`: the exact payload, or nothing when the buffer is malformed.
pub open spec fn deob_spec(h: Seq<ObfuscationContext>, w: Seq<u8>) -> Option<Seq<u8>> {
    if w.len() < 4 {
        None
    } else {
        let marker = w[0];
        let epoch = be16_val(w[1], w[2]);
        let nlen = w[3] as int;
        if marker != MARKER_BARE && marker != MARKER_MIMIC {
            None
        } else if epoch >= h.len() {
            None
        } else if nlen > NOISE_MAX as int {
            None
        } else {
            let hd = if marker == MARKER_MIMIC {
                template_header_spec(h[epoch].template)
            } else {
                Seq::<u8>::empty()
            };
            if w.len() < 4 + hd.len() + nlen {
                None
            } else if w.subrange(4, 4 + hd.len() as int) != hd {
                None
            } else {
                Some(w.subrange(4 + hd.len() as int, w.len() - nlen))
            }
        }
    }
}

/// `Obfuscator` manages the traffic-obfuscation pipeline. It owns the full
/// history of parameter epochs, so bytes already in flight under an earlier
/// epoch can still be reversed after the parameters rotate.
pub struct Obfuscator {
    history: Vec<ObfuscationContext>,
}

impl Obfuscator {
    /// The parameter sets of all epochs so far; the index is the epoch id.
    pub closed spec fn history_spec(self) -> Seq<ObfuscationContext> {
        self.history@
    }

    /// The id of the current epoch.
    pub open spec fn current_epoch(self) -> int {
        self.history_spec().len() - 1
    }

    /// The parameters of the current epoch.
    pub open spec fn current(self) -> ObfuscationContext {
        self.history_spec().last()
    }

    /// The engine always has at least one epoch, never more than the wire
    /// format can tag, and every epoch's parameters are well formed.
    pub open spec fn wf(self) -> bool {
        &&& 1 <= self.history_spec().len() <= MAX_EPOCHS as int
        &&& forall|i: int|
            0 <= i < self.history_spec().len() ==> (#[trigger] self.history_spec()[i]).wf()
    }

    /// Creates a new `Obfuscator` with one initial parameter epoch.
    pub fn new() -> (r: Self)
        ensures
            r.wf(),
            r.history_spec() == seq![
                ObfuscationContext { template: 0, noise_max: 15, mimic_num: 3, mimic_den: 10 },
            ],
    {
        let mut history: Vec<ObfuscationContext> = Vec::new();
        history.push(ObfuscationContext { template: 0, noise_max: 15, mimic_num: 3, mimic_den: 10 });
        proof {
            assert(history@ =~= seq![
                ObfuscationContext { template: 0, noise_max: 15, mimic_num: 3, mimic_den: 10 },
            ]);
        }
        Obfuscator { history }
    }

    /// Builds one obfuscated buffer from its parts: fixed prefix, optional
    /// decoy header, payload, then the noise block.
    fn build_frame(&self, payload: &[u8], noise: &[u8], mimic: bool) -> (r: Vec<u8>)
        requires
            self.wf(),
            noise@.len() <= NOISE_MAX as int,
        ensures
            r@ == wire_of(
                self.current(),
                (self.history_spec().len() - 1) as u16,
                payload@,
                noise@,
                mimic,
            ),
    {
        let epoch: u16 = (self.history.len() - 1) as u16;
        let ghost hd: Seq<u8> = if mimic {
            template_header_spec(self.current().template)
        } else {
            Seq::<u8>::empty()
        };
        let ghost pre: Seq<u8> = seq![
            marker_of(mimic),
            be16_hi(epoch),
            be16_lo(epoch),
            noise@.len() as u8,
        ];
        let mut out: Vec<u8> = Vec::new();
        if mimic {
            out.push(MARKER_MIMIC);
        } else {
            out.push(MARKER_BARE);
        }
        out.push((epoch / 256) as u8);
        out.push((epoch % 256) as u8);
        out.push(noise.len() as u8);
        if mimic {
            let ctx = self.history[self.history.len() - 1];
            let mut header = template_header(ctx.template);
            out.append(&mut header);
        }
        proof {
            assert(out@ =~= pre + hd);
        }
        let mut i: usize = 0;
        while i < payload.len()
            invariant
                i <= payload@.len(),
                out@ =~= pre + hd + payload@.take(i as int),
            decreases payload@.len() - i,
        {
            out.push(payload[i]);
            i += 1;
        }
        proof {
            assert(payload@.take(payload@.len() as int) =~= payload@);
        }
        let mut j: usize = 0;
        while j < noise.len()
            invariant
                j <= noise@.len(),
                out@ =~= pre + hd + payload@ + noise@.take(j as int),
            decreases noise@.len() - j,
        {
            out.push(noise[j]);
            j += 1;
        }
        proof {
            assert(noise@.take(noise@.len() as int) =~= noise@);
            assert(out@ =~= wire_of(
                self.current(),
                (self.history_spec().len() - 1) as u16,
                payload@,
                noise@,
                mimic,
            ));
        }
        out
    }
}

impl Obfuscator {
    /// Removes obfuscation from incoming data, exactly inverting
    /// `obfuscate_data`. Malformed input — a bad marker, an epoch tag the
    /// engine never issued, or a length prefix exceeding the buffer — yields
    /// `ObfuscationError`, never a best-effort guess.
    pub fn deobfuscate_data(&self, data: &[u8]) -> (r: Result<Vec<u8>, ProtocolError>)
        requires
            self.wf(),
        ensures
            match deob_spec(self.history_spec(), data@) {
                Some(p) => r matches Ok(v) && v@ == p,
                None => r matches Err(e) && e is ObfuscationError,
            },
    {
        if data.len() < 4 {
            return Err(ProtocolError::ObfuscationError(
                "obfuscated buffer shorter than its fixed prefix".to_owned(),
            ));
        }
        let marker = data[0];
        if marker != MARKER_BARE && marker != MARKER_MIMIC {
            return Err(ProtocolError::ObfuscationError("invalid obfuscation marker".to_owned()));
        }
        let epoch: usize = (data[1] as usize) * 256 + (data[2] as usize);
        if epoch >= self.history.len() {
            return Err(ProtocolError::ObfuscationError("unknown mutation epoch tag".to_owned()));
        }
        let nlen: usize = data[3] as usize;
        if nlen > NOISE_MAX as usize {
            return Err(ProtocolError::ObfuscationError("noise length out of range".to_owned()));
        }
        let header: Vec<u8> = if marker == MARKER_MIMIC {
            template_header(self.history[epoch].template)
        } else {
            Vec::new()
        };
        let hlen = header.len();
        proof {
            lemma_template_header_len(self.history_spec()[epoch as int].template);
        }
        if data.len() < 4 + hlen + nlen {
            return Err(ProtocolError::ObfuscationError(
                "length prefix exceeds the buffer".to_owned(),
            ));
        }
        if marker == MARKER_MIMIC && !bytes_eq(&data[4..4 + hlen], header.as_slice()) {
            return Err(ProtocolError::ObfuscationError("decoy header mismatch".to_owned()));
        }
        let start: usize = 4 + hlen;
        let end: usize = data.len() - nlen;
        let mut out: Vec<u8> = Vec::new();
        let mut i: usize = start;
        while i < end
            invariant
                start <= i <= end <= data@.len(),
                out@ =~= data@.subrange(start as int, i as int),
            decreases end - i,
        {
            out.push(data[i]);
            i += 1;
        }
        proof {
            assert(out@ =~= data@.subrange(start as int, end as int));
            let w = data@;
            let h = self.history_spec();
            let hd = if marker == MARKER_MIMIC {
                template_header_spec(h[epoch as int].template)
            } else {
                Seq::<u8>::empty()
            };
            assert(header@ == hd);
            assert(be16_val(w[1], w[2]) == epoch as int);
            if marker != MARKER_MIMIC {
                assert(w.subrange(4, 4) =~= Seq::<u8>::empty());
            }
            assert(w.subrange(4, 4 + hd.len() as int) == hd);
            assert(deob_spec(h, w) == Some(w.subrange(start as int, end as int)));
        }
        Ok(out)
    }

    /// Applies obfuscation to outgoing data under the current epoch's
    /// parameters: a noise block of a random length within the epoch's range
    /// is appended, and with the epoch's probability a decoy header is
    /// prepended; the buffer carries everything its inverse needs.
    pub fn obfuscate_data(&self, data: &[u8]) -> (r: Vec<u8>)
        requires
            self.wf(),
        ensures
            deob_spec(self.history_spec(), r@) == Some(data@),
            r@.len() >= data@.len() + 4,
            exists|noise: Seq<u8>, mimic: bool|
                noise.len() <= self.current().noise_max as int && r@ == #[trigger] wire_of(
                    self.current(),
                    (self.history_spec().len() - 1) as u16,
                    data@,
                    noise,
                    mimic,
                ),
    {
        proof {
            assert(self.history_spec()[self.history_spec().len() - 1].wf());
        }
        let mut rng = fresh_rng();
        let ctx = self.history[self.history.len() - 1];
        let noise_len = gen_below(&mut rng, ctx.noise_max + 1);
        let mut noise: Vec<u8> = Vec::new();
        let mut k: u8 = 0;
        while k < noise_len
            invariant
                k <= noise_len,
                noise@.len() == k as int,
            decreases noise_len - k,
        {
            noise.push(gen_noise_byte(&mut rng));
            k += 1;
        }
        let mimic = gen_chance(&mut rng, ctx.mimic_num, ctx.mimic_den);
        let frame = self.build_frame(data, noise.as_slice(), mimic);
        proof {
            lemma_round_trip(
                self.history_spec(),
                self.history_spec().len() - 1,
                data@,
                noise@,
                mimic,
            );
        }
        frame
    }

    /// Begins a new parameter epoch carrying the given template and noise
    /// range, keeping the mimicry ratio. Once the 16-bit epoch tag is
    /// exhausted the parameters stay as they are.
    pub fn advance_epoch(&mut self, template: u8, noise_max: u8)
        requires
            old(self).wf(),
            template < TEMPLATE_COUNT,
            noise_max <= NOISE_MAX,
        ensures
            final(self).wf(),
            old(self).history_spec().len() < MAX_EPOCHS as int ==> final(self).history_spec()
                == old(self).history_spec().push(
                ObfuscationContext {
                    template,
                    noise_max,
                    mimic_num: old(self).current().mimic_num,
                    mimic_den: old(self).current().mimic_den,
                },
            ),
            old(self).history_spec().len() == MAX_EPOCHS as int ==> final(self).history_spec()
                == old(self).history_spec(),
    {
        if self.history.len() < MAX_EPOCHS {
            proof {
                assert(self.history_spec()[self.history_spec().len() - 1].wf());
            }
            let cur = self.history[self.history.len() - 1];
            self.history.push(
                ObfuscationContext {
                    template,
                    noise_max,
                    mimic_num: cur.mimic_num,
                    mimic_den: cur.mimic_den,
                },
            );
        }
    }

    /// One dynamic mutation of the obfuscation parameters: rotates to a new
    /// epoch with a freshly drawn template and noise range. The old epochs
    /// stay in the history, so buffers already in flight remain reversible.
    pub fn mutation_step(&mut self)
        requires
            old(self).wf(),
        ensures
            final(self).wf(),
            old(self).history_spec().len() < MAX_EPOCHS as int ==> exists|c: ObfuscationContext|
                c.wf() && final(self).history_spec() == old(self).history_spec().push(c),
            old(self).history_spec().len() == MAX_EPOCHS as int ==> final(self).history_spec()
                == old(self).history_spec(),
    {
        let mut rng = fresh_rng();
        let template = gen_below(&mut rng, TEMPLATE_COUNT);
        let noise_max = gen_below(&mut rng, NOISE_MAX + 1);
        self.advance_epoch(template, noise_max);
    }

    /// How many parameter epochs the engine has been through.
    pub fn epoch_count(&self) -> (r: usize)
        ensures
            r == self.history_spec().len(),
    {
        self.history.len()
    }

    /// Bounded timing jitter, in milliseconds, to apply before handing a
    /// buffer to the transport: a scheduling effect only, with no byte-level
    /// inverse.
    pub fn jitter_delay_ms(&self) -> (r: u8)
        ensures
            r < 50,
    {
        let mut rng = fresh_rng();
        gen_below(&mut rng, 50)
    }
}

/// Round-trip law: whatever the payload, the noise block, the mimicry
/// decision, and the epoch a buffer was built under, deobfuscating under any
/// history that still holds that epoch's parameters recovers the payload
/// exactly.
pub proof fn lemma_round_trip(
    h: Seq<ObfuscationContext>,
    e: int,
    payload: Seq<u8>,
    noise: Seq<u8>,
    mimic: bool,
)
    requires
        1 <= h.len() <= MAX_EPOCHS as int,
        0 <= e < h.len(),
        noise.len() <= NOISE_MAX as int,
    ensures
        deob_spec(h, wire_of(h[e], e as u16, payload, noise, mimic)) == Some(payload),
{
    let w = wire_of(h[e], e as u16, payload, noise, mimic);
    let hd = if mimic {
        template_header_spec(h[e].template)
    } else {
        Seq::<u8>::empty()
    };
    let pre = seq![marker_of(mimic), be16_hi(e as u16), be16_lo(e as u16), noise.len() as u8];
    assert(w == pre + hd + payload + noise);
    assert(w.len() == 4 + hd.len() + payload.len() + noise.len());
    assert(w[0] == marker_of(mimic));
    assert(w[1] == be16_hi(e as u16));
    assert(w[2] == be16_lo(e as u16));
    assert(w[3] == noise.len() as u8);
    lemma_be16_round_trip(e as u16);
    assert(be16_val(w[1], w[2]) == e);
    assert(w[3] as int == noise.len());
    lemma_template_header_len(h[e].template);
    assert(w.subrange(4, 4 + hd.len() as int) =~= hd);
    assert(w.subrange(4 + hd.len() as int, w.len() - noise.len()) =~= payload);
}

/// Bytes in flight survive parameter rotation: a buffer built at epoch `e`
/// still deobfuscates exactly under any later history that extends the one it
/// was built under, because the history keeps every epoch's parameters.
pub proof fn lemma_round_trip_after_mutation(
    h1: Seq<ObfuscationContext>,
    h2: Seq<ObfuscationContext>,
    e: int,
    payload: Seq<u8>,
    noise: Seq<u8>,
    mimic: bool,
)
    requires
        1 <= h1.len() <= h2.len() <= MAX_EPOCHS as int,
        h2.subrange(0, h1.len() as int) == h1,
        0 <= e < h1.len(),
        noise.len() <= NOISE_MAX as int,
    ensures
        deob_spec(h2, wire_of(h1[e], e as u16, payload, noise, mimic)) == Some(payload),
{
    assert(h2[e] == h2.subrange(0, h1.len() as int)[e]);
    lemma_round_trip(h2, e, payload, noise, mimic);
}

#[verifier::external_type_specification]
#[verifier::external_body]
pub struct ExThreadRng(rand::rngs::ThreadRng);

/// Relies on rand::thread_rng: a handle to the thread-local generator.
#[verifier::external_body]
fn fresh_rng() -> rand::rngs::ThreadRng {
    rand::thread_rng()
}

/// Relies on rand::Rng::gen_range over `0..bound`: panics only on an empty
/// range, and the sample lies in the half-open range.
#[verifier::external_body]
fn gen_below(rng: &mut rand::rngs::ThreadRng, bound: u8) -> (r: u8)
    requires
        bound > 0,
    ensures
        r < bound,
{
    rng.gen_range(0..bound)
}

/// Relies on rand::Rng::gen: one random byte; nothing is promised of it.
#[verifier::external_body]
fn gen_noise_byte(rng: &mut rand::rngs::ThreadRng) -> u8 {
    rng.gen()
}

/// Relies on rand::Rng::gen_ratio: true with probability `num/den`; it panics
/// unless the ratio is a probability, and nothing is promised of the outcome.
#[verifier::external_body]
fn gen_chance(rng: &mut rand::rngs::ThreadRng, num: u32, den: u32) -> bool
    requires
        num <= den,
        0 < den,
{
    rng.gen_ratio(num, den)
}

} // verus!
