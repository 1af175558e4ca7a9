//! Framing of serialized events on the centralized channel, with optional
//! gzip compression above a size threshold.
use libafl_bolts::compress::GzipCompressor;
use vstd::prelude::*;

verus! {

#[verifier::external_type_specification]
#[verifier::external_body]
pub struct ExGzipCompressor(GzipCompressor);

#[verifier::external_type_specification]
#[verifier::external_body]
pub struct ExBoltsError(libafl_bolts::Error);

/// Tag of every message on the centralized channel.
pub const TAG_TO_MAIN: u32 = 0x3453453;

/// Flag bit set on every message.
pub const FLAG_INITIALIZED: u32 = 0x1;

/// Flag bit set when the payload is gzip-compressed.
pub const FLAG_COMPRESSED: u32 = 0x2;

/// Serialized events of at least this many bytes are compressed.
pub const COMPRESS_THRESHOLD: usize = 1024;

/// What gzip compression makes of a byte sequence.
pub uninterp spec fn gzip_of(s: Seq<u8>) -> Seq<u8>;

/// What gzip decompression makes of a byte sequence, or `None` where the
/// bytes are no valid compressed stream.
pub uninterp spec fn gunzip_of(s: Seq<u8>) -> Option<Seq<u8>>;

/// A message to be sent on the centralized channel.
#[derive(Clone, Debug)]
pub struct Frame {
    pub tag: u32,
    pub flags: u32,
    pub payload: Vec<u8>,
}

/// Whether a flag word marks its payload as compressed.
pub open spec fn is_compressed(flags: u32) -> bool {
    flags & FLAG_COMPRESSED != 0
}

/// The flag word of the frame for `s`.
pub open spec fn framed_flags(threshold: usize, s: Seq<u8>) -> u32 {
    if s.len() >= threshold {
        FLAG_INITIALIZED | FLAG_COMPRESSED
    } else {
        FLAG_INITIALIZED
    }
}

/// The payload of the frame for `s`.
pub open spec fn framed_payload(threshold: usize, s: Seq<u8>) -> Seq<u8> {
    if s.len() >= threshold {
        gzip_of(s)
    } else {
        s
    }
}

/// The bytes that a received payload stands for, or `None` where a
/// compressed payload does not decompress.
pub open spec fn unframed(flags: u32, payload: Seq<u8>) -> Option<Seq<u8>> {
    if is_compressed(flags) {
        gunzip_of(payload)
    } else {
        Some(payload)
    }
}

/// A gzip compressor that leaves buffers below its threshold alone.
#[derive(Debug)]
pub struct Compressor {
    threshold: usize,
    gzip: GzipCompressor,
}

/// Relies on `GzipCompressor::with_threshold`, which only stores the threshold.
#[verifier::external_body]
fn gzip_with_threshold(threshold: usize) -> (r: GzipCompressor) {
    GzipCompressor::with_threshold(threshold)
}

/// Relies on `GzipCompressor::maybe_compress`: `None` below the threshold the
/// compressor was made with, else the buffer compressed. `c.gzip` is only
/// ever made by `gzip_with_threshold(c.threshold)`.
#[verifier::external_body]
fn gzip_maybe_compress(c: &Compressor, buf: &Vec<u8>) -> (r: Option<Vec<u8>>)
    ensures
        buf@.len() < c.threshold ==> r is None,
        buf@.len() >= c.threshold ==> r is Some && r->0@ == gzip_of(buf@),
{
    c.gzip.maybe_compress(buf.as_slice())
}

/// Relies on `GzipCompressor::decompress`: the inverse of compression, an
/// error where the bytes do not decompress.
#[verifier::external_body]
fn gzip_decompress(c: &GzipCompressor, buf: &Vec<u8>) -> (r: Result<Vec<u8>, libafl_bolts::Error>)
    ensures
        r is Ok <==> gunzip_of(buf@) is Some,
        r is Ok ==> r->Ok_0@ == gunzip_of(buf@)->0,
        forall|x: Seq<u8>| #[trigger] gzip_of(x) == buf@ ==> (r is Ok && r->Ok_0@ == x),
{
    c.decompress(buf.as_slice())
}

impl Compressor {
    /// The size from which buffers are compressed.
    pub closed spec fn spec_threshold(&self) -> usize {
        self.threshold
    }

    /// A compressor for buffers of at least `threshold` bytes.
    pub fn with_threshold(threshold: usize) -> (r: Compressor)
        ensures
            r.spec_threshold() == threshold,
    {
        Compressor { threshold, gzip: gzip_with_threshold(threshold) }
    }

    /// The size from which buffers are compressed.
    pub fn threshold(&self) -> (r: usize)
        ensures
            r == self.spec_threshold(),
    {
        self.threshold
    }

    /// The frame that carries the serialized event `serialized` to the main
    /// evaluator: compressed at or above the threshold, raw below it.
    pub fn frame(&self, serialized: Vec<u8>) -> (r: Frame)
        ensures
            r.tag == TAG_TO_MAIN,
            r.flags == framed_flags(self.spec_threshold(), serialized@),
            r.payload@ == framed_payload(self.spec_threshold(), serialized@),
    {
        match gzip_maybe_compress(self, &serialized) {
            Some(compressed) => Frame {
                tag: TAG_TO_MAIN,
                flags: FLAG_INITIALIZED | FLAG_COMPRESSED,
                payload: compressed,
            },
            None => Frame { tag: TAG_TO_MAIN, flags: FLAG_INITIALIZED, payload: serialized },
        }
    }

    /// The serialized event that a received payload carries.
    pub fn unframe(&self, flags: u32, payload: Vec<u8>) -> (r: Option<Vec<u8>>)
        ensures
            r is Some <==> unframed(flags, payload@) is Some,
            r is Some ==> r->0@ == unframed(flags, payload@)->0,
            is_compressed(flags) ==> forall|x: Seq<u8>|
                #[trigger] gzip_of(x) == payload@ ==> (r is Some && r->0@ == x),
    {
        if flags & FLAG_COMPRESSED != 0 {
            match gzip_decompress(&self.gzip, &payload) {
                Ok(bytes) => Some(bytes),
                Err(_) => None,
            }
        } else {
            Some(payload)
        }
    }
}

/// Framing and unframing give back the serialized bytes: unchanged and
/// uncompressed below the threshold; at or above it, the frame is flagged
/// compressed and holds the compressed bytes, which `unframe` inverts.
pub proof fn lemma_frame_round_trip(threshold: usize, s: Seq<u8>)
    ensures
        s.len() < threshold ==> !is_compressed(framed_flags(threshold, s)),
        s.len() < threshold ==> unframed(framed_flags(threshold, s), framed_payload(threshold, s))
            == Some(s),
        s.len() >= threshold ==> is_compressed(framed_flags(threshold, s)),
        s.len() >= threshold ==> framed_payload(threshold, s) == gzip_of(s),
{
    assert(FLAG_INITIALIZED & FLAG_COMPRESSED == 0) by (bit_vector);
    assert((FLAG_INITIALIZED | FLAG_COMPRESSED) & FLAG_COMPRESSED != 0) by (bit_vector);
}

} // verus!
