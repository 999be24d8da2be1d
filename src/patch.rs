//! Byte-level encodings owned by the upload engine: the binary patch with its
//! spliced header, the local base cache with its CRC trailer, and the checksum
//! and compression calls they rely on.
use vstd::prelude::*;

verus! {

/// Largest base image, new image or assembled patch, in bytes, that a
/// differential upload accepts (2 MiB).
pub const DIFFERENTIAL_UPLOAD_MAX_SIZE: usize = 0x200000;

/// Where, inside the raw delta, the three header words are spliced in.
pub const PATCH_HEADER_OFFSET: usize = 8;

/// The delta that bidiff computes from `old` to `new`.
pub uninterp spec fn bidiff_delta(old: Seq<u8>, new: Seq<u8>) -> Seq<u8>;

/// The device's CRC-32 of `data`.
pub uninterp spec fn crc32_of(data: Seq<u8>) -> u32;

/// The gzip stream that flate2 writes for `data` at its best compression level.
pub uninterp spec fn gzip_of(data: Seq<u8>) -> Seq<u8>;

/// Relies on `bidiff::simple_diff` with its default parameters (one sort
/// partition, the input scanned as one chunk): the delta depends on the two
/// images alone, and its encoder always opens it with two 4-byte words, the
/// format's magic and version. An empty old image with a non-empty new one
/// makes its suffix-array search panic, and so does an old image of
/// `i32::MAX` bytes or more (divsufsort's length assertion): those inputs are
/// left out.
#[verifier::external_body]
fn raw_delta(old: &[u8], new: &[u8]) -> (r: Vec<u8>)
    requires
        old@.len() > 0 || new@.len() == 0,
        old@.len() < 0x7fff_ffff,
    ensures
        r@ == bidiff_delta(old@, new@),
        r@.len() >= 8,
{
    let mut out: Vec<u8> = Vec::new();
    bidiff::simple_diff(old, new, &mut out).unwrap();
    out
}

/// Relies on `VEX_CRC32.checksum` of vex-cdc (re-exported by vex-v5-serial):
/// the checksum depends on the bytes alone.
#[verifier::external_body]
pub fn crc32(data: &[u8]) -> (r: u32)
    ensures
        r == crc32_of(data@),
{
    vex_v5_serial::protocol::VEX_CRC32.checksum(data)
}

/// Relies on flate2's `GzBuilder` at `Compression::best()`: with no file name
/// and a zero timestamp in its header, the stream depends on the input alone.
#[verifier::external_body]
pub fn gzip(data: &[u8]) -> (r: Vec<u8>)
    ensures
        r@ == gzip_of(data@),
{
    let mut encoder = flate2::GzBuilder::new().write(Vec::new(), flate2::Compression::best());
    std::io::Write::write_all(&mut encoder, data).unwrap();
    encoder.finish().unwrap()
}

/// The four little-endian bytes of `x`.
pub open spec fn le32(x: u32) -> Seq<u8> {
    seq![(x & 0xff) as u8, ((x >> 8u32) & 0xff) as u8, ((x >> 16u32) & 0xff) as u8, ((x >> 24u32) & 0xff) as u8]
}

/// The `u32` whose little-endian bytes open `b`.
pub open spec fn from_le32(b: Seq<u8>) -> u32
    recommends
        b.len() >= 4,
{
    (b[0] as u32) | ((b[1] as u32) << 8u32) | ((b[2] as u32) << 16u32) | ((b[3] as u32) << 24u32)
}

/// The total-length word of the header: the delta's length plus the header's,
/// kept to 32 bits as the device reads it.
pub open spec fn header_total(raw_len: nat) -> u32 {
    ((raw_len + 12) % 0x1_0000_0000) as u32
}

/// `raw` with the header (total length, old length, new length) spliced in at
/// offset 8.
pub open spec fn spliced_patch(raw: Seq<u8>, old_len: u32, new_len: u32) -> Seq<u8> {
    raw.subrange(0, 8) + le32(header_total(raw.len())) + le32(old_len) + le32(new_len)
        + raw.subrange(8, raw.len() as int)
}

/// The patch that turns `old` into `new`, before compression.
pub open spec fn patch_of(old: Seq<u8>, new: Seq<u8>) -> Seq<u8> {
    spliced_patch(bidiff_delta(old, new), old.len() as u32, new.len() as u32)
}

/// The local base cache for `base` whose uploaded form had checksum `crc`.
pub open spec fn cache_of(base: Seq<u8>, crc: u32) -> Seq<u8> {
    base + le32(crc)
}

/// The base image held by a cache of at least four bytes.
pub open spec fn cache_base(cache: Seq<u8>) -> Seq<u8> {
    cache.subrange(0, cache.len() - 4)
}

/// The checksum recorded in the trailer of a cache of at least four bytes.
pub open spec fn cache_crc(cache: Seq<u8>) -> u32 {
    from_le32(cache.subrange(cache.len() - 4, cache.len() as int))
}

fn push_le32(v: &mut Vec<u8>, x: u32)
    ensures
        final(v)@ == old(v)@ + le32(x),
{
    v.push((x & 0xff) as u8);
    v.push(((x >> 8u32) & 0xff) as u8);
    v.push(((x >> 16u32) & 0xff) as u8);
    v.push(((x >> 24u32) & 0xff) as u8);
    assert(final(v)@ =~= old(v)@ + le32(x));
}

fn extend_from(v: &mut Vec<u8>, src: &[u8], from: usize, to: usize)
    requires
        from <= to <= src@.len(),
    ensures
        final(v)@ == old(v)@ + src@.subrange(from as int, to as int),
{
    let mut i: usize = from;
    while i < to
        invariant
            from <= i <= to <= src@.len(),
            v@ == old(v)@ + src@.subrange(from as int, i as int),
        decreases to - i,
    {
        v.push(src[i]);
        i = i + 1;
        assert(v@ =~= old(v)@ + src@.subrange(from as int, i as int));
    }
}

/// A copy of `src`.
pub fn copy_bytes(src: &[u8]) -> (r: Vec<u8>)
    ensures
        r@ == src@,
{
    let mut out: Vec<u8> = Vec::new();
    extend_from(&mut out, src, 0, src.len());
    assert(out@ =~= src@);
    out
}

/// Builds the patch that turns `old` into `new`: bidiff's delta with the
/// header (total length including the header, old length, new length, each a
/// little-endian `u32`) spliced in at offset 8. bidiff panics on a delta from
/// an empty image to a non-empty one, and on an old image of `i32::MAX` bytes
/// or more, so those inputs are left out.
pub fn build_patch(old: &[u8], new: &[u8]) -> (r: Vec<u8>)
    requires
        old@.len() > 0 || new@.len() == 0,
        old@.len() < 0x7fff_ffff,
    ensures
        r@ == patch_of(old@, new@),
        bidiff_delta(old@, new@).len() >= 8,
        r@.len() == bidiff_delta(old@, new@).len() + 12,
{
    let raw = raw_delta(old, new);
    let low: u64 = (raw.len() as u64) % 0x1_0000_0000;
    assert(((raw@.len() % 0x1_0000_0000) + 12) % 0x1_0000_0000 == (raw@.len() + 12) % 0x1_0000_0000)
        by (nonlinear_arith);
    let total: u32 = ((low + 12) % 0x1_0000_0000) as u32;
    assert(total == header_total(raw@.len()));
    let mut patch: Vec<u8> = Vec::new();
    extend_from(&mut patch, raw.as_slice(), 0, PATCH_HEADER_OFFSET);
    push_le32(&mut patch, total);
    push_le32(&mut patch, old.len() as u32);
    push_le32(&mut patch, new.len() as u32);
    extend_from(&mut patch, raw.as_slice(), PATCH_HEADER_OFFSET, raw.len());
    assert(patch@ =~= patch_of(old@, new@));
    patch
}

/// The local base cache for `base`: its bytes followed by `crc` in
/// little-endian order.
pub fn encode_base_cache(base: &[u8], crc: u32) -> (r: Vec<u8>)
    ensures
        r@ == cache_of(base@, crc),
{
    let mut out: Vec<u8> = Vec::new();
    extend_from(&mut out, base, 0, base.len());
    push_le32(&mut out, crc);
    assert(out@ =~= cache_of(base@, crc));
    out
}

/// Splits a local base cache into the base image and the checksum of its
/// trailer; `None` when the cache is too short to hold a trailer.
pub fn decode_base_cache(cache: &[u8]) -> (r: Option<(Vec<u8>, u32)>)
    ensures
        cache@.len() < 4 <==> r is None,
        r matches Some((base, crc)) ==> base@ == cache_base(cache@) && crc == cache_crc(cache@),
{
    if cache.len() < 4 {
        return None;
    }
    let n = cache.len() - 4;
    let mut base: Vec<u8> = Vec::new();
    extend_from(&mut base, cache, 0, n);
    let crc: u32 = (cache[n] as u32) | ((cache[n + 1] as u32) << 8u32) | ((cache[n + 2] as u32)
        << 16u32) | ((cache[n + 3] as u32) << 24u32);
    let ghost trailer = cache@.subrange(n as int, cache@.len() as int);
    assert(trailer[0] == cache@[n as int] && trailer[1] == cache@[n + 1] && trailer[2]
        == cache@[n + 2] && trailer[3] == cache@[n + 3]);
    assert(crc == cache_crc(cache@));
    Some((base, crc))
}

/// The little-endian bytes of a word read back give the word.
pub proof fn lemma_le32_round_trip(x: u32)
    ensures
        from_le32(le32(x)) == x,
{
    let b = le32(x);
    assert(b[0] == (x & 0xff) as u8 && b[1] == ((x >> 8u32) & 0xff) as u8 && b[2] == ((x
        >> 16u32) & 0xff) as u8 && b[3] == ((x >> 24u32) & 0xff) as u8);
    assert((((x & 0xff) as u8) as u32) | ((((x >> 8u32) & 0xff) as u8) as u32) << 8u32 | ((((x
        >> 16u32) & 0xff) as u8) as u32) << 16u32 | ((((x >> 24u32) & 0xff) as u8) as u32)
        << 24u32 == x) by (bit_vector);
}

/// A cache written for a base and a checksum reads back as that base and that
/// checksum.
pub proof fn lemma_cache_round_trip(base: Seq<u8>, crc: u32)
    ensures
        cache_of(base, crc).len() == base.len() + 4,
        cache_base(cache_of(base, crc)) == base,
        cache_crc(cache_of(base, crc)) == crc,
{
    let c = cache_of(base, crc);
    assert(c.subrange(0, c.len() - 4) =~= base);
    assert(c.subrange(c.len() - 4, c.len() as int) =~= le32(crc));
    lemma_le32_round_trip(crc);
}

/// The spliced header comes apart again: cutting the twelve bytes at offset 8
/// out of the patch gives back bidiff's delta, and the three words read back
/// as the delta's length plus twelve, the old length and the new length.
pub proof fn lemma_patch_header_round_trip(raw: Seq<u8>, old_len: u32, new_len: u32)
    requires
        raw.len() >= 8,
    ensures
        ({
            let p = spliced_patch(raw, old_len, new_len);
            &&& p.len() == raw.len() + 12
            &&& p.subrange(0, 8) + p.subrange(20, p.len() as int) == raw
            &&& from_le32(p.subrange(8, 12)) == header_total(raw.len())
            &&& from_le32(p.subrange(12, 16)) == old_len
            &&& from_le32(p.subrange(16, 20)) == new_len
        }),
{
    let p = spliced_patch(raw, old_len, new_len);
    assert(p.subrange(0, 8) + p.subrange(20, p.len() as int) =~= raw);
    assert(p.subrange(8, 12) =~= le32(header_total(raw.len())));
    assert(p.subrange(12, 16) =~= le32(old_len));
    assert(p.subrange(16, 20) =~= le32(new_len));
    lemma_le32_round_trip(header_total(raw.len()));
    lemma_le32_round_trip(old_len);
    lemma_le32_round_trip(new_len);
}

} // verus!
