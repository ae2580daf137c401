use byteorder::{ByteOrder, NetworkEndian};
use vstd::prelude::*;

verus! {

/// The largest payload a datagram can carry.
pub const MAX_DATAGRAM: usize = 65507;

/// The bit pattern of a zero-amplitude sample (`0.0f32`).
pub const SILENCE: u32 = 0;

/// The word whose big-endian bytes are `b0 b1 b2 b3`.
pub open spec fn word_of(b0: u8, b1: u8, b2: u8, b3: u8) -> u32 {
    ((b0 as u32) << 24u32) | ((b1 as u32) << 16u32) | ((b2 as u32) << 8u32) | (b3 as u32)
}

/// Byte `k` (0 is the most significant) of `w` in big-endian order.
pub open spec fn byte_of(w: u32, k: int) -> u8 {
    if k == 0 {
        ((w >> 24u32) & 0xffu32) as u8
    } else if k == 1 {
        ((w >> 16u32) & 0xffu32) as u8
    } else if k == 2 {
        ((w >> 8u32) & 0xffu32) as u8
    } else {
        (w & 0xffu32) as u8
    }
}

/// Every group of four bytes of `b`, in order, read as a big-endian word.
pub open spec fn decoded(b: Seq<u8>) -> Seq<u32> {
    Seq::new(b.len() / 4, |i: int| word_of(b[4 * i], b[4 * i + 1], b[4 * i + 2], b[4 * i + 3]))
}

/// Every word of `s`, in order, written as four big-endian bytes.
pub open spec fn encoded(s: Seq<u32>) -> Seq<u8> {
    Seq::new(4 * s.len(), |j: int| byte_of(s[j / 4], j % 4))
}

proof fn lemma_bytes_of_word(b0: u8, b1: u8, b2: u8, b3: u8)
    ensures
        byte_of(word_of(b0, b1, b2, b3), 0) == b0,
        byte_of(word_of(b0, b1, b2, b3), 1) == b1,
        byte_of(word_of(b0, b1, b2, b3), 2) == b2,
        byte_of(word_of(b0, b1, b2, b3), 3) == b3,
{
    assert(((((b0 as u32) << 24u32) | ((b1 as u32) << 16u32) | ((b2 as u32) << 8u32) | (b3 as u32)) >> 24u32) & 0xffu32 == b0 as u32) by (bit_vector);
    assert(((((b0 as u32) << 24u32) | ((b1 as u32) << 16u32) | ((b2 as u32) << 8u32) | (b3 as u32)) >> 16u32) & 0xffu32 == b1 as u32) by (bit_vector);
    assert(((((b0 as u32) << 24u32) | ((b1 as u32) << 16u32) | ((b2 as u32) << 8u32) | (b3 as u32)) >> 8u32) & 0xffu32 == b2 as u32) by (bit_vector);
    assert((((b0 as u32) << 24u32) | ((b1 as u32) << 16u32) | ((b2 as u32) << 8u32) | (b3 as u32)) & 0xffu32 == b3 as u32) by (bit_vector);
}

proof fn lemma_word_of_bytes(w: u32)
    ensures
        word_of(byte_of(w, 0), byte_of(w, 1), byte_of(w, 2), byte_of(w, 3)) == w,
{
    assert(((((w >> 24u32) & 0xffu32) as u8 as u32) << 24u32) | ((((w >> 16u32) & 0xffu32) as u8 as u32) << 16u32)
        | ((((w >> 8u32) & 0xffu32) as u8 as u32) << 8u32) | ((w & 0xffu32) as u8 as u32) == w) by (bit_vector);
}

/// Decoding a payload whose length is a multiple of four gives one sample per
/// four bytes, and encoding those samples again gives back the same bytes.
pub proof fn lemma_round_trip(b: Seq<u8>)
    requires
        b.len() % 4 == 0,
    ensures
        decoded(b).len() == b.len() / 4,
        encoded(decoded(b)) == b,
{
    let d = decoded(b);
    assert forall|j: int| 0 <= j < b.len() implies #[trigger] encoded(d)[j] == b[j] by {
        let i = j / 4;
        assert(4 * i <= j < 4 * i + 4);
        assert(4 * i + 3 < b.len());
        lemma_bytes_of_word(b[4 * i], b[4 * i + 1], b[4 * i + 2], b[4 * i + 3]);
    }
    assert(encoded(d) =~= b);
}

/// Encoding samples and decoding the bytes again gives back the same samples.
pub proof fn lemma_samples_round_trip(s: Seq<u32>)
    ensures
        encoded(s).len() == 4 * s.len(),
        decoded(encoded(s)) == s,
{
    let e = encoded(s);
    assert forall|i: int| 0 <= i < s.len() implies #[trigger] decoded(e)[i] == s[i] by {
        assert((4 * i) / 4 == i && (4 * i + 1) / 4 == i && (4 * i + 2) / 4 == i && (4 * i + 3) / 4 == i);
        assert((4 * i) % 4 == 0 && (4 * i + 1) % 4 == 1 && (4 * i + 2) % 4 == 2 && (4 * i + 3) % 4 == 3);
        lemma_word_of_bytes(s[i]);
    }
    assert(decoded(e) =~= s);
}

/// Why a datagram was refused.
#[derive(Debug, Clone, Copy, PartialEq, Eq, Structural)]
pub enum DecodeError {
    /// The payload length is not a whole number of samples.
    MisalignedLength { len: usize },
}

/// Relies on byteorder's `NetworkEndian::read_u32_into`: it reads each
/// four-byte group of `src`, in order, as a big-endian `u32` into `dst`, and
/// panics unless `src` holds exactly four bytes per slot of `dst`.
#[verifier::external_body]
fn read_words(src: &[u8], dst: &mut Vec<u32>)
    requires
        src@.len() == 4 * old(dst)@.len(),
    ensures
        final(dst)@ == decoded(src@),
{
    NetworkEndian::read_u32_into(src, dst.as_mut_slice())
}

/// Relies on byteorder's `NetworkEndian::write_u32_into`: it writes each word
/// of `src`, in order, as four big-endian bytes into `dst`, and panics unless
/// `dst` holds exactly four bytes per word of `src`.
#[verifier::external_body]
fn write_words(src: &[u32], dst: &mut Vec<u8>)
    requires
        old(dst)@.len() == 4 * src@.len(),
    ensures
        final(dst)@ == encoded(src@),
{
    NetworkEndian::write_u32_into(src, dst.as_mut_slice())
}

/// Decodes the first `len` bytes of `buf`, a received datagram, into samples.
/// A length that is not a multiple of four refuses the whole datagram.
pub fn decode_frame(buf: &[u8], len: usize) -> (r: Result<Vec<u32>, DecodeError>)
    requires
        len <= buf@.len(),
    ensures
        len % 4 != 0 ==> r == Err::<Vec<u32>, DecodeError>(DecodeError::MisalignedLength { len }),
        len % 4 == 0 ==> r is Ok && r->Ok_0@ == decoded(buf@.subrange(0, len as int)),
{
    if len % 4 != 0 {
        return Err(DecodeError::MisalignedLength { len });
    }
    let src = vstd::slice::slice_subrange(buf, 0, len);
    let mut dst: Vec<u32> = vec![0u32; len / 4];
    read_words(src, &mut dst);
    Ok(dst)
}

/// Encodes samples as a datagram payload: four big-endian bytes each.
pub fn encode_frame(samples: &[u32]) -> (r: Vec<u8>)
    requires
        4 * samples@.len() <= usize::MAX,
    ensures
        r@ == encoded(samples@),
        r@.len() == 4 * samples@.len(),
{
    let mut dst: Vec<u8> = vec![0u8; 4 * samples.len()];
    write_words(samples, &mut dst);
    dst
}

} // verus!
