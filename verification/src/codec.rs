//! The byte layout of a stored vector: four bytes per component, least
//! significant byte first, components in vector order.

use crate::embed::Embedding;
use byteorder::{ByteOrder, LittleEndian};
use vstd::prelude::*;
use vstd::slice::slice_subrange;

verus! {

/// The four bytes of a word, least significant first.
pub open spec fn word_bytes(w: u32) -> Seq<u8> {
    seq![
        (w % 256) as u8,
        ((w / 256) % 256) as u8,
        ((w / 65536) % 256) as u8,
        ((w / 16777216) % 256) as u8,
    ]
}

/// The word that four bytes spell, least significant first.
pub open spec fn word_of(bytes: Seq<u8>) -> u32
    recommends
        bytes.len() == 4,
{
    (bytes[0] + 256 * bytes[1] + 65536 * bytes[2] + 16777216 * bytes[3]) as u32
}

/// The bytes of a vector: byte `i` is byte `i % 4` of component `i / 4`.
pub open spec fn encoded(words: Seq<u32>) -> Seq<u8> {
    Seq::new(4 * words.len(), |i: int| word_bytes(words[i / 4])[i % 4])
}

/// The vector that a buffer spells: component `i` is the word of the four
/// bytes from `4 * i` on. Bytes after the last full group of four are not read.
pub open spec fn decoded(bytes: Seq<u8>) -> Seq<u32> {
    Seq::new(bytes.len() / 4, |i: int| word_of(bytes.subrange(4 * i, 4 * i + 4)))
}

/// Four bytes spell the word they were taken from.
pub proof fn lemma_word_round_trip(w: u32)
    ensures
        word_bytes(w).len() == 4,
        word_of(word_bytes(w)) == w,
{
    let x = w as int;
    let b0 = x % 256;
    let b1 = (x / 256) % 256;
    let b2 = (x / 65536) % 256;
    let b3 = (x / 16777216) % 256;
    assert(x / 16777216 < 256);
    assert(x == 256 * (x / 256) + b0);
    assert(x / 256 == 256 * (x / 65536) + b1);
    assert(x / 65536 == 256 * (x / 16777216) + b2);
    assert(x == b0 + 256 * b1 + 65536 * b2 + 16777216 * b3);
}

/// A word's bytes are the four bytes it was spelled from.
pub proof fn lemma_bytes_round_trip(bytes: Seq<u8>)
    requires
        bytes.len() == 4,
    ensures
        word_bytes(word_of(bytes)) == bytes,
{
    let b0 = bytes[0] as int;
    let b1 = bytes[1] as int;
    let b2 = bytes[2] as int;
    let b3 = bytes[3] as int;
    let x = b0 + 256 * b1 + 65536 * b2 + 16777216 * b3;
    assert(0 <= x < 0x1_0000_0000);
    assert(word_of(bytes) as int == x);
    assert(x == 256 * (b1 + 256 * b2 + 65536 * b3) + b0);
    assert(x == 65536 * (b2 + 256 * b3) + (b0 + 256 * b1));
    assert(x == 16777216 * b3 + (b0 + 256 * b1 + 65536 * b2));
    assert(x % 256 == b0);
    assert(x / 256 == b1 + 256 * b2 + 65536 * b3);
    assert(x / 65536 == b2 + 256 * b3);
    assert(x / 16777216 == b3);
    assert(word_bytes(word_of(bytes)) =~= bytes);
}

/// Decoding gives back every vector that was encoded, bit for bit.
pub proof fn lemma_decode_inverts_encode(words: Seq<u32>)
    ensures
        encoded(words).len() == 4 * words.len(),
        decoded(encoded(words)) == words,
{
    let bytes = encoded(words);
    assert forall|i: int| 0 <= i < words.len() implies #[trigger] decoded(bytes)[i] == words[i] by {
        let group = bytes.subrange(4 * i, 4 * i + 4);
        assert(group =~= word_bytes(words[i])) by {
            assert forall|k: int| 0 <= k < 4 implies group[k] == word_bytes(words[i])[k] by {
                assert(group[k] == bytes[4 * i + k]);
                assert((4 * i + k) / 4 == i);
                assert((4 * i + k) % 4 == k);
            }
        }
        lemma_word_round_trip(words[i]);
    }
    assert(decoded(bytes) =~= words);
}

/// Encoding gives back every buffer of whole components that was decoded.
pub proof fn lemma_encode_inverts_decode(bytes: Seq<u8>)
    requires
        bytes.len() % 4 == 0,
    ensures
        decoded(bytes).len() * 4 == bytes.len(),
        encoded(decoded(bytes)) == bytes,
{
    let words = decoded(bytes);
    assert forall|j: int| 0 <= j < bytes.len() implies #[trigger] encoded(words)[j] == bytes[j] by {
        let i = j / 4;
        let group = bytes.subrange(4 * i, 4 * i + 4);
        lemma_bytes_round_trip(group);
        assert(group[j % 4] == bytes[4 * i + j % 4]);
    }
    assert(encoded(words) =~= bytes);
}

/// `byteorder::LittleEndian::write_u32`, on a buffer of four bytes. The
/// contract claims what the crate documents: the buffer then holds the word
/// in little-endian order.
#[verifier::external_body]
fn write_word(w: u32) -> (bytes: [u8; 4])
    ensures
        bytes@ == word_bytes(w),
{
    let mut buf: [u8; 4] = [0u8; 4];
    LittleEndian::write_u32(&mut buf, w);
    buf
}

/// The word that the first four bytes spell, least significant first.
fn read_word(bytes: &[u8]) -> (w: u32)
    requires
        bytes@.len() >= 4,
    ensures
        w == word_of(bytes@.subrange(0, 4)),
{
    bytes[0] as u32 + 256 * (bytes[1] as u32) + 65536 * (bytes[2] as u32) + 16777216 * (
    bytes[3] as u32)
}

/// Lays a vector out as bytes for the store.
pub fn to_byte_array(array: &Embedding) -> (bytes: Vec<u8>)
    ensures
        bytes@ == encoded(array@),
{
    let words = array.as_bits();
    let capacity: usize = match words.len().checked_mul(4) {
        Some(n) => n,
        None => 0,
    };
    let mut bytes: Vec<u8> = Vec::with_capacity(capacity);
    let mut i: usize = 0;
    while i < words.len()
        invariant
            i <= words.len(),
            words@ == array@,
            bytes@ == encoded(array@.take(i as int)),
        decreases words.len() - i,
    {
        let buf = write_word(words[i]);
        bytes.push(buf[0]);
        bytes.push(buf[1]);
        bytes.push(buf[2]);
        bytes.push(buf[3]);
        assert(bytes@ =~= encoded(array@.take(i + 1)));
        i = i + 1;
    }
    assert(array@.take(i as int) =~= array@);
    bytes
}

/// Reads a vector back from its bytes. A buffer that does not end on a whole
/// component spells no vector.
pub fn from_byte_array(bytes: &[u8]) -> (array: Option<Embedding>)
    ensures
        bytes@.len() % 4 == 0 ==> (array matches Some(e) && e@ == decoded(bytes@)),
        bytes@.len() % 4 != 0 ==> array is None,
{
    if bytes.len() % 4 != 0 {
        return None;
    }
    let n: usize = bytes.len() / 4;
    let mut words: Vec<u32> = Vec::with_capacity(n);
    let mut i: usize = 0;
    while i < n
        invariant
            i <= n,
            bytes@.len() == 4 * n <= usize::MAX,
            words@ == decoded(bytes@).take(i as int),
        decreases n - i,
    {
        let group = slice_subrange(bytes, 4 * i, 4 * i + 4);
        assert(group@.subrange(0, 4) =~= group@);
        words.push(read_word(group));
        assert(words@ =~= decoded(bytes@).take(i + 1));
        i = i + 1;
    }
    assert(decoded(bytes@).take(i as int) =~= decoded(bytes@));
    Some(Embedding::from_bits(words))
}

} // verus!
