//! Byte images of 32-bit words, in the little-endian order that GPU buffers
//! use for host-shareable data.

use vstd::prelude::*;

verus! {

/// The four bytes of `w`, least significant first.
pub open spec fn le_bytes(w: u32) -> Seq<u8> {
    seq![(w & 0xff) as u8, ((w >> 8u32) & 0xff) as u8, ((w >> 16u32) & 0xff) as u8, (w >> 24u32) as u8]
}

/// The word whose least significant byte is `b[0]`.
pub open spec fn le_word(b: Seq<u8>) -> u32
    recommends
        b.len() == 4,
{
    (b[0] as u32) | ((b[1] as u32) << 8u32) | ((b[2] as u32) << 16u32) | ((b[3] as u32) << 24u32)
}

/// The byte image of a sequence of words: each word's bytes in turn.
pub open spec fn words_to_bytes(ws: Seq<u32>) -> Seq<u8> {
    Seq::new(4 * ws.len(), |k: int| le_bytes(ws[k / 4])[k % 4])
}

/// The words read back from a byte image whose length is a multiple of four.
pub open spec fn bytes_to_words(b: Seq<u8>) -> Seq<u32> {
    Seq::new(b.len() / 4, |i: int| le_word(b.subrange(4 * i, 4 * i + 4)))
}

/// Relies on bytemuck::cast_slice from `[u8; 4]` to `u8`: the same bytes in
/// the same order, four per element. The cast cannot fail here, as the target
/// has alignment one and divides the source size.
#[verifier::external_body]
fn flatten_quads(q: &[[u8; 4]]) -> (r: Vec<u8>)
    ensures
        r@.len() == 4 * q@.len(),
        forall|k: int| 0 <= k < r@.len() ==> #[trigger] r@[k] == q@[k / 4]@[k % 4],
{
    bytemuck::cast_slice::<[u8; 4], u8>(q).to_vec()
}

/// Relies on bytemuck::cast_slice from `u8` to `[u8; 4]`: consecutive groups
/// of four bytes, in order. It panics unless the length is a multiple of
/// four, which the caller rules out.
#[verifier::external_body]
fn group_quads(b: &[u8]) -> (r: Vec<[u8; 4]>)
    requires
        b@.len() % 4 == 0,
    ensures
        4 * r@.len() == b@.len(),
        forall|i: int, j: int| 0 <= i < r@.len() && 0 <= j < 4 ==> #[trigger] r@[i]@[j] == b@[4 * i + j],
{
    bytemuck::cast_slice::<u8, [u8; 4]>(b).to_vec()
}

/// The little-endian bytes of one word.
pub fn word_to_le(w: u32) -> (r: [u8; 4])
    ensures
        r@ == le_bytes(w),
{
    let r: [u8; 4] = [(w & 0xff) as u8, ((w >> 8u32) & 0xff) as u8, ((w >> 16u32) & 0xff) as u8, (w >> 24u32) as u8];
    assert(r@ =~= le_bytes(w));
    r
}

/// The word whose little-endian bytes are `b`.
pub fn le_to_word(b: [u8; 4]) -> (r: u32)
    ensures
        r == le_word(b@),
{
    (b[0] as u32) | ((b[1] as u32) << 8u32) | ((b[2] as u32) << 16u32) | ((b[3] as u32) << 24u32)
}

/// Reading a word back from its bytes gives the word.
pub proof fn lemma_le_round_trip(w: u32)
    ensures
        le_word(le_bytes(w)) == w,
{
    let b0 = (w & 0xff) as u8;
    let b1 = ((w >> 8u32) & 0xff) as u8;
    let b2 = ((w >> 16u32) & 0xff) as u8;
    let b3 = (w >> 24u32) as u8;
    assert((b0 as u32) | ((b1 as u32) << 8u32) | ((b2 as u32) << 16u32) | ((b3 as u32) << 24u32) == w)
        by (bit_vector)
        requires
            b0 == (w & 0xff) as u8,
            b1 == ((w >> 8u32) & 0xff) as u8,
            b2 == ((w >> 16u32) & 0xff) as u8,
            b3 == (w >> 24u32) as u8,
    ;
}

/// Writing words to bytes and reading them back gives the same words.
pub proof fn lemma_words_round_trip(ws: Seq<u32>)
    ensures
        bytes_to_words(words_to_bytes(ws)) == ws,
{
    let b = words_to_bytes(ws);
    assert forall|i: int| 0 <= i < ws.len() implies #[trigger] bytes_to_words(b)[i] == ws[i] by {
        let s = b.subrange(4 * i, 4 * i + 4);
        assert(s =~= le_bytes(ws[i])) by {
            assert forall|j: int| 0 <= j < 4 implies s[j] == le_bytes(ws[i])[j] by {
                assert((4 * i + j) / 4 == i);
                assert((4 * i + j) % 4 == j);
            }
        }
        lemma_le_round_trip(ws[i]);
    }
    assert(bytes_to_words(b) =~= ws);
}

/// The byte image of `ws`.
pub fn encode_words(ws: &Vec<u32>) -> (r: Vec<u8>)
    requires
        4 * ws@.len() <= usize::MAX,
    ensures
        r@ == words_to_bytes(ws@),
{
    let mut quads: Vec<[u8; 4]> = Vec::new();
    let mut i: usize = 0;
    while i < ws.len()
        invariant
            i <= ws@.len(),
            quads@.len() == i,
            forall|k: int| 0 <= k < i ==> #[trigger] quads@[k]@ == le_bytes(ws@[k]),
        decreases ws@.len() - i,
    {
        quads.push(word_to_le(ws[i]));
        i = i + 1;
    }
    let r = flatten_quads(quads.as_slice());
    assert(r@ =~= words_to_bytes(ws@));
    r
}

/// The words of a byte image, or `None` when its length is not a multiple
/// of four.
pub fn decode_words(b: &Vec<u8>) -> (r: Option<Vec<u32>>)
    ensures
        r is None <==> b@.len() % 4 != 0,
        r matches Some(ws) ==> ws@ == bytes_to_words(b@),
{
    if b.len() % 4 != 0 {
        return None;
    }
    let quads = group_quads(b.as_slice());
    let mut ws: Vec<u32> = Vec::new();
    let mut i: usize = 0;
    while i < quads.len()
        invariant
            i <= quads@.len(),
            4 * quads@.len() == b@.len(),
            ws@.len() == i,
            forall|i: int, j: int| 0 <= i < quads@.len() && 0 <= j < 4 ==> #[trigger] quads@[i]@[j] == b@[4 * i + j],
            forall|k: int| 0 <= k < i ==> #[trigger] ws@[k] == le_word(b@.subrange(4 * k, 4 * k + 4)),
        decreases quads@.len() - i,
    {
        let q = quads[i];
        assert(q@ =~= b@.subrange(4 * i as int, 4 * i as int + 4));
        ws.push(le_to_word(q));
        i = i + 1;
    }
    assert(ws@ =~= bytes_to_words(b@));
    Some(ws)
}

} // verus!
