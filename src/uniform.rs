//! Uniform blocks as bytes: field values written at the offsets their layout
//! gives, padding zeroed, and read back from such bytes.

use vstd::prelude::*;
use crate::bytes::{bytes_to_words, decode_words, encode_words, lemma_words_round_trip, words_to_bytes};
use crate::layout::{block_size, field_offset, lemma_field_within, lemma_fields_disjoint, FieldKind, UniformLayout};

verus! {

/// `w` with the words of `v` written from position `at` on.
pub open spec fn place(w: Seq<u32>, at: int, v: Seq<u32>) -> Seq<u32> {
    Seq::new(w.len(), |p: int| if at <= p < at + v.len() { v[p - at] } else { w[p] })
}

/// The block's words after the first `n` fields are written over zeros.
pub open spec fn packed_prefix(ks: Seq<FieldKind>, vals: Seq<Seq<u32>>, n: nat) -> Seq<u32>
    decreases n,
{
    if n == 0 {
        Seq::new(block_size(ks) / 4, |p: int| 0u32)
    } else {
        place(packed_prefix(ks, vals, (n - 1) as nat), (field_offset(ks, n - 1) / 4) as int, vals[n - 1])
    }
}

/// The block's words with every field written.
pub open spec fn packed_words(ks: Seq<FieldKind>, vals: Seq<Seq<u32>>) -> Seq<u32> {
    packed_prefix(ks, vals, ks.len())
}

/// The bytes of a block with fields `ks` holding `vals`.
pub open spec fn block_bytes(ks: Seq<FieldKind>, vals: Seq<Seq<u32>>) -> Seq<u8> {
    words_to_bytes(packed_words(ks, vals))
}

/// One value per field, each with as many words as its field holds.
pub open spec fn values_fit(ks: Seq<FieldKind>, vals: Seq<Seq<u32>>) -> bool {
    &&& vals.len() == ks.len()
    &&& forall|i: int| 0 <= i < ks.len() ==> (#[trigger] vals[i]).len() == ks[i].words()
}

/// The words of each field, read at the field's offset.
pub open spec fn field_values(ks: Seq<FieldKind>, w: Seq<u32>) -> Seq<Seq<u32>> {
    Seq::new(
        ks.len(),
        |i: int| w.subrange((field_offset(ks, i) / 4) as int, (field_offset(ks, i) / 4 + ks[i].words()) as int),
    )
}

pub open spec fn views(vs: Seq<Vec<u32>>) -> Seq<Seq<u32>> {
    vs.map_values(|v: Vec<u32>| v@)
}

proof fn lemma_offset_word_aligned(ks: Seq<FieldKind>, i: int)
    requires
        0 <= i < ks.len(),
    ensures
        field_offset(ks, i) % 4 == 0,
        block_size(ks) % 4 == 0,
{
    let a = ks[i].align();
    let x = crate::layout::layout_end(ks.take(i));
    let r = field_offset(ks, i);
    if x % a != 0 {
        assert(((x - x % a + a) as nat) % a == 0) by (nonlinear_arith)
            requires
                a > 0,
                0 < x % a < a,
        ;
    }
    assert(r % a == 0);
    assert(r % 4 == 0) by (nonlinear_arith)
        requires
            r % a == 0,
            a == 4 || a == 8 || a == 16,
    ;
    lemma_block_size_word_aligned(ks);
}

proof fn lemma_block_align_choice(ks: Seq<FieldKind>)
    ensures
        crate::layout::block_align(ks) == 4 || crate::layout::block_align(ks) == 8
            || crate::layout::block_align(ks) == 16,
    decreases ks.len(),
{
    if ks.len() > 0 {
        lemma_block_align_choice(ks.drop_last());
    }
}

proof fn lemma_block_size_word_aligned(ks: Seq<FieldKind>)
    ensures
        block_size(ks) % 4 == 0,
{
    let a = crate::layout::block_align(ks);
    let x = crate::layout::layout_end(ks);
    lemma_block_align_choice(ks);
    if x % a != 0 {
        assert(((x - x % a + a) as nat) % a == 0) by (nonlinear_arith)
            requires
                a > 0,
                0 < x % a < a,
        ;
    }
    let r = block_size(ks);
    assert(r % 4 == 0) by (nonlinear_arith)
        requires
            r % a == 0,
            a == 4 || a == 8 || a == 16,
    ;
}

proof fn lemma_prefix_len(ks: Seq<FieldKind>, vals: Seq<Seq<u32>>, n: nat)
    ensures
        packed_prefix(ks, vals, n).len() == block_size(ks) / 4,
    decreases n,
{
    if n > 0 {
        lemma_prefix_len(ks, vals, (n - 1) as nat);
    }
}

/// Once field `i` is written, later fields leave its words alone.
proof fn lemma_field_kept(ks: Seq<FieldKind>, vals: Seq<Seq<u32>>, i: int, n: nat, j: int)
    requires
        values_fit(ks, vals),
        0 <= i < n <= ks.len(),
        0 <= j < ks[i].words(),
    ensures
        packed_prefix(ks, vals, n)[field_offset(ks, i) / 4 + j] == vals[i][j],
    decreases n,
{
    lemma_offset_word_aligned(ks, i);
    lemma_field_within(ks, i);
    lemma_prefix_len(ks, vals, (n - 1) as nat);
    if n - 1 > i {
        lemma_field_kept(ks, vals, i, (n - 1) as nat, j);
        lemma_fields_disjoint(ks, i, n - 1);
        lemma_offset_word_aligned(ks, n - 1);
    }
}

/// Writing a block's fields and reading them back at their offsets gives
/// the values written; the bytes are exactly as many as the block's size.
pub proof fn lemma_block_round_trip(ks: Seq<FieldKind>, vals: Seq<Seq<u32>>)
    requires
        values_fit(ks, vals),
    ensures
        block_bytes(ks, vals).len() == block_size(ks),
        field_values(ks, bytes_to_words(block_bytes(ks, vals))) == vals,
{
    let w = packed_words(ks, vals);
    lemma_prefix_len(ks, vals, ks.len());
    lemma_block_size_word_aligned(ks);
    lemma_words_round_trip(w);
    assert forall|i: int| 0 <= i < ks.len() implies #[trigger] field_values(ks, w)[i] == vals[i] by {
        lemma_field_within(ks, i);
        lemma_offset_word_aligned(ks, i);
        assert forall|j: int| 0 <= j < ks[i].words() implies w[field_offset(ks, i) / 4 + j] == vals[i][j] by {
            lemma_field_kept(ks, vals, i, ks.len(), j);
        }
        assert(field_values(ks, w)[i] =~= vals[i]);
    }
    assert(field_values(ks, w) =~= vals);
}

/// The bytes of a block laid out by `layout` whose fields hold `vals`.
pub fn pack_block(layout: &UniformLayout, vals: &Vec<Vec<u32>>) -> (r: Vec<u8>)
    requires
        layout.wf(),
        values_fit(layout.kinds@, views(vals@)),
    ensures
        r@ == block_bytes(layout.kinds@, views(vals@)),
{
    let ghost ks = layout.kinds@;
    let ghost vs = views(vals@);
    let words_len: usize = (layout.size / 4) as usize;
    let mut w: Vec<u32> = Vec::new();
    let mut p: usize = 0;
    while p < words_len
        invariant
            p <= words_len,
            words_len == block_size(ks) / 4,
            w@ =~= Seq::new(p as nat, |q: int| 0u32),
        decreases words_len - p,
    {
        w.push(0);
        p = p + 1;
    }
    assert(w@ =~= packed_prefix(ks, vs, 0));
    let mut i: usize = 0;
    while i < layout.kinds.len()
        invariant
            layout.wf(),
            ks == layout.kinds@,
            vs == views(vals@),
            values_fit(ks, vs),
            i <= ks.len(),
            w@ == packed_prefix(ks, vs, i as nat),
        decreases ks.len() - i,
    {
        let at: usize = (layout.offsets[i] / 4) as usize;
        let v = &vals[i];
        let ghost before = w@;
        proof {
            lemma_field_within(ks, i as int);
            lemma_prefix_len(ks, vs, i as nat);
            lemma_block_size_word_aligned(ks);
            lemma_offset_word_aligned(ks, i as int);
            assert(vs[i as int] == v@);
        }
        let mut j: usize = 0;
        while j < v.len()
            invariant
                j <= v@.len(),
                i < ks.len(),
                w@.len() == before.len(),
                before.len() <= u32::MAX,
                v@.len() == ks[i as int].words(),
                at + v@.len() <= before.len(),
                at as int == field_offset(ks, i as int) / 4,
                w@ == place(before, at as int, v@.take(j as int)),
            decreases v@.len() - j,
        {
            w.set(at + j, v[j]);
            j = j + 1;
            assert(w@ =~= place(before, at as int, v@.take(j as int)));
        }
        assert(v@.take(j as int) =~= v@);
        i = i + 1;
    }
    proof {
        lemma_prefix_len(ks, vs, ks.len());
    }
    encode_words(&w)
}

/// The field values of a block laid out by `layout`, read from `bytes`, or
/// `None` when `bytes` is not exactly the block's size.
pub fn unpack_block(layout: &UniformLayout, bytes: &Vec<u8>) -> (r: Option<Vec<Vec<u32>>>)
    requires
        layout.wf(),
    ensures
        r is None <==> bytes@.len() != layout.size,
        r matches Some(vs) ==> views(vs@) == field_values(layout.kinds@, bytes_to_words(bytes@)),
        r matches Some(vs) ==> values_fit(layout.kinds@, views(vs@)),
{
    if bytes.len() != layout.size as usize {
        return None;
    }
    let ghost ks = layout.kinds@;
    proof {
        lemma_block_size_word_aligned(ks);
    }
    let w = match decode_words(bytes) {
        Some(w) => w,
        None => return None,
    };
    let mut out: Vec<Vec<u32>> = Vec::new();
    let mut i: usize = 0;
    while i < layout.kinds.len()
        invariant
            layout.wf(),
            ks == layout.kinds@,
            w@ == bytes_to_words(bytes@),
            w@.len() == block_size(ks) / 4,
            w@.len() <= u32::MAX,
            i <= ks.len(),
            out@.len() == i,
            forall|k: int| 0 <= k < i ==> (#[trigger] out@[k])@ == field_values(ks, w@)[k],
            forall|k: int| 0 <= k < i ==> (#[trigger] out@[k])@.len() == ks[k].words(),
        decreases ks.len() - i,
    {
        let at: usize = (layout.offsets[i] / 4) as usize;
        let n: usize = (layout.kinds[i].size_bytes() / 4) as usize;
        proof {
            lemma_field_within(ks, i as int);
            lemma_offset_word_aligned(ks, i as int);
        }
        let mut v: Vec<u32> = Vec::new();
        let mut j: usize = 0;
        while j < n
            invariant
                j <= n,
                i < ks.len(),
                w@.len() <= u32::MAX,
                n == ks[i as int].words(),
                at as int == field_offset(ks, i as int) / 4,
                at + n <= w@.len(),
                v@ == w@.subrange(at as int, at + j),
            decreases n - j,
        {
            v.push(w[at + j]);
            j = j + 1;
            assert(v@ =~= w@.subrange(at as int, at + j));
        }
        out.push(v);
        i = i + 1;
    }
    assert(views(out@) =~= field_values(ks, w@));
    assert(values_fit(ks, views(out@)));
    Some(out)
}

} // verus!
