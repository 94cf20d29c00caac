//! The byte layout of uniform blocks, by the alignment rules of the shading
//! language: each field starts at the next multiple of its alignment, and the
//! block's size is rounded up to its largest alignment.

use vstd::prelude::*;
use crate::error::PipelineError;

verus! {

/// The type of one field of a uniform block, as a shader declares it.
#[derive(Clone, Copy, Debug, PartialEq, Eq, Structural)]
pub enum FieldKind {
    /// `f32`, `u32` or `i32`.
    Scalar,
    /// `vec2<f32>`.
    Vec2,
    /// `vec4<f32>`.
    Vec4,
    /// `mat4x4<f32>`.
    Mat4,
}

impl FieldKind {
    pub open spec fn size(self) -> nat {
        match self {
            FieldKind::Scalar => 4,
            FieldKind::Vec2 => 8,
            FieldKind::Vec4 => 16,
            FieldKind::Mat4 => 64,
        }
    }

    pub open spec fn align(self) -> nat {
        match self {
            FieldKind::Scalar => 4,
            FieldKind::Vec2 => 8,
            FieldKind::Vec4 => 16,
            FieldKind::Mat4 => 16,
        }
    }

    /// Number of 32-bit words the field holds.
    pub open spec fn words(self) -> nat {
        self.size() / 4
    }

    pub fn size_bytes(self) -> (r: u32)
        ensures
            r as nat == self.size(),
    {
        match self {
            FieldKind::Scalar => 4,
            FieldKind::Vec2 => 8,
            FieldKind::Vec4 => 16,
            FieldKind::Mat4 => 64,
        }
    }

    pub fn align_bytes(self) -> (r: u32)
        ensures
            r as nat == self.align(),
    {
        match self {
            FieldKind::Scalar => 4,
            FieldKind::Vec2 => 8,
            FieldKind::Vec4 => 16,
            FieldKind::Mat4 => 16,
        }
    }
}

/// The least multiple of `a` that is at least `x`.
pub open spec fn round_up(x: nat, a: nat) -> nat
    recommends
        a > 0,
{
    if x % a == 0 {
        x
    } else {
        (x - x % a + a) as nat
    }
}

/// Where the last field of `ks` ends.
pub open spec fn layout_end(ks: Seq<FieldKind>) -> nat
    decreases ks.len(),
{
    if ks.len() == 0 {
        0
    } else {
        round_up(layout_end(ks.drop_last()), ks.last().align()) + ks.last().size()
    }
}

/// Byte offset of field `i`.
pub open spec fn field_offset(ks: Seq<FieldKind>, i: int) -> nat {
    round_up(layout_end(ks.take(i)), ks[i].align())
}

/// The block's alignment: the largest of its fields', at least four.
pub open spec fn block_align(ks: Seq<FieldKind>) -> nat
    decreases ks.len(),
{
    if ks.len() == 0 {
        4
    } else {
        let a = block_align(ks.drop_last());
        if ks.last().align() > a {
            ks.last().align()
        } else {
            a
        }
    }
}

/// The block's size in bytes.
pub open spec fn block_size(ks: Seq<FieldKind>) -> nat {
    round_up(layout_end(ks), block_align(ks))
}

/// The placement of every field of a block, and its size.
#[derive(Debug)]
pub struct UniformLayout {
    pub kinds: Vec<FieldKind>,
    pub offsets: Vec<u32>,
    pub size: u32,
}

impl UniformLayout {
    /// The layout is the one the alignment rules give for its fields.
    pub open spec fn wf(&self) -> bool {
        &&& self.offsets@.len() == self.kinds@.len()
        &&& forall|i: int| 0 <= i < self.kinds@.len() ==> #[trigger] self.offsets@[i] as nat == field_offset(self.kinds@, i)
        &&& self.size as nat == block_size(self.kinds@)
    }
}

proof fn lemma_round_up(x: nat, a: nat)
    requires
        a > 0,
    ensures
        x <= round_up(x, a) < x + a,
        round_up(x, a) % a == 0,
{
    if x % a != 0 {
        assert(((x - x % a + a) as nat) % a == 0) by (nonlinear_arith)
            requires
                a > 0,
                0 < x % a < a,
        ;
    }
}

proof fn lemma_align_positive(ks: Seq<FieldKind>)
    ensures
        block_align(ks) >= 4,
        block_align(ks) == 4 || block_align(ks) == 8 || block_align(ks) == 16,
    decreases ks.len(),
{
    if ks.len() > 0 {
        lemma_align_positive(ks.drop_last());
    }
}

/// The end of a prefix never lies past the end of the whole.
pub proof fn lemma_end_monotone(ks: Seq<FieldKind>, i: int)
    requires
        0 <= i <= ks.len(),
    ensures
        layout_end(ks.take(i)) <= layout_end(ks),
    decreases ks.len() - i,
{
    if i < ks.len() {
        lemma_end_monotone(ks, i + 1);
        assert(ks.take(i + 1).drop_last() =~= ks.take(i));
        lemma_round_up(layout_end(ks.take(i)), ks[i].align());
    } else {
        assert(ks.take(i) =~= ks);
    }
}

/// Each field ends no later than the next one starts, and the last ends
/// within the block.
pub proof fn lemma_fields_disjoint(ks: Seq<FieldKind>, i: int, k: int)
    requires
        0 <= i < k < ks.len(),
    ensures
        field_offset(ks, i) + ks[i].size() <= field_offset(ks, k),
        field_offset(ks, k) + ks[k].size() <= block_size(ks),
{
    let pk = ks.take(k);
    assert(ks.take(i + 1) =~= pk.take(i + 1));
    lemma_end_monotone(pk, i + 1);
    assert(pk.take(i + 1).drop_last() =~= ks.take(i));
    lemma_round_up(layout_end(pk), ks[k].align());
    lemma_field_within(ks, k);
}

/// Every field lies within the block.
pub proof fn lemma_field_within(ks: Seq<FieldKind>, k: int)
    requires
        0 <= k < ks.len(),
    ensures
        field_offset(ks, k) + ks[k].size() <= block_size(ks),
{
    lemma_end_monotone(ks, k + 1);
    assert(ks.take(k + 1).drop_last() =~= ks.take(k));
    lemma_align_positive(ks);
    lemma_round_up(layout_end(ks), block_align(ks));
}

fn round_up_exec(x: u64, a: u64) -> (r: u64)
    requires
        a > 0,
        x + a <= u64::MAX,
    ensures
        r as nat == round_up(x as nat, a as nat),
{
    proof {
        lemma_round_up(x as nat, a as nat);
    }
    let m: u64 = x % a;
    if m == 0 {
        x
    } else {
        assert(m <= x) by (nonlinear_arith)
            requires
                m == x % a,
                a > 0,
        ;
        x - m + a
    }
}

/// Lays out a block with fields `kinds`; fails with `ResourceLimitExceeded`
/// exactly when the block would be larger than `max_size` bytes.
pub fn uniform_layout(kinds: &Vec<FieldKind>, max_size: u32) -> (r: Result<UniformLayout, PipelineError>)
    ensures
        r is Ok <==> block_size(kinds@) <= max_size,
        r matches Ok(l) ==> l.wf() && l.kinds@ == kinds@,
        r matches Err(e) ==> e == PipelineError::ResourceLimitExceeded,
{
    let mut offsets: Vec<u32> = Vec::new();
    let mut end: u64 = 0;
    let mut align: u64 = 4;
    let mut i: usize = 0;
    while i < kinds.len()
        invariant
            i <= kinds@.len(),
            end as nat == layout_end(kinds@.take(i as int)),
            end <= max_size,
            align as nat == block_align(kinds@.take(i as int)),
            offsets@.len() == i,
            forall|k: int| 0 <= k < i ==> #[trigger] offsets@[k] as nat == field_offset(kinds@, k),
        decreases kinds@.len() - i,
    {
        let k = kinds[i];
        let ghost ks = kinds@;
        proof {
            assert(ks.take(i + 1).drop_last() =~= ks.take(i as int));
            assert(ks.take(i + 1).last() == k);
            lemma_align_positive(ks.take(i as int));
        }
        let start = round_up_exec(end, k.align_bytes() as u64);
        let next = start + k.size_bytes() as u64;
        if next > max_size as u64 {
            proof {
                lemma_end_monotone(ks, i + 1);
                lemma_align_positive(ks);
                lemma_round_up(layout_end(ks), block_align(ks));
            }
            return Err(PipelineError::ResourceLimitExceeded);
        }
        offsets.push(start as u32);
        end = next;
        if k.align_bytes() as u64 > align {
            align = k.align_bytes() as u64;
        }
        i = i + 1;
    }
    proof {
        assert(kinds@.take(i as int) =~= kinds@);
        lemma_align_positive(kinds@);
    }
    let size = round_up_exec(end, align);
    if size > max_size as u64 {
        return Err(PipelineError::ResourceLimitExceeded);
    }
    Ok(UniformLayout { kinds: kinds.clone(), offsets, size: size as u32 })
}

} // verus!
