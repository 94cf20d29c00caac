//! The values the pipeline uploads: the full-screen quad and the uniform
//! blocks. Floating-point values are held as their IEEE-754 bit patterns.

use vstd::prelude::*;
use crate::bytes::{encode_words, words_to_bytes};
use crate::layout::{FieldKind, UniformLayout};
use crate::uniform::{block_bytes, pack_block, unpack_block, values_fit, views};

verus! {

/// Bit pattern of the `f32` value `1.0`.
pub const ONE_BITS: u32 = 0x3f80_0000;

/// Bit pattern of the `f32` value `-1.0`.
pub const MINUS_ONE_BITS: u32 = 0xbf80_0000;

/// One vertex of the quad: a clip-space position, as `f32` bit patterns.
#[derive(Clone, Copy, Debug)]
pub struct Vert {
    pub position: [u32; 2],
}

/// The quad's corners, in triangle-strip order: top left, bottom left, top
/// right, bottom right.
pub open spec fn spec_quad() -> Seq<Vert> {
    seq![
        Vert { position: [MINUS_ONE_BITS, ONE_BITS] },
        Vert { position: [MINUS_ONE_BITS, MINUS_ONE_BITS] },
        Vert { position: [ONE_BITS, ONE_BITS] },
        Vert { position: [ONE_BITS, MINUS_ONE_BITS] },
    ]
}

/// The four vertices of a quad that covers the whole surface.
pub fn quad() -> (r: Vec<Vert>)
    ensures
        r@ == spec_quad(),
{
    let r = vec![
        Vert { position: [MINUS_ONE_BITS, ONE_BITS] },
        Vert { position: [MINUS_ONE_BITS, MINUS_ONE_BITS] },
        Vert { position: [ONE_BITS, ONE_BITS] },
        Vert { position: [ONE_BITS, MINUS_ONE_BITS] },
    ];
    assert(r@ =~= spec_quad());
    r
}

/// The coordinates of `vs`, two per vertex, in order.
pub open spec fn vertex_words(vs: Seq<Vert>) -> Seq<u32> {
    Seq::new(2 * vs.len(), |k: int| vs[k / 2].position@[k % 2])
}

/// The vertex buffer's contents for `data`.
pub fn vertices_as_bytes(data: &Vec<Vert>) -> (r: Vec<u8>)
    requires
        8 * data@.len() <= usize::MAX,
    ensures
        r@ == words_to_bytes(vertex_words(data@)),
{
    let mut ws: Vec<u32> = Vec::new();
    let mut i: usize = 0;
    while i < data.len()
        invariant
            i <= data@.len(),
            8 * data@.len() <= usize::MAX,
            ws@ =~= vertex_words(data@.take(i as int)),
        decreases data@.len() - i,
    {
        let v = data[i];
        ws.push(v.position[0]);
        ws.push(v.position[1]);
        i = i + 1;
        assert(ws@ =~= vertex_words(data@.take(i as int)));
    }
    assert(data@.take(i as int) =~= data@);
    encode_words(&ws)
}

/// The fields of a `ConvolutionUniform`: one 4x4 matrix.
pub open spec fn convolution_kinds() -> Seq<FieldKind> {
    seq![FieldKind::Mat4]
}

/// The fields of a `FrameUniforms`: time, effect strength and step count.
pub open spec fn frame_kinds() -> Seq<FieldKind> {
    seq![FieldKind::Scalar, FieldKind::Scalar, FieldKind::Scalar]
}

/// A 4x4 convolution kernel, column by column, as `f32` bit patterns.
#[derive(Clone, Copy, Debug)]
pub struct ConvolutionUniform {
    pub convolution: [u32; 16],
}

/// The per-frame parameters the compute stage reads.
#[derive(Clone, Copy, Debug, PartialEq, Eq, Structural)]
pub struct FrameUniforms {
    /// Elapsed time in seconds, as an `f32` bit pattern.
    pub time_bits: u32,
    /// The user's effect strength, as an `f32` bit pattern.
    pub effect_bits: u32,
    /// A user-chosen count (resolution, steps).
    pub step_count: u32,
}

fn array_to_vec(a: &[u32; 16]) -> (r: Vec<u32>)
    ensures
        r@ == a@,
{
    let mut r: Vec<u32> = Vec::new();
    let mut i: usize = 0;
    while i < 16
        invariant
            i <= 16,
            r@ =~= a@.take(i as int),
        decreases 16 - i,
    {
        r.push(a[i]);
        i = i + 1;
        assert(r@ =~= a@.take(i as int));
    }
    assert(a@.take(16) =~= a@);
    r
}

impl ConvolutionUniform {
    pub open spec fn values(&self) -> Seq<Seq<u32>> {
        seq![self.convolution@]
    }

    /// The field types a shader declares for this block.
    pub fn kinds() -> (r: Vec<FieldKind>)
        ensures
            r@ == convolution_kinds(),
    {
        let r = vec![FieldKind::Mat4];
        assert(r@ =~= convolution_kinds());
        r
    }

    /// The block's bytes under `layout`.
    pub fn to_bytes(&self, layout: &UniformLayout) -> (r: Vec<u8>)
        requires
            layout.wf(),
            layout.kinds@ == convolution_kinds(),
        ensures
            r@ == block_bytes(convolution_kinds(), self.values()),
    {
        let vals = vec![array_to_vec(&self.convolution)];
        assert(views(vals@) =~= self.values());
        assert(values_fit(convolution_kinds(), self.values()));
        pack_block(layout, &vals)
    }

    /// The block held by `bytes` under `layout`, or `None` when `bytes` is
    /// not exactly the block's size.
    pub fn from_bytes(layout: &UniformLayout, bytes: &Vec<u8>) -> (r: Option<ConvolutionUniform>)
        requires
            layout.wf(),
            layout.kinds@ == convolution_kinds(),
        ensures
            r is None <==> bytes@.len() != layout.size,
            r matches Some(u) ==> u.values() == crate::uniform::field_values(
                convolution_kinds(),
                crate::bytes::bytes_to_words(bytes@),
            ),
    {
        let vals = match unpack_block(layout, bytes) {
            Some(v) => v,
            None => return None,
        };
        let ghost fv = crate::uniform::field_values(convolution_kinds(), crate::bytes::bytes_to_words(bytes@));
        assert(fv.len() == 1);
        assert(views(vals@).len() == vals@.len());
        assert(views(vals@)[0] == vals@[0]@);
        assert(vals@[0]@.len() == 16);
        let mut c: [u32; 16] = [0u32; 16];
        let mut i: usize = 0;
        while i < 16
            invariant
                i <= 16,
                vals@.len() == 1,
                vals@[0]@.len() == 16,
                forall|k: int| 0 <= k < i ==> c@[k] == vals@[0]@[k],
            decreases 16 - i,
        {
            c[i] = vals[0][i];
            i = i + 1;
        }
        let u = ConvolutionUniform { convolution: c };
        assert(u.values()[0] =~= fv[0]);
        assert(u.values() =~= fv);
        Some(u)
    }
}

impl FrameUniforms {
    pub open spec fn values(&self) -> Seq<Seq<u32>> {
        seq![seq![self.time_bits], seq![self.effect_bits], seq![self.step_count]]
    }

    /// The field types a shader declares for this block.
    pub fn kinds() -> (r: Vec<FieldKind>)
        ensures
            r@ == frame_kinds(),
    {
        let r = vec![FieldKind::Scalar, FieldKind::Scalar, FieldKind::Scalar];
        assert(r@ =~= frame_kinds());
        r
    }

    /// The block's bytes under `layout`.
    pub fn to_bytes(&self, layout: &UniformLayout) -> (r: Vec<u8>)
        requires
            layout.wf(),
            layout.kinds@ == frame_kinds(),
        ensures
            r@ == block_bytes(frame_kinds(), self.values()),
    {
        let vals = vec![vec![self.time_bits], vec![self.effect_bits], vec![self.step_count]];
        assert(views(vals@) =~= self.values()) by {
            assert(vals@[0]@ =~= seq![self.time_bits]);
            assert(vals@[1]@ =~= seq![self.effect_bits]);
            assert(vals@[2]@ =~= seq![self.step_count]);
        }
        assert(values_fit(frame_kinds(), self.values()));
        pack_block(layout, &vals)
    }

    /// The block held by `bytes` under `layout`, or `None` when `bytes` is
    /// not exactly the block's size.
    pub fn from_bytes(layout: &UniformLayout, bytes: &Vec<u8>) -> (r: Option<FrameUniforms>)
        requires
            layout.wf(),
            layout.kinds@ == frame_kinds(),
        ensures
            r is None <==> bytes@.len() != layout.size,
            r matches Some(u) ==> u.values() == crate::uniform::field_values(
                frame_kinds(),
                crate::bytes::bytes_to_words(bytes@),
            ),
    {
        let vals = match unpack_block(layout, bytes) {
            Some(v) => v,
            None => return None,
        };
        let ghost fv = crate::uniform::field_values(frame_kinds(), crate::bytes::bytes_to_words(bytes@));
        assert(fv.len() == 3);
        assert(views(vals@).len() == vals@.len());
        assert(views(vals@)[0] == vals@[0]@);
        assert(views(vals@)[1] == vals@[1]@);
        assert(views(vals@)[2] == vals@[2]@);
        assert(frame_kinds()[0].words() == 1 && frame_kinds()[1].words() == 1 && frame_kinds()[2].words() == 1);
        assert(views(vals@)[0].len() == 1 && views(vals@)[1].len() == 1 && views(vals@)[2].len() == 1);
        let u = FrameUniforms { time_bits: vals[0][0], effect_bits: vals[1][0], step_count: vals[2][0] };
        assert(u.values()[0] =~= fv[0]);
        assert(u.values()[1] =~= fv[1]);
        assert(u.values()[2] =~= fv[2]);
        assert(u.values() =~= fv);
        Some(u)
    }
}

} // verus!
