//! Binding layouts: for each stage, the ordered table of slots its shader
//! declares, and binding sets built against such a table.

use vstd::prelude::*;
use crate::error::PipelineError;

verus! {

/// How a sampler reads between texels.
#[derive(Clone, Copy, Debug, PartialEq, Eq, Structural)]
pub enum SamplerFilter {
    Linear,
    Nearest,
}

/// What a binding slot holds.
#[derive(Clone, Copy, Debug, PartialEq, Eq, Structural)]
pub enum BindingKind {
    UniformBuffer,
    StorageBuffer,
    SampledTexture,
    StorageTexture,
    Sampler(SamplerFilter),
}

/// The GPU objects the pipeline binds.
#[derive(Clone, Copy, Debug, PartialEq, Eq, Structural)]
pub enum ResourceId {
    InputTexture,
    IntermediateTexture,
    UniformBuffer,
    Sampler,
}

/// A live resource handed to a binding set, and the kind of slot it fills.
#[derive(Clone, Copy, Debug, PartialEq, Eq, Structural)]
pub struct BoundResource {
    pub kind: BindingKind,
    pub resource: ResourceId,
}

/// A binding set: the resources of each slot of a layout, in slot order.
#[derive(Debug)]
pub struct BindingSet {
    pub layout: Vec<BindingKind>,
    pub resources: Vec<BoundResource>,
}

/// The resources are given slot by slot, in the layout's order.
pub open spec fn resources_match(layout: Seq<BindingKind>, resources: Seq<BoundResource>) -> bool {
    &&& resources.len() == layout.len()
    &&& forall|i: int| 0 <= i < layout.len() ==> (#[trigger] resources[i]).kind == layout[i]
}

impl BindingSet {
    pub open spec fn wf(&self) -> bool {
        resources_match(self.layout@, self.resources@)
    }
}

/// The sampler filter for a texture format: linear where the format can be
/// filtered, nearest otherwise.
pub fn sampler_filter(format_filterable: bool) -> (r: SamplerFilter)
    ensures
        r == (if format_filterable { SamplerFilter::Linear } else { SamplerFilter::Nearest }),
{
    if format_filterable {
        SamplerFilter::Linear
    } else {
        SamplerFilter::Nearest
    }
}

pub open spec fn spec_compute_layout() -> Seq<BindingKind> {
    seq![BindingKind::UniformBuffer, BindingKind::SampledTexture, BindingKind::StorageTexture]
}

pub open spec fn spec_render_layout(filter: SamplerFilter) -> Seq<BindingKind> {
    seq![BindingKind::SampledTexture, BindingKind::Sampler(filter)]
}

/// The compute stage's slots: the uniform block, the input texture it
/// samples, and the intermediate texture it writes.
pub fn compute_layout() -> (r: Vec<BindingKind>)
    ensures
        r@ == spec_compute_layout(),
{
    let r = vec![BindingKind::UniformBuffer, BindingKind::SampledTexture, BindingKind::StorageTexture];
    assert(r@ =~= spec_compute_layout());
    r
}

/// The render stage's slots: the texture it samples, and its sampler.
pub fn render_layout(filter: SamplerFilter) -> (r: Vec<BindingKind>)
    ensures
        r@ == spec_render_layout(filter),
{
    let r = vec![BindingKind::SampledTexture, BindingKind::Sampler(filter)];
    assert(r@ =~= spec_render_layout(filter));
    r
}

/// Whether two slot tables agree slot by slot.
pub fn same_layout(a: &Vec<BindingKind>, b: &Vec<BindingKind>) -> (r: bool)
    ensures
        r == (a@ == b@),
{
    if a.len() != b.len() {
        return false;
    }
    let mut i: usize = 0;
    while i < a.len()
        invariant
            i <= a@.len(),
            a@.len() == b@.len(),
            forall|k: int| 0 <= k < i ==> a@[k] == b@[k],
        decreases a@.len() - i,
    {
        if a[i] != b[i] {
            return false;
        }
        i = i + 1;
    }
    assert(a@ =~= b@);
    true
}

/// Builds a binding set for `layout` from `resources`; fails with
/// `BindingMismatch` exactly when a resource is missing, extra, or of the
/// wrong kind for its slot.
pub fn build_binding_set(layout: &Vec<BindingKind>, resources: &Vec<BoundResource>) -> (r: Result<BindingSet, PipelineError>)
    ensures
        r is Ok <==> resources_match(layout@, resources@),
        r matches Ok(s) ==> s.wf() && s.layout@ == layout@ && s.resources@ == resources@,
        r matches Err(e) ==> e == PipelineError::BindingMismatch,
{
    if resources.len() != layout.len() {
        return Err(PipelineError::BindingMismatch);
    }
    let mut i: usize = 0;
    while i < layout.len()
        invariant
            i <= layout@.len(),
            resources@.len() == layout@.len(),
            forall|k: int| 0 <= k < i ==> (#[trigger] resources@[k]).kind == layout@[k],
        decreases layout@.len() - i,
    {
        if resources[i].kind != layout[i] {
            return Err(PipelineError::BindingMismatch);
        }
        i = i + 1;
    }
    Ok(BindingSet { layout: layout.clone(), resources: resources.clone() })
}

} // verus!
