//! Plain descriptions of pipeline state: descriptor types, pool ranges,
//! layout bindings and push-constant ranges.

use crate::counts::DescriptorCounts;
use vstd::prelude::*;

verus! {

/// A pipeline stage that may read a binding or a push-constant range.
#[derive(Clone, Copy, Debug, PartialEq, Eq, Structural)]
pub enum ShaderStage {
    Vertex,
    Hull,
    Domain,
    Geometry,
    Fragment,
    Compute,
    Task,
    Mesh,
}

/// What a descriptor refers to, and whether the shader may write through it.
#[derive(Clone, Copy, Debug, PartialEq, Eq, Structural)]
pub enum DescriptorType {
    /// A structured storage buffer without a dynamic offset.
    Buffer { read_only: bool },
    /// A storage image.
    Image { read_only: bool },
}

/// Room for `count` descriptors of one type inside a descriptor pool.
#[derive(Clone, Copy, Debug, PartialEq, Eq, Structural)]
pub struct DescriptorRangeDesc {
    pub ty: DescriptorType,
    pub count: usize,
}

/// One binding slot of a descriptor-set layout. Every slot holds exactly one
/// descriptor.
#[derive(Clone, Copy, Debug, PartialEq, Eq, Structural)]
pub struct DescriptorSetLayoutBinding {
    pub binding: u32,
    pub stage: ShaderStage,
    pub ty: DescriptorType,
}

/// The bytes `start..end` of push-constant memory, visible to one stage.
#[derive(Clone, Copy, Debug, PartialEq, Eq, Structural)]
pub struct PushConstantRange {
    pub stage: ShaderStage,
    pub start: u32,
    pub end: u32,
}

impl PushConstantRange {
    /// Number of bytes in the range; zero when `end` does not exceed `start`.
    pub open spec fn spec_size(self) -> nat {
        if self.start <= self.end {
            (self.end - self.start) as nat
        } else {
            0
        }
    }

    /// Number of bytes in the range.
    pub fn size(&self) -> (n: u32)
        ensures
            n == self.spec_size(),
    {
        if self.start <= self.end {
            self.end - self.start
        } else {
            0
        }
    }
}

/// Builds a pool range of `count` descriptors of type `ty`.
pub fn descriptor_range_desc(count: usize, ty: DescriptorType) -> (range: DescriptorRangeDesc)
    ensures
        range == (DescriptorRangeDesc { ty, count }),
{
    DescriptorRangeDesc { ty, count }
}

/// Builds the layout binding at slot `binding`.
pub fn descriptor_set_layout_binding(
    binding: u32,
    stage: ShaderStage,
    ty: DescriptorType,
) -> (slot: DescriptorSetLayoutBinding)
    ensures
        slot == (DescriptorSetLayoutBinding { binding, stage, ty }),
{
    DescriptorSetLayoutBinding { binding, stage, ty }
}

/// How many descriptors of type `ty` one set of the layout `bindings` needs.
pub open spec fn required(bindings: Seq<DescriptorSetLayoutBinding>, ty: DescriptorType) -> nat
    decreases bindings.len(),
{
    if bindings.len() == 0 {
        0
    } else {
        required(bindings.drop_last(), ty) + if bindings.last().ty == ty {
            1nat
        } else {
            0nat
        }
    }
}

/// How many descriptors of type `ty` the pool ranges `ranges` provide in all.
pub open spec fn capacity(ranges: Seq<DescriptorRangeDesc>, ty: DescriptorType) -> nat
    decreases ranges.len(),
{
    if ranges.len() == 0 {
        0
    } else {
        capacity(ranges.drop_last(), ty) + if ranges.last().ty == ty {
            ranges.last().count as nat
        } else {
            0nat
        }
    }
}

/// The ranges leave no descriptor type short when `sets` sets of the layout
/// `bindings` are allocated.
pub open spec fn provisioned(
    ranges: Seq<DescriptorRangeDesc>,
    bindings: Seq<DescriptorSetLayoutBinding>,
    sets: nat,
) -> bool {
    forall|ty: DescriptorType|
        #![trigger capacity(ranges, ty)]
        #![trigger required(bindings, ty)]
        capacity(ranges, ty) >= sets * required(bindings, ty)
}

/// Decides `provisioned` for the given ranges, layout and number of sets.
pub fn is_provisioned(
    ranges: &Vec<DescriptorRangeDesc>,
    bindings: &Vec<DescriptorSetLayoutBinding>,
    sets: usize,
) -> (ok: bool)
    ensures
        ok == provisioned(ranges@, bindings@, sets as nat),
{
    let provided = DescriptorCounts::of_ranges(ranges);
    let per_set = DescriptorCounts::of_bindings(bindings);
    let ok = provided.covers(&per_set, sets);
    proof {
        if ok {
            assert forall|ty: DescriptorType|
                #![trigger capacity(ranges@, ty)]
                #![trigger required(bindings@, ty)]
                capacity(ranges@, ty) >= sets * required(bindings@, ty) by {
                assert(provided.get(ty) >= sets * per_set.get(ty));
            }
        } else {
            let ty = choose|ty: DescriptorType| provided.get(ty) < sets * per_set.get(ty);
            assert(capacity(ranges@, ty) < sets * required(bindings@, ty));
        }
    }
    ok
}

/// Adding a binding to a layout adds one descriptor of its type to what a set
/// needs, and nothing of any other type.
pub proof fn lemma_required_push(
    bindings: Seq<DescriptorSetLayoutBinding>,
    slot: DescriptorSetLayoutBinding,
)
    ensures
        forall|ty: DescriptorType|
            #![trigger required(bindings.push(slot), ty)]
            required(bindings.push(slot), ty) == required(bindings, ty) + if slot.ty == ty {
                1nat
            } else {
                0nat
            },
{
    assert(bindings.push(slot).drop_last() =~= bindings);
}

/// Adding a range to a pool adds its count to the capacity of its type, and
/// nothing to any other type.
pub proof fn lemma_capacity_push(ranges: Seq<DescriptorRangeDesc>, range: DescriptorRangeDesc)
    ensures
        forall|ty: DescriptorType|
            #![trigger capacity(ranges.push(range), ty)]
            capacity(ranges.push(range), ty) == capacity(ranges, ty) + if range.ty == ty {
                range.count as nat
            } else {
                0nat
            },
{
    assert(ranges.push(range).drop_last() =~= ranges);
}

} // verus!
