//! Compute kernels: a pipeline together with the pool and the descriptor sets
//! it is dispatched with.

use crate::driver::{
    in_use, next_generation, ComputePipeline, ComputePipelineView, DescriptorPool,
    DescriptorPoolView, DescriptorSet, DescriptorSetLayout, DescriptorSetLayoutView, Driver,
    Sampler, ShaderModule,
};
use crate::pso::{
    capacity, descriptor_range_desc, descriptor_set_layout_binding, lemma_capacity_push,
    lemma_required_push, provisioned, required, DescriptorRangeDesc, DescriptorSetLayoutBinding,
    DescriptorType, PushConstantRange, ShaderStage,
};
use crate::spirv::Shader;
use vstd::prelude::*;

verus! {

/// The names of the first `count` sets allocated in generation `generation`.
pub open spec fn set_names(generation: u64, count: nat) -> Seq<DescriptorSet> {
    Seq::new(count, |i: int| DescriptorSet { generation, index: i as usize })
}

/// `count` sets that all have the layout `bindings`.
pub open spec fn uniform_sets(
    bindings: Seq<DescriptorSetLayoutBinding>,
    count: nat,
) -> Seq<Seq<DescriptorSetLayoutBinding>> {
    Seq::new(count, |i: int| bindings)
}

/// What a kernel consists of.
pub struct ComputeView {
    pub desc_pool: DescriptorPoolView,
    pub desc_sets: Seq<DescriptorSet>,
    pub max_desc_sets: nat,
    pub pipeline: ComputePipelineView,
    pub set_layout: DescriptorSetLayoutView,
    pub samplers: Seq<Sampler>,
    pub shader: ShaderModule,
}

impl ComputeView {
    /// The kernel that construction from these parts yields: a fresh pool
    /// from which `max_desc_sets` sets of the one layout have been taken, in
    /// order.
    pub open spec fn new(
        name: Seq<char>,
        driver: Driver,
        shader: Shader,
        push_consts: Seq<PushConstantRange>,
        max_desc_sets: nat,
        desc_ranges: Seq<DescriptorRangeDesc>,
        bindings: Seq<DescriptorSetLayoutBinding>,
        samplers: Seq<Sampler>,
    ) -> ComputeView {
        ComputeView {
            desc_pool: DescriptorPoolView {
                max_sets: max_desc_sets,
                ranges: desc_ranges,
                generation: 0,
                live: uniform_sets(bindings, max_desc_sets),
            },
            desc_sets: set_names(0, max_desc_sets),
            max_desc_sets,
            pipeline: ComputePipelineView {
                name: driver.spec_label(name),
                shader,
                set_layout: bindings,
                push_consts,
            },
            set_layout: DescriptorSetLayoutView { name: driver.spec_label(name), bindings },
            samplers,
            shader: ShaderModule { shader },
        }
    }

    /// A vertex-attribute kernel that runs `shader`: every such kernel has
    /// the same push constants, ranges and layout.
    pub open spec fn calc_vertex_attrs(
        name: Seq<char>,
        driver: Driver,
        shader: Shader,
        max_desc_sets: nat,
    ) -> ComputeView {
        ComputeView::new(
            name,
            driver,
            shader,
            calc_vertex_attrs_push_consts(),
            max_desc_sets,
            calc_vertex_attrs_ranges(max_desc_sets),
            calc_vertex_attrs_bindings(),
            Seq::empty(),
        )
    }

    /// The pixel-decoding kernel.
    pub open spec fn decode_rgb_rgba(
        name: Seq<char>,
        driver: Driver,
        max_desc_sets: nat,
    ) -> ComputeView {
        ComputeView::new(
            name,
            driver,
            Shader::DecodeRgbRgba,
            decode_rgb_rgba_push_consts(),
            max_desc_sets,
            decode_rgb_rgba_ranges(max_desc_sets),
            decode_rgb_rgba_bindings(),
            Seq::empty(),
        )
    }

    /// The kernel after its pool was reset and its sets were allocated anew:
    /// as before, but for the generation of the pool and of every set.
    pub open spec fn reset(self) -> ComputeView {
        let generation = next_generation(self.desc_pool.generation);
        ComputeView {
            desc_pool: DescriptorPoolView { generation, ..self.desc_pool },
            desc_sets: set_names(generation, self.max_desc_sets),
            ..self
        }
    }

    /// The parts of a kernel belong together: the pool is full, its sets all
    /// have the kernel's layout and are the kernel's sets, the pipeline was
    /// made from that layout and from the kernel's shader, and the pool's
    /// ranges cover what the sets need.
    pub open spec fn wf(self) -> bool {
        &&& 1 <= self.max_desc_sets <= usize::MAX
        &&& self.desc_pool.max_sets == self.max_desc_sets
        &&& self.desc_pool.live == uniform_sets(self.set_layout.bindings, self.max_desc_sets)
        &&& self.desc_sets == set_names(self.desc_pool.generation, self.max_desc_sets)
        &&& self.pipeline.set_layout == self.set_layout.bindings
        &&& self.pipeline.shader == self.shader.shader
        &&& provisioned(self.desc_pool.ranges, self.set_layout.bindings, self.max_desc_sets)
    }
}

/// Sets of one layout hold, of each type, as many descriptors as one set needs
/// times their number.
pub proof fn lemma_in_use_uniform(
    bindings: Seq<DescriptorSetLayoutBinding>,
    count: nat,
    ty: DescriptorType,
)
    ensures
        in_use(uniform_sets(bindings, count), ty) == count * required(bindings, ty),
    decreases count,
{
    if count > 0 {
        let rest = (count - 1) as nat;
        lemma_in_use_uniform(bindings, rest, ty);
        assert(uniform_sets(bindings, count).drop_last() =~= uniform_sets(bindings, rest));
        assert(count * required(bindings, ty) == rest * required(bindings, ty) + required(
            bindings,
            ty,
        )) by (nonlinear_arith)
            requires
                count == rest + 1,
        ;
    }
}

/// A pool whose ranges cover `max_sets` sets of a layout, and which has
/// handed out fewer sets than that, all of this layout, has room for one more.
pub proof fn lemma_room_for_next(
    pool: DescriptorPoolView,
    bindings: Seq<DescriptorSetLayoutBinding>,
    count: nat,
)
    requires
        provisioned(pool.ranges, bindings, pool.max_sets),
        pool.live == uniform_sets(bindings, count),
        count < pool.max_sets,
    ensures
        pool.has_room(bindings),
        pool.allocate(bindings).live == uniform_sets(bindings, count + 1),
{
    assert forall|ty: DescriptorType|
        in_use(pool.live, ty) + required(bindings, ty) <= capacity(pool.ranges, ty) by {
        lemma_in_use_uniform(bindings, count, ty);
        let need = required(bindings, ty);
        assert(count * need + need <= pool.max_sets * need) by (nonlinear_arith)
            requires
                count + 1 <= pool.max_sets,
                need >= 0,
        ;
    }
    assert(pool.live.push(bindings) =~= uniform_sets(bindings, count + 1));
}

/// A read-only structured storage buffer.
pub open spec fn read_only_buffer() -> DescriptorType {
    DescriptorType::Buffer { read_only: true }
}

/// A structured storage buffer that the shader writes.
pub open spec fn read_write_buffer() -> DescriptorType {
    DescriptorType::Buffer { read_only: false }
}

/// A storage image that the shader only reads.
pub open spec fn read_only_image() -> DescriptorType {
    DescriptorType::Image { read_only: true }
}

/// A storage image that the shader writes.
pub open spec fn read_write_image() -> DescriptorType {
    DescriptorType::Image { read_only: false }
}

/// Push constants of the vertex-attribute kernels: eight bytes for the
/// compute stage.
pub open spec fn calc_vertex_attrs_push_consts() -> Seq<PushConstantRange> {
    seq![PushConstantRange { stage: ShaderStage::Compute, start: 0, end: 8 }]
}

/// Pool ranges of the vertex-attribute kernels: three read-only buffers and
/// one written buffer for each of the `max_desc_sets` sets.
pub open spec fn calc_vertex_attrs_ranges(max_desc_sets: nat) -> Seq<DescriptorRangeDesc> {
    seq![
        DescriptorRangeDesc { ty: read_only_buffer(), count: (3 * max_desc_sets) as usize },
        DescriptorRangeDesc { ty: read_write_buffer(), count: max_desc_sets as usize },
    ]
}

/// Layout of the vertex-attribute kernels: index buffer, source buffer,
/// destination buffer and write mask, in this order.
pub open spec fn calc_vertex_attrs_bindings() -> Seq<DescriptorSetLayoutBinding> {
    seq![
        DescriptorSetLayoutBinding {
            binding: 0,
            stage: ShaderStage::Compute,
            ty: read_only_buffer(),
        },
        DescriptorSetLayoutBinding {
            binding: 1,
            stage: ShaderStage::Compute,
            ty: read_only_buffer(),
        },
        DescriptorSetLayoutBinding {
            binding: 2,
            stage: ShaderStage::Compute,
            ty: read_write_buffer(),
        },
        DescriptorSetLayoutBinding {
            binding: 3,
            stage: ShaderStage::Compute,
            ty: read_only_buffer(),
        },
    ]
}

/// Push constants of the pixel-decoding kernel: four bytes for the compute
/// stage.
pub open spec fn decode_rgb_rgba_push_consts() -> Seq<PushConstantRange> {
    seq![PushConstantRange { stage: ShaderStage::Compute, start: 0, end: 4 }]
}

/// Pool ranges of the pixel-decoding kernel: one read-only buffer and one
/// written image for each of the `max_desc_sets` sets.
pub open spec fn decode_rgb_rgba_ranges(max_desc_sets: nat) -> Seq<DescriptorRangeDesc> {
    seq![
        DescriptorRangeDesc { ty: read_only_buffer(), count: max_desc_sets as usize },
        DescriptorRangeDesc { ty: read_write_image(), count: max_desc_sets as usize },
    ]
}

/// Layout of the pixel-decoding kernel: the packed source buffer, then the
/// destination image.
pub open spec fn decode_rgb_rgba_bindings() -> Seq<DescriptorSetLayoutBinding> {
    seq![
        DescriptorSetLayoutBinding {
            binding: 0,
            stage: ShaderStage::Compute,
            ty: read_only_buffer(),
        },
        DescriptorSetLayoutBinding {
            binding: 1,
            stage: ShaderStage::Compute,
            ty: read_write_image(),
        },
    ]
}

/// What one set of the vertex-attribute layout needs, and what the ranges
/// for `max_desc_sets` sets provide: three read-only buffers and one written
/// buffer per set, exactly, and nothing else.
pub proof fn lemma_calc_vertex_attrs_provisioned(max_desc_sets: nat)
    requires
        3 * max_desc_sets <= usize::MAX,
    ensures
        required(calc_vertex_attrs_bindings(), read_only_buffer()) == 3,
        required(calc_vertex_attrs_bindings(), read_write_buffer()) == 1,
        required(calc_vertex_attrs_bindings(), read_only_image()) == 0,
        required(calc_vertex_attrs_bindings(), read_write_image()) == 0,
        capacity(calc_vertex_attrs_ranges(max_desc_sets), read_only_buffer()) == 3
            * max_desc_sets,
        capacity(calc_vertex_attrs_ranges(max_desc_sets), read_write_buffer()) == max_desc_sets,
        provisioned(
            calc_vertex_attrs_ranges(max_desc_sets),
            calc_vertex_attrs_bindings(),
            max_desc_sets,
        ),
{
    let slots = calc_vertex_attrs_bindings();
    let none = Seq::<DescriptorSetLayoutBinding>::empty();
    lemma_required_push(none, slots[0]);
    lemma_required_push(none.push(slots[0]), slots[1]);
    lemma_required_push(none.push(slots[0]).push(slots[1]), slots[2]);
    lemma_required_push(none.push(slots[0]).push(slots[1]).push(slots[2]), slots[3]);
    assert(slots =~= none.push(slots[0]).push(slots[1]).push(slots[2]).push(slots[3]));
    let ranges = calc_vertex_attrs_ranges(max_desc_sets);
    let bare = Seq::<DescriptorRangeDesc>::empty();
    lemma_capacity_push(bare, ranges[0]);
    lemma_capacity_push(bare.push(ranges[0]), ranges[1]);
    assert(ranges =~= bare.push(ranges[0]).push(ranges[1]));
    assert forall|ty: DescriptorType|
        #![trigger capacity(ranges, ty)]
        capacity(ranges, ty) >= max_desc_sets * required(slots, ty) by {
        assert(max_desc_sets * 0 == 0 && max_desc_sets * 1 == max_desc_sets && max_desc_sets * 3
            == 3 * max_desc_sets) by (nonlinear_arith);
    }
}

/// What one set of the pixel-decoding layout needs, and what the ranges for
/// `max_desc_sets` sets provide: one read-only buffer and one written image
/// per set, exactly.
pub proof fn lemma_decode_rgb_rgba_provisioned(max_desc_sets: nat)
    requires
        max_desc_sets <= usize::MAX,
    ensures
        required(decode_rgb_rgba_bindings(), read_only_buffer()) == 1,
        required(decode_rgb_rgba_bindings(), read_write_image()) == 1,
        required(decode_rgb_rgba_bindings(), read_write_buffer()) == 0,
        required(decode_rgb_rgba_bindings(), read_only_image()) == 0,
        capacity(decode_rgb_rgba_ranges(max_desc_sets), read_only_buffer()) == max_desc_sets,
        capacity(decode_rgb_rgba_ranges(max_desc_sets), read_write_image()) == max_desc_sets,
        provisioned(
            decode_rgb_rgba_ranges(max_desc_sets),
            decode_rgb_rgba_bindings(),
            max_desc_sets,
        ),
{
    let slots = decode_rgb_rgba_bindings();
    let none = Seq::<DescriptorSetLayoutBinding>::empty();
    lemma_required_push(none, slots[0]);
    lemma_required_push(none.push(slots[0]), slots[1]);
    assert(slots =~= none.push(slots[0]).push(slots[1]));
    let ranges = decode_rgb_rgba_ranges(max_desc_sets);
    let bare = Seq::<DescriptorRangeDesc>::empty();
    lemma_capacity_push(bare, ranges[0]);
    lemma_capacity_push(bare.push(ranges[0]), ranges[1]);
    assert(ranges =~= bare.push(ranges[0]).push(ranges[1]));
    assert forall|ty: DescriptorType|
        #![trigger capacity(ranges, ty)]
        capacity(ranges, ty) >= max_desc_sets * required(slots, ty) by {
        assert(max_desc_sets * 0 == 0 && max_desc_sets * 1 == max_desc_sets) by (nonlinear_arith);
    }
}

/// A compute kernel: one pipeline with its shader and layout, the pool sized
/// for it, and the sets allocated from that pool.
pub struct Compute {
    desc_pool: DescriptorPool,
    desc_sets: Vec<DescriptorSet>,
    max_desc_sets: usize,
    pipeline: ComputePipeline,
    set_layout: DescriptorSetLayout,
    samplers: Vec<Sampler>,
    shader: ShaderModule,
}

impl View for Compute {
    type V = ComputeView;

    closed spec fn view(&self) -> ComputeView {
        ComputeView {
            desc_pool: self.desc_pool@,
            desc_sets: self.desc_sets@,
            max_desc_sets: self.max_desc_sets as nat,
            pipeline: self.pipeline@,
            set_layout: self.set_layout@,
            samplers: self.samplers@,
            shader: self.shader,
        }
    }
}

impl Compute {
    /// The pool and the layout keep their own accounts in order.
    pub closed spec fn inv(&self) -> bool {
        self.desc_pool.wf() && self.set_layout.wf()
    }

    /// The kernel is in order: its parts keep their accounts, and they belong
    /// together.
    pub open spec fn wf(&self) -> bool {
        self.inv() && self@.wf()
    }

    /// Builds a kernel from its parts: the shader module, the layout with
    /// `bindings`, the pipeline over both with `push_consts`, a pool for
    /// `max_desc_sets` sets with `desc_ranges`, and then every set the pool
    /// can hold. The ranges must cover that many sets, so that no allocation
    /// can fail for want of room.
    pub fn new(
        name: &str,
        driver: &Driver,
        shader: Shader,
        push_consts: Vec<PushConstantRange>,
        max_desc_sets: usize,
        desc_ranges: Vec<DescriptorRangeDesc>,
        bindings: Vec<DescriptorSetLayoutBinding>,
        samplers: Vec<Sampler>,
    ) -> (kernel: Compute)
        requires
            max_desc_sets >= 1,
            provisioned(desc_ranges@, bindings@, max_desc_sets as nat),
        ensures
            kernel.wf(),
            kernel@ == ComputeView::new(
                name@,
                *driver,
                shader,
                push_consts@,
                max_desc_sets as nat,
                desc_ranges@,
                bindings@,
                samplers@,
            ),
    {
        let ghost slots = bindings@;
        let ghost ranges = desc_ranges@;
        let shader = ShaderModule::new(shader);
        let set_layout = DescriptorSetLayout::new(name, driver, bindings);
        let pipeline = ComputePipeline::new(name, driver, &shader, &set_layout, push_consts);
        let mut desc_pool = DescriptorPool::new(max_desc_sets, desc_ranges);
        let mut desc_sets: Vec<DescriptorSet> = Vec::new();
        assert(desc_pool@.live =~= uniform_sets(slots, 0));
        let mut i: usize = 0;
        while i < max_desc_sets
            invariant
                i <= max_desc_sets,
                desc_pool.wf(),
                set_layout.wf(),
                set_layout@.bindings == slots,
                provisioned(ranges, slots, max_desc_sets as nat),
                desc_pool@ == (DescriptorPoolView {
                    max_sets: max_desc_sets as nat,
                    ranges,
                    generation: 0,
                    live: uniform_sets(slots, i as nat),
                }),
                desc_sets@ == set_names(0, i as nat),
            decreases max_desc_sets - i,
        {
            proof {
                lemma_room_for_next(desc_pool@, slots, i as nat);
            }
            let set = desc_pool.allocate_set(&set_layout).unwrap();
            desc_sets.push(set);
            assert(desc_sets@ =~= set_names(0, (i + 1) as nat));
            i = i + 1;
        }
        Compute { desc_pool, desc_sets, max_desc_sets, pipeline, set_layout, samplers, shader }
    }

    /// The layout and ranges shared by the vertex-attribute kernels, around
    /// the program `shader`.
    fn calc_vertex_attrs(name: &str, driver: &Driver, shader: Shader, max_desc_sets: usize) -> (kernel:
        Compute)
        requires
            max_desc_sets >= 1,
            3 * max_desc_sets <= usize::MAX,
        ensures
            kernel.wf(),
            kernel@ == ComputeView::calc_vertex_attrs(
                name@,
                *driver,
                shader,
                max_desc_sets as nat,
            ),
    {
        let read_only = DescriptorType::Buffer { read_only: true };
        let read_write = DescriptorType::Buffer { read_only: false };
        let mut push_consts: Vec<PushConstantRange> = Vec::new();
        push_consts.push(PushConstantRange { stage: ShaderStage::Compute, start: 0, end: 8 });
        let mut desc_ranges: Vec<DescriptorRangeDesc> = Vec::new();
        desc_ranges.push(descriptor_range_desc(3 * max_desc_sets, read_only));
        desc_ranges.push(descriptor_range_desc(max_desc_sets, read_write));
        let mut bindings: Vec<DescriptorSetLayoutBinding> = Vec::new();
        bindings.push(descriptor_set_layout_binding(0, ShaderStage::Compute, read_only));  // idx_buf
        bindings.push(descriptor_set_layout_binding(1, ShaderStage::Compute, read_only));  // src_buf
        bindings.push(descriptor_set_layout_binding(2, ShaderStage::Compute, read_write));  // dst_buf
        bindings.push(descriptor_set_layout_binding(3, ShaderStage::Compute, read_only));  // write_mask
        proof {
            assert(push_consts@ =~= calc_vertex_attrs_push_consts());
            assert(desc_ranges@ =~= calc_vertex_attrs_ranges(max_desc_sets as nat));
            assert(bindings@ =~= calc_vertex_attrs_bindings());
            lemma_calc_vertex_attrs_provisioned(max_desc_sets as nat);
        }
        Compute::new(
            name,
            driver,
            shader,
            push_consts,
            max_desc_sets,
            desc_ranges,
            bindings,
            Vec::new(),
        )
    }

    /// The kernel that computes vertex attributes from 16-bit indices.
    pub fn calc_vertex_attrs_u16(name: &str, driver: &Driver, max_desc_sets: usize) -> (kernel:
        Compute)
        requires
            max_desc_sets >= 1,
            3 * max_desc_sets <= usize::MAX,
        ensures
            kernel.wf(),
            kernel@ == ComputeView::calc_vertex_attrs(
                name@,
                *driver,
                Shader::CalcVertexAttrsU16,
                max_desc_sets as nat,
            ),
    {
        Self::calc_vertex_attrs(name, driver, Shader::CalcVertexAttrsU16, max_desc_sets)
    }

    /// The kernel that computes vertex attributes from 16-bit indices and
    /// blends bone weights.
    pub fn calc_vertex_attrs_u16_skin(name: &str, driver: &Driver, max_desc_sets: usize) -> (kernel:
        Compute)
        requires
            max_desc_sets >= 1,
            3 * max_desc_sets <= usize::MAX,
        ensures
            kernel.wf(),
            kernel@ == ComputeView::calc_vertex_attrs(
                name@,
                *driver,
                Shader::CalcVertexAttrsU16Skin,
                max_desc_sets as nat,
            ),
    {
        Self::calc_vertex_attrs(name, driver, Shader::CalcVertexAttrsU16Skin, max_desc_sets)
    }

    /// The kernel that computes vertex attributes from 32-bit indices.
    pub fn calc_vertex_attrs_u32(name: &str, driver: &Driver, max_desc_sets: usize) -> (kernel:
        Compute)
        requires
            max_desc_sets >= 1,
            3 * max_desc_sets <= usize::MAX,
        ensures
            kernel.wf(),
            kernel@ == ComputeView::calc_vertex_attrs(
                name@,
                *driver,
                Shader::CalcVertexAttrsU32,
                max_desc_sets as nat,
            ),
    {
        Self::calc_vertex_attrs(name, driver, Shader::CalcVertexAttrsU32, max_desc_sets)
    }

    /// The kernel that computes vertex attributes from 32-bit indices and
    /// blends bone weights.
    pub fn calc_vertex_attrs_u32_skin(name: &str, driver: &Driver, max_desc_sets: usize) -> (kernel:
        Compute)
        requires
            max_desc_sets >= 1,
            3 * max_desc_sets <= usize::MAX,
        ensures
            kernel.wf(),
            kernel@ == ComputeView::calc_vertex_attrs(
                name@,
                *driver,
                Shader::CalcVertexAttrsU32Skin,
                max_desc_sets as nat,
            ),
    {
        Self::calc_vertex_attrs(name, driver, Shader::CalcVertexAttrsU32Skin, max_desc_sets)
    }

    /// The kernel that expands packed RGB pixels from a buffer into an RGBA
    /// image.
    pub fn decode_rgb_rgba(name: &str, driver: &Driver, max_desc_sets: usize) -> (kernel: Compute)
        requires
            max_desc_sets >= 1,
        ensures
            kernel.wf(),
            kernel@ == ComputeView::decode_rgb_rgba(name@, *driver, max_desc_sets as nat),
    {
        let source = DescriptorType::Buffer { read_only: true };
        let destination = DescriptorType::Image { read_only: false };
        let mut push_consts: Vec<PushConstantRange> = Vec::new();
        push_consts.push(PushConstantRange { stage: ShaderStage::Compute, start: 0, end: 4 });
        let mut desc_ranges: Vec<DescriptorRangeDesc> = Vec::new();
        desc_ranges.push(descriptor_range_desc(max_desc_sets, source));
        desc_ranges.push(descriptor_range_desc(max_desc_sets, destination));
        let mut bindings: Vec<DescriptorSetLayoutBinding> = Vec::new();
        bindings.push(descriptor_set_layout_binding(0, ShaderStage::Compute, source));
        bindings.push(descriptor_set_layout_binding(1, ShaderStage::Compute, destination));
        proof {
            assert(push_consts@ =~= decode_rgb_rgba_push_consts());
            assert(desc_ranges@ =~= decode_rgb_rgba_ranges(max_desc_sets as nat));
            assert(bindings@ =~= decode_rgb_rgba_bindings());
            lemma_decode_rgb_rgba_provisioned(max_desc_sets as nat);
        }
        Compute::new(
            name,
            driver,
            Shader::DecodeRgbRgba,
            push_consts,
            max_desc_sets,
            desc_ranges,
            bindings,
            Vec::new(),
        )
    }

    /// The number of descriptor sets the kernel holds.
    pub fn max_desc_sets(&self) -> (n: usize)
        ensures
            n == self@.max_desc_sets,
    {
        self.max_desc_sets
    }

    /// The pipeline, for binding into a command stream.
    pub fn pipeline(&self) -> (pipeline: &ComputePipeline)
        ensures
            pipeline@ == self@.pipeline,
    {
        &self.pipeline
    }

    /// The layout that the pipeline and every set of the kernel share.
    pub fn set_layout(&self) -> (layout: &DescriptorSetLayout)
        ensures
            layout@ == self@.set_layout,
    {
        &self.set_layout
    }

    /// The pool the kernel's sets are carved from.
    pub fn desc_pool(&self) -> (pool: &DescriptorPool)
        ensures
            pool@ == self@.desc_pool,
            self.wf() ==> pool.wf(),
    {
        &self.desc_pool
    }

    /// The shader module behind the pipeline.
    pub fn shader(&self) -> (shader: &ShaderModule)
        ensures
            *shader == self@.shader,
    {
        &self.shader
    }

    /// The samplers the kernel owns.
    pub fn samplers(&self) -> (samplers: &Vec<Sampler>)
        ensures
            samplers@ == self@.samplers,
    {
        &self.samplers
    }

    /// Takes all descriptor sets back and allocates them anew, in place. No
    /// work that uses a set of this kernel may be pending on the device;
    /// every name obtained from `desc_set` before the call is stale after it.
    pub fn reset(&mut self)
        requires
            old(self).wf(),
        ensures
            final(self).wf(),
            final(self)@ == old(self)@.reset(),
    {
        let ghost before = self@;
        let ghost generation = next_generation(before.desc_pool.generation);
        self.desc_pool.reset();
        assert(self.desc_pool@.live =~= uniform_sets(before.set_layout.bindings, 0));
        let mut i: usize = 0;
        while i < self.desc_sets.len()
            invariant
                before.wf(),
                i <= self.max_desc_sets,
                self.desc_sets.len() == self.max_desc_sets,
                self.max_desc_sets == before.max_desc_sets,
                self.desc_pool.wf(),
                self.set_layout.wf(),
                self.set_layout@ == before.set_layout,
                self.pipeline@ == before.pipeline,
                self.samplers@ == before.samplers,
                self.shader == before.shader,
                self.desc_pool@ == (DescriptorPoolView {
                    generation,
                    live: uniform_sets(before.set_layout.bindings, i as nat),
                    ..before.desc_pool
                }),
                forall|j: int|
                    0 <= j < i ==> self.desc_sets@[j] == (DescriptorSet {
                        generation,
                        index: j as usize,
                    }),
            decreases self.max_desc_sets - i,
        {
            proof {
                lemma_room_for_next(self.desc_pool@, before.set_layout.bindings, i as nat);
            }
            let set = self.desc_pool.allocate_set(&self.set_layout).unwrap();
            self.desc_sets[i] = set;
            i = i + 1;
        }
        assert(self.desc_sets@ =~= set_names(generation, before.max_desc_sets));
    }

    /// The descriptor set at `idx`, which must lie below `max_desc_sets`.
    pub fn desc_set(&self, idx: usize) -> (set: &DescriptorSet)
        requires
            self.wf(),
            idx < self@.max_desc_sets,
        ensures
            *set == self@.desc_sets[idx as int],
            *set == (DescriptorSet { generation: self@.desc_pool.generation, index: idx }),
            self@.desc_pool.is_live(*set),
    {
        &self.desc_sets[idx]
    }
}

} // verus!
