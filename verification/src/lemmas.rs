//! What holds of every kernel, stated over the kernels' views.

use crate::compute::{
    calc_vertex_attrs_bindings, calc_vertex_attrs_push_consts,
    lemma_calc_vertex_attrs_provisioned, lemma_decode_rgb_rgba_provisioned, lemma_in_use_uniform,
    read_only_buffer, read_write_buffer, read_write_image, ComputeView,
};
use crate::driver::{in_use, next_generation, ComputePipelineView, Driver, Sampler, ShaderModule};
use crate::pso::{
    capacity, provisioned, required, DescriptorRangeDesc, DescriptorSetLayoutBinding,
    DescriptorType, PushConstantRange, ShaderStage,
};
use crate::spirv::Shader;
use vstd::prelude::*;

verus! {

/// Construction from parts whose ranges cover `max_desc_sets` sets, with at
/// least one set, yields a kernel whose parts belong together.
pub proof fn lemma_new_wf(
    name: Seq<char>,
    driver: Driver,
    shader: Shader,
    push_consts: Seq<PushConstantRange>,
    max_desc_sets: nat,
    desc_ranges: Seq<DescriptorRangeDesc>,
    bindings: Seq<DescriptorSetLayoutBinding>,
    samplers: Seq<Sampler>,
)
    requires
        1 <= max_desc_sets <= usize::MAX,
        provisioned(desc_ranges, bindings, max_desc_sets),
    ensures
        ComputeView::new(
            name,
            driver,
            shader,
            push_consts,
            max_desc_sets,
            desc_ranges,
            bindings,
            samplers,
        ).wf(),
{
}

/// A kernel holds exactly `max_desc_sets` descriptor sets. Each is a live set
/// of the kernel's pool, the set at index `i` is the `i`-th of its
/// generation, and no two of them are the same set.
pub proof fn lemma_desc_sets_distinct(kernel: ComputeView)
    requires
        kernel.wf(),
    ensures
        kernel.desc_sets.len() == kernel.max_desc_sets,
        forall|i: int|
            0 <= i < kernel.max_desc_sets ==> kernel.desc_pool.is_live(
                #[trigger] kernel.desc_sets[i],
            ) && kernel.desc_sets[i].index == i,
        forall|i: int, j: int|
            0 <= i < j < kernel.max_desc_sets ==> #[trigger] kernel.desc_sets[i]
                != #[trigger] kernel.desc_sets[j],
{
}

/// The pool of a kernel is exactly full, and holds of every descriptor type
/// no more than its ranges provide.
pub proof fn lemma_pool_within_limits(kernel: ComputeView)
    requires
        kernel.wf(),
    ensures
        kernel.desc_pool.wf(),
        kernel.desc_pool.live.len() == kernel.desc_pool.max_sets,
        forall|ty: DescriptorType|
            #![trigger in_use(kernel.desc_pool.live, ty)]
            in_use(kernel.desc_pool.live, ty) == kernel.max_desc_sets * required(
                kernel.set_layout.bindings,
                ty,
            ),
        forall|ty: DescriptorType|
            #![trigger capacity(kernel.desc_pool.ranges, ty)]
            capacity(kernel.desc_pool.ranges, ty) >= kernel.max_desc_sets * required(
                kernel.set_layout.bindings,
                ty,
            ),
{
    assert forall|ty: DescriptorType|
        #![trigger in_use(kernel.desc_pool.live, ty)]
        in_use(kernel.desc_pool.live, ty) == kernel.max_desc_sets * required(
            kernel.set_layout.bindings,
            ty,
        ) && in_use(kernel.desc_pool.live, ty) <= capacity(kernel.desc_pool.ranges, ty) by {
        lemma_in_use_uniform(kernel.set_layout.bindings, kernel.max_desc_sets, ty);
    }
}

/// A reset keeps a kernel in order and changes neither its capacity nor the
/// indices at which it holds a set: only the generation moves on. Every set
/// the kernel held before the reset is stale after it, and differs from every
/// set the kernel holds now.
pub proof fn lemma_reset_keeps_shape(kernel: ComputeView)
    requires
        kernel.wf(),
    ensures
        kernel.reset().wf(),
        kernel.reset().max_desc_sets == kernel.max_desc_sets,
        kernel.reset().desc_sets.len() == kernel.desc_sets.len(),
        kernel.reset().set_layout == kernel.set_layout,
        kernel.reset().pipeline == kernel.pipeline,
        kernel.reset().shader == kernel.shader,
        kernel.reset().samplers == kernel.samplers,
        kernel.reset().desc_pool.ranges == kernel.desc_pool.ranges,
        forall|i: int|
            0 <= i < kernel.max_desc_sets ==> kernel.reset().desc_pool.is_live(
                #[trigger] kernel.reset().desc_sets[i],
            ),
        forall|j: int|
            0 <= j < kernel.max_desc_sets ==> !kernel.reset().desc_pool.is_live(
                #[trigger] kernel.desc_sets[j],
            ),
        forall|i: int, j: int|
            0 <= i < kernel.max_desc_sets && 0 <= j < kernel.max_desc_sets
                ==> #[trigger] kernel.reset().desc_sets[i] != #[trigger] kernel.desc_sets[j],
{
}

/// A second reset right after a first leaves the capacity and the number of
/// sets as the first left them; the two kernels differ in their generation
/// alone.
pub proof fn lemma_reset_twice(kernel: ComputeView)
    requires
        kernel.wf(),
    ensures
        kernel.reset().reset().max_desc_sets == kernel.reset().max_desc_sets,
        kernel.reset().reset().desc_sets.len() == kernel.reset().desc_sets.len(),
        kernel.reset().reset().wf(),
        kernel.reset().reset() == (ComputeView {
            desc_pool: kernel.reset().reset().desc_pool,
            desc_sets: kernel.reset().reset().desc_sets,
            ..kernel.reset()
        }),
        kernel.reset().reset().desc_pool.generation == next_generation(
            kernel.reset().desc_pool.generation,
        ),
{
}

/// Each vertex-attribute kernel provides, for every descriptor type, at
/// least what its sets need: three read-only buffers and one written buffer
/// for each set.
pub proof fn lemma_calc_vertex_attrs_capacities(
    name: Seq<char>,
    driver: Driver,
    shader: Shader,
    max_desc_sets: nat,
)
    requires
        1 <= max_desc_sets,
        3 * max_desc_sets <= usize::MAX,
    ensures
        ({
            let kernel = ComputeView::calc_vertex_attrs(name, driver, shader, max_desc_sets);
            &&& kernel.wf()
            &&& capacity(kernel.desc_pool.ranges, read_only_buffer()) == 3 * max_desc_sets
            &&& capacity(kernel.desc_pool.ranges, read_write_buffer())
                == max_desc_sets
            &&& forall|ty: DescriptorType|
                #![trigger capacity(kernel.desc_pool.ranges, ty)]
                capacity(kernel.desc_pool.ranges, ty) >= max_desc_sets * required(
                    kernel.set_layout.bindings,
                    ty,
                )
        }),
{
    lemma_calc_vertex_attrs_provisioned(max_desc_sets);
}

/// The pixel-decoding kernel provides, for every descriptor type, at least
/// what its sets need: one read-only buffer and one written image for each
/// set.
pub proof fn lemma_decode_rgb_rgba_capacities(name: Seq<char>, driver: Driver, max_desc_sets: nat)
    requires
        1 <= max_desc_sets <= usize::MAX,
    ensures
        ({
            let kernel = ComputeView::decode_rgb_rgba(name, driver, max_desc_sets);
            &&& kernel.wf()
            &&& capacity(kernel.desc_pool.ranges, read_only_buffer()) == max_desc_sets
            &&& capacity(kernel.desc_pool.ranges, read_write_image()) == max_desc_sets
            &&& forall|ty: DescriptorType|
                #![trigger capacity(kernel.desc_pool.ranges, ty)]
                capacity(kernel.desc_pool.ranges, ty) >= max_desc_sets * required(
                    kernel.set_layout.bindings,
                    ty,
                )
        }),
{
    lemma_decode_rgb_rgba_provisioned(max_desc_sets);
}

/// Two vertex-attribute kernels have the same layout and the same push
/// constants, whatever their programs, names, devices and capacities. Made
/// alike in all but the program, they differ in the program alone.
pub proof fn lemma_calc_vertex_attrs_same_layout(
    name_a: Seq<char>,
    driver_a: Driver,
    shader_a: Shader,
    max_desc_sets_a: nat,
    name_b: Seq<char>,
    driver_b: Driver,
    shader_b: Shader,
    max_desc_sets_b: nat,
)
    ensures
        ({
            let a = ComputeView::calc_vertex_attrs(name_a, driver_a, shader_a, max_desc_sets_a);
            let b = ComputeView::calc_vertex_attrs(name_b, driver_b, shader_b, max_desc_sets_b);
            &&& a.set_layout.bindings == b.set_layout.bindings
            &&& a.set_layout.bindings == calc_vertex_attrs_bindings()
            &&& a.pipeline.set_layout == b.pipeline.set_layout
            &&& a.pipeline.push_consts == b.pipeline.push_consts
            &&& a.pipeline.push_consts == calc_vertex_attrs_push_consts()
            &&& a.samplers == b.samplers
            &&& name_a == name_b && driver_a == driver_b && max_desc_sets_a == max_desc_sets_b
                ==> a == (ComputeView {
                pipeline: ComputePipelineView { shader: shader_a, ..b.pipeline },
                shader: ShaderModule { shader: shader_a },
                ..b
            })
        }),
{
}

/// The layout of the pixel-decoding kernel has two bindings whatever the
/// capacity: a read-only buffer at slot 0 and a written image at slot 1, both
/// for the compute stage.
pub proof fn lemma_decode_rgb_rgba_layout(name: Seq<char>, driver: Driver, max_desc_sets: nat)
    ensures
        ({
            let kernel = ComputeView::decode_rgb_rgba(name, driver, max_desc_sets);
            &&& kernel.set_layout.bindings.len() == 2
            &&& kernel.set_layout.bindings[0] == (DescriptorSetLayoutBinding {
                binding: 0,
                stage: ShaderStage::Compute,
                ty: DescriptorType::Buffer { read_only: true },
            })
            &&& kernel.set_layout.bindings[1] == (DescriptorSetLayoutBinding {
                binding: 1,
                stage: ShaderStage::Compute,
                ty: DescriptorType::Image { read_only: false },
            })
            &&& kernel.pipeline.set_layout == kernel.set_layout.bindings
        }),
{
}

} // verus!
