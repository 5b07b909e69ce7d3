//! The device objects a kernel owns, as far as the bookkeeping needs to know
//! them: what each was created from, and which descriptor sets a pool has
//! handed out since it was last reset.

use crate::counts::DescriptorCounts;
use crate::pso::{
    capacity, required, DescriptorRangeDesc, DescriptorSetLayoutBinding, DescriptorType,
    PushConstantRange,
};
use crate::spirv::Shader;
use vstd::prelude::*;

verus! {

/// The device a kernel is created on, with its labelling policy.
#[derive(Clone, Copy, Debug, PartialEq, Eq, Structural)]
pub struct Driver {
    /// Whether objects created through this handle carry their debug names.
    pub debug_labels: bool,
}

impl Driver {
    /// A device handle that keeps debug labels exactly when `debug_labels`
    /// is set.
    pub fn new(debug_labels: bool) -> (driver: Driver)
        ensures
            driver.debug_labels == debug_labels,
    {
        Driver { debug_labels }
    }

    /// The label an object named `name` carries on this device.
    pub open spec fn spec_label(self, name: Seq<char>) -> Option<Seq<char>> {
        if self.debug_labels {
            Some(name)
        } else {
            None
        }
    }

    /// The label an object named `name` carries on this device: the name
    /// itself where labels are enabled, nothing otherwise.
    pub fn label(&self, name: &str) -> (label: Option<String>)
        ensures
            label_view(label) == self.spec_label(name@),
    {
        if self.debug_labels {
            Some(name.to_owned())
        } else {
            None
        }
    }
}

/// The characters of an optional label.
pub open spec fn label_view(label: Option<String>) -> Option<Seq<char>> {
    match label {
        Some(s) => Some(s@),
        None => None,
    }
}

/// Names a sampler that the embedding program has built on the device.
#[derive(Clone, Copy, Debug, PartialEq, Eq, Structural)]
pub struct Sampler {
    pub id: u64,
}

/// A shader module: one compute program loaded onto the device.
#[derive(Clone, Copy, Debug, PartialEq, Eq, Structural)]
pub struct ShaderModule {
    pub shader: Shader,
}

impl ShaderModule {
    /// The module that holds the program `shader`.
    pub fn new(shader: Shader) -> (module: ShaderModule)
        ensures
            module.shader == shader,
    {
        ShaderModule { shader }
    }
}

/// Names one descriptor set of a pool: the `index`-th set allocated after the
/// pool's `generation`-th reset.
#[derive(Clone, Copy, Debug, PartialEq, Eq, Structural)]
pub struct DescriptorSet {
    pub generation: u64,
    pub index: usize,
}

/// What a descriptor-set layout is, apart from how its counts are cached.
pub struct DescriptorSetLayoutView {
    pub name: Option<Seq<char>>,
    pub bindings: Seq<DescriptorSetLayoutBinding>,
}

/// A descriptor-set layout: the schema every set allocated against it obeys.
pub struct DescriptorSetLayout {
    name: Option<String>,
    bindings: Vec<DescriptorSetLayoutBinding>,
    counts: DescriptorCounts,
}

impl View for DescriptorSetLayout {
    type V = DescriptorSetLayoutView;

    closed spec fn view(&self) -> DescriptorSetLayoutView {
        DescriptorSetLayoutView { name: label_view(self.name), bindings: self.bindings@ }
    }
}

impl DescriptorSetLayout {
    /// The cached counts agree with the bindings.
    pub closed spec fn wf(&self) -> bool {
        forall|ty: DescriptorType|
            #![trigger self.counts.get(ty)]
            #![trigger required(self.bindings@, ty)]
            self.counts.get(ty) == required(self.bindings@, ty)
    }

    /// Creates the layout with the given bindings, labelled `name` where the
    /// device keeps labels.
    pub fn new(name: &str, driver: &Driver, bindings: Vec<DescriptorSetLayoutBinding>) -> (layout:
        DescriptorSetLayout)
        ensures
            layout.wf(),
            layout@ == (DescriptorSetLayoutView {
                name: driver.spec_label(name@),
                bindings: bindings@,
            }),
    {
        let counts = DescriptorCounts::of_bindings(&bindings);
        DescriptorSetLayout { name: driver.label(name), bindings, counts }
    }

    /// The debug label, if the layout carries one.
    pub fn name(&self) -> (name: Option<&str>)
        ensures
            match name {
                Some(s) => self@.name == Some(s@),
                None => self@.name is None,
            },
    {
        match &self.name {
            Some(s) => Some(s.as_str()),
            None => None,
        }
    }

    /// The bindings, in the order they were given.
    pub fn bindings(&self) -> (bindings: &Vec<DescriptorSetLayoutBinding>)
        ensures
            bindings@ == self@.bindings,
    {
        &self.bindings
    }
}

/// What a compute pipeline was created from.
pub struct ComputePipelineView {
    pub name: Option<Seq<char>>,
    pub shader: Shader,
    pub set_layout: Seq<DescriptorSetLayoutBinding>,
    pub push_consts: Seq<PushConstantRange>,
}

/// A compute pipeline: one program bound to one descriptor-set layout and
/// its push-constant ranges.
pub struct ComputePipeline {
    name: Option<String>,
    shader: Shader,
    set_layout: Vec<DescriptorSetLayoutBinding>,
    push_consts: Vec<PushConstantRange>,
}

impl View for ComputePipeline {
    type V = ComputePipelineView;

    closed spec fn view(&self) -> ComputePipelineView {
        ComputePipelineView {
            name: label_view(self.name),
            shader: self.shader,
            set_layout: self.set_layout@,
            push_consts: self.push_consts@,
        }
    }
}

impl ComputePipeline {
    /// Creates the pipeline that runs `shader` against `set_layout` with the
    /// given push-constant ranges, labelled `name` where the device keeps
    /// labels.
    pub fn new(
        name: &str,
        driver: &Driver,
        shader: &ShaderModule,
        set_layout: &DescriptorSetLayout,
        push_consts: Vec<PushConstantRange>,
    ) -> (pipeline: ComputePipeline)
        ensures
            pipeline@ == (ComputePipelineView {
                name: driver.spec_label(name@),
                shader: shader.shader,
                set_layout: set_layout@.bindings,
                push_consts: push_consts@,
            }),
    {
        let mut slots: Vec<DescriptorSetLayoutBinding> = Vec::new();
        let mut i: usize = 0;
        while i < set_layout.bindings.len()
            invariant
                i <= set_layout.bindings.len(),
                slots@ == set_layout.bindings@.take(i as int),
            decreases set_layout.bindings.len() - i,
        {
            slots.push(set_layout.bindings[i]);
            i = i + 1;
        }
        assert(slots@ =~= set_layout.bindings@);
        ComputePipeline {
            name: driver.label(name),
            shader: shader.shader,
            set_layout: slots,
            push_consts,
        }
    }

    /// The debug label, if the pipeline carries one.
    pub fn name(&self) -> (name: Option<&str>)
        ensures
            match name {
                Some(s) => self@.name == Some(s@),
                None => self@.name is None,
            },
    {
        match &self.name {
            Some(s) => Some(s.as_str()),
            None => None,
        }
    }

    /// The program the pipeline runs.
    pub fn shader(&self) -> (shader: Shader)
        ensures
            shader == self@.shader,
    {
        self.shader
    }

    /// The bindings of the layout the pipeline was created against.
    pub fn set_layout(&self) -> (bindings: &Vec<DescriptorSetLayoutBinding>)
        ensures
            bindings@ == self@.set_layout,
    {
        &self.set_layout
    }

    /// The push-constant ranges of the pipeline.
    pub fn push_consts(&self) -> (ranges: &Vec<PushConstantRange>)
        ensures
            ranges@ == self@.push_consts,
    {
        &self.push_consts
    }
}

/// How many descriptors of type `ty` the sets with the layouts `live` hold in
/// all.
pub open spec fn in_use(live: Seq<Seq<DescriptorSetLayoutBinding>>, ty: DescriptorType) -> nat
    decreases live.len(),
{
    if live.len() == 0 {
        0
    } else {
        in_use(live.drop_last(), ty) + required(live.last(), ty)
    }
}

/// The generation that follows `generation`; the counter wraps around.
pub open spec fn next_generation(generation: u64) -> u64 {
    if generation == u64::MAX {
        0
    } else {
        (generation + 1) as u64
    }
}

/// The state of a descriptor pool: its limits, how often it has been reset,
/// and the layouts of the sets allocated since, in allocation order.
pub struct DescriptorPoolView {
    pub max_sets: nat,
    pub ranges: Seq<DescriptorRangeDesc>,
    pub generation: u64,
    pub live: Seq<Seq<DescriptorSetLayoutBinding>>,
}

impl DescriptorPoolView {
    /// The live sets stay within the pool's limits.
    pub open spec fn wf(self) -> bool {
        &&& self.live.len() <= self.max_sets
        &&& forall|ty: DescriptorType|
            #![trigger in_use(self.live, ty)]
            #![trigger capacity(self.ranges, ty)]
            in_use(self.live, ty) <= capacity(self.ranges, ty)
    }

    /// One more set of the layout `bindings` fits: a set is left, and enough
    /// descriptors of every type.
    pub open spec fn has_room(self, bindings: Seq<DescriptorSetLayoutBinding>) -> bool {
        &&& self.live.len() < self.max_sets
        &&& forall|ty: DescriptorType|
            #![trigger in_use(self.live, ty)]
            #![trigger required(bindings, ty)]
            #![trigger capacity(self.ranges, ty)]
            in_use(self.live, ty) + required(bindings, ty) <= capacity(self.ranges, ty)
    }

    /// The name of the set that the next allocation hands out.
    pub open spec fn next_set(self) -> DescriptorSet {
        DescriptorSet { generation: self.generation, index: self.live.len() as usize }
    }

    /// The pool after one more set of the layout `bindings` was allocated.
    pub open spec fn allocate(self, bindings: Seq<DescriptorSetLayoutBinding>) -> DescriptorPoolView {
        DescriptorPoolView { live: self.live.push(bindings), ..self }
    }

    /// The pool after a reset: no set is live, and a new generation begins.
    pub open spec fn reset(self) -> DescriptorPoolView {
        DescriptorPoolView {
            live: Seq::empty(),
            generation: next_generation(self.generation),
            ..self
        }
    }

    /// `set` names a set that was allocated since the last reset.
    pub open spec fn is_live(self, set: DescriptorSet) -> bool {
        set.generation == self.generation && set.index < self.live.len()
    }
}

/// A descriptor pool: a bounded store from which descriptor sets are carved,
/// and which is emptied only as a whole.
pub struct DescriptorPool {
    max_sets: usize,
    ranges: Vec<DescriptorRangeDesc>,
    generation: u64,
    allocated: usize,
    limit: DescriptorCounts,
    used: DescriptorCounts,
    live: Ghost<Seq<Seq<DescriptorSetLayoutBinding>>>,
}

impl View for DescriptorPool {
    type V = DescriptorPoolView;

    closed spec fn view(&self) -> DescriptorPoolView {
        DescriptorPoolView {
            max_sets: self.max_sets as nat,
            ranges: self.ranges@,
            generation: self.generation,
            live: self.live@,
        }
    }
}

impl DescriptorPool {
    /// The counters agree with the ranges and with the live sets.
    pub closed spec fn inv(&self) -> bool {
        &&& self.allocated == self.live@.len()
        &&& forall|ty: DescriptorType|
            #![trigger self.limit.get(ty)]
            #![trigger capacity(self.ranges@, ty)]
            self.limit.get(ty) == capacity(self.ranges@, ty)
        &&& forall|ty: DescriptorType|
            #![trigger self.used.get(ty)]
            #![trigger in_use(self.live@, ty)]
            self.used.get(ty) == in_use(self.live@, ty)
    }

    /// The pool is in order: its counters are right and its live sets stay
    /// within its limits.
    pub open spec fn wf(&self) -> bool {
        self.inv() && self@.wf()
    }

    /// Creates an empty pool for at most `max_sets` sets, with room for the
    /// descriptors that `ranges` lists.
    pub fn new(max_sets: usize, ranges: Vec<DescriptorRangeDesc>) -> (pool: DescriptorPool)
        ensures
            pool.wf(),
            pool@ == (DescriptorPoolView {
                max_sets: max_sets as nat,
                ranges: ranges@,
                generation: 0,
                live: Seq::empty(),
            }),
    {
        let limit = DescriptorCounts::of_ranges(&ranges);
        DescriptorPool {
            max_sets,
            ranges,
            generation: 0,
            allocated: 0,
            limit,
            used: DescriptorCounts::zero(),
            live: Ghost(Seq::empty()),
        }
    }

    /// The number of sets the pool can hold at once.
    pub fn max_sets(&self) -> (n: usize)
        ensures
            n == self@.max_sets,
    {
        self.max_sets
    }

    /// The descriptor ranges the pool was created with.
    pub fn ranges(&self) -> (ranges: &Vec<DescriptorRangeDesc>)
        ensures
            ranges@ == self@.ranges,
    {
        &self.ranges
    }

    /// How often the pool has been reset, counted with wrap-around.
    pub fn generation(&self) -> (generation: u64)
        ensures
            generation == self@.generation,
    {
        self.generation
    }

    /// The number of sets allocated since the last reset.
    pub fn allocated(&self) -> (n: usize)
        requires
            self.wf(),
        ensures
            n == self@.live.len(),
    {
        self.allocated
    }

    /// Whether `set` names a set allocated from this pool since its last
    /// reset.
    pub fn is_live(&self, set: &DescriptorSet) -> (live: bool)
        requires
            self.wf(),
        ensures
            live == self@.is_live(*set),
    {
        set.generation == self.generation && set.index < self.allocated
    }

    /// Allocates one set against `layout`. The set is handed out exactly when
    /// the pool has room for it; otherwise the pool is left as it was.
    pub fn allocate_set(&mut self, layout: &DescriptorSetLayout) -> (set: Option<DescriptorSet>)
        requires
            old(self).wf(),
            layout.wf(),
        ensures
            final(self).wf(),
            match set {
                Some(set) => {
                    &&& old(self)@.has_room(layout@.bindings)
                    &&& set == old(self)@.next_set()
                    &&& final(self)@ == old(self)@.allocate(layout@.bindings)
                },
                None => !old(self)@.has_room(layout@.bindings) && final(self)@ == old(self)@,
            },
    {
        if self.allocated >= self.max_sets {
            return None;
        }
        if !self.used.absorb_within(&layout.counts, &self.limit) {
            return None;
        }
        let set = DescriptorSet { generation: self.generation, index: self.allocated };
        let ghost before = self.live@;
        self.allocated = self.allocated + 1;
        self.live = Ghost(before.push(layout.bindings@));
        proof {
            assert(before.push(layout.bindings@).drop_last() =~= before);
        }
        Some(set)
    }

    /// Takes every set back at once and begins a new generation, so that no
    /// name handed out before the reset names a live set of the new one.
    pub fn reset(&mut self)
        requires
            old(self).wf(),
        ensures
            final(self).wf(),
            final(self)@ == old(self)@.reset(),
    {
        self.allocated = 0;
        self.used = DescriptorCounts::zero();
        self.generation = if self.generation == u64::MAX {
            0
        } else {
            self.generation + 1
        };
        self.live = Ghost(Seq::empty());
    }
}

} // verus!
