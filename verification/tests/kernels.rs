use gpu_compute::compute::Compute;
use gpu_compute::driver::{DescriptorSet, Driver, Sampler};
use gpu_compute::pso::{
    descriptor_range_desc, descriptor_set_layout_binding, DescriptorRangeDesc,
    DescriptorSetLayoutBinding, DescriptorType, PushConstantRange, ShaderStage,
};
use gpu_compute::spirv::Shader;

const READ_ONLY: DescriptorType = DescriptorType::Buffer { read_only: true };
const READ_WRITE: DescriptorType = DescriptorType::Buffer { read_only: false };
const IMAGE: DescriptorType = DescriptorType::Image { read_only: false };

fn vertex_bindings() -> Vec<DescriptorSetLayoutBinding> {
    vec![
        DescriptorSetLayoutBinding { binding: 0, stage: ShaderStage::Compute, ty: READ_ONLY },
        DescriptorSetLayoutBinding { binding: 1, stage: ShaderStage::Compute, ty: READ_ONLY },
        DescriptorSetLayoutBinding { binding: 2, stage: ShaderStage::Compute, ty: READ_WRITE },
        DescriptorSetLayoutBinding { binding: 3, stage: ShaderStage::Compute, ty: READ_ONLY },
    ]
}

fn decode_bindings() -> Vec<DescriptorSetLayoutBinding> {
    vec![
        DescriptorSetLayoutBinding { binding: 0, stage: ShaderStage::Compute, ty: READ_ONLY },
        DescriptorSetLayoutBinding { binding: 1, stage: ShaderStage::Compute, ty: IMAGE },
    ]
}

fn sets_of(kernel: &Compute) -> Vec<DescriptorSet> {
    (0..kernel.max_desc_sets()).map(|i| *kernel.desc_set(i)).collect()
}

fn every_kernel(driver: &Driver, max_desc_sets: usize) -> Vec<Compute> {
    vec![
        Compute::calc_vertex_attrs_u16("a", driver, max_desc_sets),
        Compute::calc_vertex_attrs_u16_skin("b", driver, max_desc_sets),
        Compute::calc_vertex_attrs_u32("c", driver, max_desc_sets),
        Compute::calc_vertex_attrs_u32_skin("d", driver, max_desc_sets),
        Compute::decode_rgb_rgba("e", driver, max_desc_sets),
    ]
}

#[test]
fn calc_vertex_attrs_u16_with_four_sets() {
    let driver = Driver::new(false);
    let kernel = Compute::calc_vertex_attrs_u16("vertex attrs", &driver, 4);
    assert_eq!(kernel.max_desc_sets(), 4);
    assert_eq!(sets_of(&kernel).len(), 4);
    assert_eq!(kernel.desc_pool().allocated(), 4);
    let push_consts = kernel.pipeline().push_consts();
    assert_eq!(
        push_consts,
        &vec![PushConstantRange { stage: ShaderStage::Compute, start: 0, end: 8 }]
    );
    assert_eq!(push_consts[0].size(), 8);
    let bindings = kernel.set_layout().bindings();
    assert_eq!(bindings.len(), 4);
    let types: Vec<DescriptorType> = bindings.iter().map(|b| b.ty).collect();
    assert_eq!(types, vec![READ_ONLY, READ_ONLY, READ_WRITE, READ_ONLY]);
    assert_eq!(bindings, &vertex_bindings());
    assert_eq!(kernel.pipeline().shader(), Shader::CalcVertexAttrsU16);
    assert_eq!(kernel.shader().shader, Shader::CalcVertexAttrsU16);
}

#[test]
fn decode_rgb_rgba_with_one_set() {
    let driver = Driver::new(false);
    let kernel = Compute::decode_rgb_rgba("decode", &driver, 1);
    assert_eq!(kernel.max_desc_sets(), 1);
    assert_eq!(sets_of(&kernel), vec![DescriptorSet { generation: 0, index: 0 }]);
    let push_consts = kernel.pipeline().push_consts();
    assert_eq!(
        push_consts,
        &vec![PushConstantRange { stage: ShaderStage::Compute, start: 0, end: 4 }]
    );
    assert_eq!(push_consts[0].size(), 4);
    assert_eq!(kernel.set_layout().bindings(), &decode_bindings());
    assert_eq!(kernel.pipeline().shader(), Shader::DecodeRgbRgba);
}

#[test]
fn each_factory_binds_its_own_shader() {
    let driver = Driver::new(false);
    let shaders: Vec<Shader> =
        every_kernel(&driver, 2).iter().map(|k| k.pipeline().shader()).collect();
    assert_eq!(
        shaders,
        vec![
            Shader::CalcVertexAttrsU16,
            Shader::CalcVertexAttrsU16Skin,
            Shader::CalcVertexAttrsU32,
            Shader::CalcVertexAttrsU32Skin,
            Shader::DecodeRgbRgba,
        ]
    );
    for kernel in every_kernel(&driver, 2) {
        assert_eq!(kernel.shader().shader, kernel.pipeline().shader());
    }
}

#[test]
fn descriptor_sets_are_defined_and_distinct() {
    let driver = Driver::new(false);
    for max_desc_sets in [1usize, 2, 5, 64] {
        for kernel in every_kernel(&driver, max_desc_sets) {
            let sets = sets_of(&kernel);
            assert_eq!(sets.len(), max_desc_sets);
            for (i, set) in sets.iter().enumerate() {
                assert_eq!(*set, DescriptorSet { generation: 0, index: i });
                assert!(kernel.desc_pool().is_live(set));
                for other in &sets[i + 1..] {
                    assert_ne!(set, other);
                }
            }
        }
    }
}

#[test]
fn reset_keeps_capacity_and_domain() {
    let driver = Driver::new(false);
    for mut kernel in every_kernel(&driver, 3) {
        let before = sets_of(&kernel);
        kernel.reset();
        assert_eq!(kernel.max_desc_sets(), 3);
        let after = sets_of(&kernel);
        assert_eq!(after.len(), 3);
        assert_eq!(kernel.desc_pool().allocated(), 3);
        assert_eq!(kernel.desc_pool().generation(), 1);
        for (i, set) in after.iter().enumerate() {
            assert_eq!(*set, DescriptorSet { generation: 1, index: i });
            assert!(kernel.desc_pool().is_live(set));
        }
        for stale in &before {
            assert!(!kernel.desc_pool().is_live(stale));
            assert!(!after.contains(stale));
        }
    }
}

#[test]
fn reset_leaves_pipeline_and_layout_alone() {
    let driver = Driver::new(true);
    let mut kernel = Compute::calc_vertex_attrs_u32("skinless", &driver, 2);
    kernel.reset();
    assert_eq!(kernel.set_layout().bindings(), &vertex_bindings());
    assert_eq!(kernel.pipeline().set_layout(), &vertex_bindings());
    assert_eq!(kernel.pipeline().shader(), Shader::CalcVertexAttrsU32);
    assert_eq!(kernel.pipeline().name(), Some("skinless"));
    assert_eq!(kernel.pipeline().push_consts()[0].size(), 8);
    assert_eq!(
        kernel.desc_pool().ranges(),
        &vec![
            DescriptorRangeDesc { ty: READ_ONLY, count: 6 },
            DescriptorRangeDesc { ty: READ_WRITE, count: 2 },
        ]
    );
    assert!(kernel.samplers().is_empty());
}

#[test]
fn reset_twice_has_the_shape_of_reset_once() {
    let driver = Driver::new(false);
    let mut once = Compute::decode_rgb_rgba("decode", &driver, 4);
    let mut twice = Compute::decode_rgb_rgba("decode", &driver, 4);
    once.reset();
    twice.reset();
    twice.reset();
    assert_eq!(twice.max_desc_sets(), once.max_desc_sets());
    assert_eq!(sets_of(&twice).len(), sets_of(&once).len());
    assert_eq!(twice.desc_pool().allocated(), once.desc_pool().allocated());
    assert_eq!(twice.desc_pool().ranges(), once.desc_pool().ranges());
    assert_eq!(twice.set_layout().bindings(), once.set_layout().bindings());
    assert_eq!(once.desc_pool().generation(), 1);
    assert_eq!(twice.desc_pool().generation(), 2);
    assert_eq!(*twice.desc_set(3), DescriptorSet { generation: 2, index: 3 });
}

#[test]
fn vertex_kernels_provide_three_read_only_and_one_written_buffer_per_set() {
    let driver = Driver::new(false);
    for max_desc_sets in [1usize, 4, 1000] {
        for kernel in every_kernel(&driver, max_desc_sets).into_iter().take(4) {
            assert_eq!(
                kernel.desc_pool().ranges(),
                &vec![
                    DescriptorRangeDesc { ty: READ_ONLY, count: 3 * max_desc_sets },
                    DescriptorRangeDesc { ty: READ_WRITE, count: max_desc_sets },
                ]
            );
            assert_eq!(kernel.desc_pool().max_sets(), max_desc_sets);
        }
    }
    let kernel = Compute::calc_vertex_attrs_u16_skin("skin", &driver, 4);
    assert_eq!(kernel.desc_pool().ranges()[0].count, 12);
    assert_eq!(kernel.desc_pool().ranges()[1].count, 4);
}

#[test]
fn decode_kernel_provides_one_buffer_and_one_image_per_set() {
    let driver = Driver::new(false);
    for max_desc_sets in [1usize, 3, 250] {
        let kernel = Compute::decode_rgb_rgba("decode", &driver, max_desc_sets);
        assert_eq!(
            kernel.desc_pool().ranges(),
            &vec![
                DescriptorRangeDesc { ty: READ_ONLY, count: max_desc_sets },
                DescriptorRangeDesc { ty: IMAGE, count: max_desc_sets },
            ]
        );
        assert_eq!(kernel.desc_pool().max_sets(), max_desc_sets);
    }
}

#[test]
fn no_range_is_short_of_what_the_sets_need() {
    let driver = Driver::new(false);
    for max_desc_sets in [1usize, 2, 17] {
        for kernel in every_kernel(&driver, max_desc_sets) {
            for ty in [READ_ONLY, READ_WRITE, IMAGE, DescriptorType::Image { read_only: true }] {
                let per_set =
                    kernel.set_layout().bindings().iter().filter(|b| b.ty == ty).count();
                let provided: usize = kernel
                    .desc_pool()
                    .ranges()
                    .iter()
                    .filter(|r| r.ty == ty)
                    .map(|r| r.count)
                    .sum();
                assert!(provided >= per_set * max_desc_sets);
            }
        }
    }
}

#[test]
fn vertex_kernels_share_one_layout() {
    let driver = Driver::new(false);
    for max_desc_sets in [1usize, 9] {
        for kernel in every_kernel(&driver, max_desc_sets).into_iter().take(4) {
            assert_eq!(kernel.set_layout().bindings(), &vertex_bindings());
            assert_eq!(kernel.pipeline().set_layout(), &vertex_bindings());
            assert_eq!(
                kernel.pipeline().push_consts(),
                &vec![PushConstantRange { stage: ShaderStage::Compute, start: 0, end: 8 }]
            );
        }
    }
}

#[test]
fn decode_layout_does_not_depend_on_capacity() {
    let driver = Driver::new(false);
    for max_desc_sets in [1usize, 2, 33] {
        let kernel = Compute::decode_rgb_rgba("decode", &driver, max_desc_sets);
        let bindings = kernel.set_layout().bindings();
        assert_eq!(bindings.len(), 2);
        assert_eq!(bindings[0].ty, DescriptorType::Buffer { read_only: true });
        assert_eq!(bindings[1].ty, DescriptorType::Image { read_only: false });
        assert_eq!(bindings[0].binding, 0);
        assert_eq!(bindings[1].binding, 1);
    }
}

#[test]
fn labels_follow_the_device() {
    let labelled = Compute::calc_vertex_attrs_u16("named", &Driver::new(true), 1);
    assert_eq!(labelled.pipeline().name(), Some("named"));
    assert_eq!(labelled.set_layout().name(), Some("named"));
    let bare = Compute::calc_vertex_attrs_u16("named", &Driver::new(false), 1);
    assert_eq!(bare.pipeline().name(), None);
    assert_eq!(bare.set_layout().name(), None);
    let decode = Compute::decode_rgb_rgba("", &Driver::new(true), 1);
    assert_eq!(decode.pipeline().name(), Some(""));
}

#[test]
fn current_kernels_own_no_samplers() {
    let driver = Driver::new(false);
    for kernel in every_kernel(&driver, 2) {
        assert!(kernel.samplers().is_empty());
    }
}

#[test]
fn new_keeps_what_it_is_given() {
    let driver = Driver::new(true);
    let push_consts = vec![
        PushConstantRange { stage: ShaderStage::Compute, start: 0, end: 16 },
        PushConstantRange { stage: ShaderStage::Compute, start: 16, end: 20 },
    ];
    let ranges = vec![
        descriptor_range_desc(2, IMAGE),
        descriptor_range_desc(5, READ_ONLY),
        descriptor_range_desc(4, IMAGE),
    ];
    let bindings = vec![
        descriptor_set_layout_binding(0, ShaderStage::Compute, IMAGE),
        descriptor_set_layout_binding(4, ShaderStage::Compute, IMAGE),
        descriptor_set_layout_binding(7, ShaderStage::Compute, READ_ONLY),
    ];
    let samplers = vec![Sampler { id: 7 }, Sampler { id: 3 }];
    let kernel = Compute::new(
        "custom",
        &driver,
        Shader::DecodeRgbRgba,
        push_consts.clone(),
        3,
        ranges.clone(),
        bindings.clone(),
        samplers.clone(),
    );
    assert_eq!(kernel.max_desc_sets(), 3);
    assert_eq!(kernel.pipeline().push_consts(), &push_consts);
    assert_eq!(kernel.pipeline().set_layout(), &bindings);
    assert_eq!(kernel.pipeline().shader(), Shader::DecodeRgbRgba);
    assert_eq!(kernel.pipeline().name(), Some("custom"));
    assert_eq!(kernel.set_layout().bindings(), &bindings);
    assert_eq!(kernel.set_layout().name(), Some("custom"));
    assert_eq!(kernel.desc_pool().ranges(), &ranges);
    assert_eq!(kernel.desc_pool().max_sets(), 3);
    assert_eq!(kernel.desc_pool().allocated(), 3);
    assert_eq!(kernel.desc_pool().generation(), 0);
    assert_eq!(kernel.samplers(), &samplers);
    assert_eq!(kernel.shader().shader, Shader::DecodeRgbRgba);
    assert_eq!(
        sets_of(&kernel),
        vec![
            DescriptorSet { generation: 0, index: 0 },
            DescriptorSet { generation: 0, index: 1 },
            DescriptorSet { generation: 0, index: 2 },
        ]
    );
}

#[test]
fn many_resets_count_generations() {
    let driver = Driver::new(false);
    let mut kernel = Compute::calc_vertex_attrs_u32_skin("k", &driver, 2);
    for round in 1..=10u64 {
        kernel.reset();
        assert_eq!(kernel.desc_pool().generation(), round);
        assert_eq!(*kernel.desc_set(1), DescriptorSet { generation: round, index: 1 });
        assert_eq!(kernel.max_desc_sets(), 2);
    }
}
