use render_graph::bind_group::{BindGroupLayoutId, BindingType, SamplerId, ShaderStages};
use render_graph::bloom::{
    bloom_bind_group_layout_entries, bloom_sampler_descriptor, prepare_downsampling_pipeline,
    prepare_upsampling_pipeline, BloomCompositeMode, BloomDownsamplingKey,
    BloomDownsamplingPipeline, BloomDownsamplingSpecializer, BloomUpsamplingKey,
    BloomUpsamplingPipeline, BloomUpsamplingSpecializer, BLOOM_TEXTURE_FORMAT, TEXTURE_FORMAT_HDR,
};
use render_graph::pipeline::{
    BlendFactor, FragmentState, PipelineCache, PipelineLabel, RenderPipelineDescriptor, ShaderDef,
    ShaderEntryPoint, SpecializeError, Specializer, VertexState,
};
use render_graph::texture::{AddressMode, FilterMode};

fn downsampling_pipeline() -> BloomDownsamplingPipeline {
    BloomDownsamplingPipeline::new(
        BindGroupLayoutId { value: 1 },
        SamplerId { value: 2 },
        render_graph::pipeline::ShaderId { value: 10 },
        render_graph::pipeline::ShaderId { value: 11 },
    )
}

fn upsampling_pipeline() -> BloomUpsamplingPipeline {
    BloomUpsamplingPipeline::new(
        BindGroupLayoutId { value: 1 },
        render_graph::pipeline::ShaderId { value: 10 },
        render_graph::pipeline::ShaderId { value: 11 },
    )
}

#[test]
fn identical_keys_return_the_same_pipeline_handle() {
    let mut pipeline = downsampling_pipeline();
    let mut cache = PipelineCache::new();
    let key = BloomDownsamplingKey { prefilter: true, first_downsample: false, uniform_scale: false };
    let first = pipeline.specialized_cache.specialize(&mut cache, key).unwrap();
    let second = pipeline.specialized_cache.specialize(&mut cache, key).unwrap();
    assert_eq!(first, second);
}

#[test]
fn a_differing_single_flag_returns_a_distinct_handle() {
    let mut pipeline = downsampling_pipeline();
    let mut cache = PipelineCache::new();
    let with_first = pipeline
        .specialized_cache
        .specialize(
            &mut cache,
            BloomDownsamplingKey { prefilter: true, first_downsample: true, uniform_scale: false },
        )
        .unwrap();
    let without_first = pipeline
        .specialized_cache
        .specialize(
            &mut cache,
            BloomDownsamplingKey { prefilter: true, first_downsample: false, uniform_scale: false },
        )
        .unwrap();
    assert_ne!(with_first, without_first);
}

#[test]
fn downsampling_specialization_sets_label_entry_point_and_switches() {
    let pipeline = downsampling_pipeline();
    let mut cache = PipelineCache::new();
    let mut pipeline = pipeline;
    let key = BloomDownsamplingKey { prefilter: true, first_downsample: true, uniform_scale: true };
    let id = pipeline.specialized_cache.specialize(&mut cache, key).unwrap();
    let descriptor = cache.get_descriptor(id).expect("queued descriptor must be known");
    assert_eq!(descriptor.label, Some(PipelineLabel::BloomDownsamplingPipelineFirst));
    let fragment = descriptor.fragment.as_ref().unwrap();
    assert_eq!(fragment.entry_point, Some(ShaderEntryPoint::DownsampleFirst));
    assert_eq!(
        fragment.shader_defs,
        vec![ShaderDef::FirstDownsample, ShaderDef::UseThreshold, ShaderDef::UniformScale]
    );
    assert_eq!(fragment.targets.len(), 1);
    let target = fragment.targets[0].as_ref().unwrap();
    assert_eq!(target.format, BLOOM_TEXTURE_FORMAT);
    assert_eq!(target.blend, None);
}

#[test]
fn main_downsampling_pass_keeps_the_plain_entry_point() {
    let mut pipeline = downsampling_pipeline();
    let mut cache = PipelineCache::new();
    let key = BloomDownsamplingKey { prefilter: false, first_downsample: false, uniform_scale: false };
    let id = pipeline.specialized_cache.specialize(&mut cache, key).unwrap();
    let descriptor = cache.get_descriptor(id).unwrap();
    assert_eq!(descriptor.label, Some(PipelineLabel::BloomDownsamplingPipeline));
    let fragment = descriptor.fragment.as_ref().unwrap();
    assert_eq!(fragment.entry_point, Some(ShaderEntryPoint::Downsample));
    assert!(fragment.shader_defs.is_empty());
}

#[test]
fn upsampling_specialization_picks_format_and_blend_by_key() {
    let mut pipeline = upsampling_pipeline();
    let mut cache = PipelineCache::new();
    let id = pipeline
        .specialized_cache
        .specialize(
            &mut cache,
            BloomUpsamplingKey {
                composite_mode: BloomCompositeMode::EnergyConserving,
                final_pipeline: false,
            },
        )
        .unwrap();
    let descriptor = cache.get_descriptor(id).unwrap();
    assert_eq!(descriptor.label, Some(PipelineLabel::BloomUpsamplingPipeline));
    let fragment = descriptor.fragment.as_ref().unwrap();
    assert_eq!(fragment.entry_point, Some(ShaderEntryPoint::Upsample));
    let target = fragment.targets[0].as_ref().unwrap();
    assert_eq!(target.format, BLOOM_TEXTURE_FORMAT);
    let blend = target.blend.as_ref().unwrap();
    assert_eq!(blend.color.src_factor, BlendFactor::Constant);
    assert_eq!(blend.color.dst_factor, BlendFactor::OneMinusConstant);
    assert_eq!(blend.alpha.src_factor, BlendFactor::Zero);
    assert_eq!(blend.alpha.dst_factor, BlendFactor::One);
}

#[test]
fn final_additive_upsampling_targets_the_hdr_view_format() {
    let mut pipeline = upsampling_pipeline();
    let mut cache = PipelineCache::new();
    let id = pipeline
        .specialized_cache
        .specialize(
            &mut cache,
            BloomUpsamplingKey {
                composite_mode: BloomCompositeMode::Additive,
                final_pipeline: true,
            },
        )
        .unwrap();
    let descriptor = cache.get_descriptor(id).unwrap();
    let target = descriptor.fragment.as_ref().unwrap().targets[0].as_ref().unwrap();
    assert_eq!(target.format, TEXTURE_FORMAT_HDR);
    assert_eq!(target.blend.as_ref().unwrap().color.dst_factor, BlendFactor::One);
}

#[test]
fn specialization_without_a_fragment_state_reports_the_error() {
    let descriptor = RenderPipelineDescriptor {
        label: None,
        layout: Vec::new(),
        vertex: VertexState {
            shader: render_graph::pipeline::ShaderId { value: 1 },
            entry_point: Some(ShaderEntryPoint::FullscreenVertex),
            shader_defs: Vec::new(),
        },
        fragment: None,
    };
    let res = BloomDownsamplingSpecializer.specialize(
        BloomDownsamplingKey { prefilter: false, first_downsample: false, uniform_scale: false },
        descriptor,
    );
    assert!(matches!(res, Err(SpecializeError::MissingFragmentState)));

    let descriptor = RenderPipelineDescriptor {
        label: None,
        layout: Vec::new(),
        vertex: VertexState {
            shader: render_graph::pipeline::ShaderId { value: 1 },
            entry_point: None,
            shader_defs: Vec::new(),
        },
        fragment: None,
    };
    let res = BloomUpsamplingSpecializer.specialize(
        BloomUpsamplingKey {
            composite_mode: BloomCompositeMode::Additive,
            final_pipeline: false,
        },
        descriptor,
    );
    assert!(matches!(res, Err(SpecializeError::MissingFragmentState)));
}

#[test]
fn upsampling_replaces_an_existing_target_slot() {
    let mut pipeline = upsampling_pipeline();
    let mut cache = PipelineCache::new();
    let key = BloomUpsamplingKey {
        composite_mode: BloomCompositeMode::Additive,
        final_pipeline: false,
    };
    let id = pipeline.specialized_cache.specialize(&mut cache, key).unwrap();
    let descriptor = cache.get_descriptor(id).unwrap();
    // The base descriptor has no target yet; specialization installs slot 0.
    assert_eq!(descriptor.fragment.as_ref().unwrap().targets.len(), 1);
}

#[test]
fn prepare_downsampling_returns_memoized_pairs() {
    let mut pipeline = downsampling_pipeline();
    let mut cache = PipelineCache::new();
    let ids = prepare_downsampling_pipeline(&mut pipeline, &mut cache, true, false).unwrap();
    assert_ne!(ids.main, ids.first);
    let again = prepare_downsampling_pipeline(&mut pipeline, &mut cache, true, false).unwrap();
    assert_eq!(ids, again);
    let other = prepare_downsampling_pipeline(&mut pipeline, &mut cache, false, false).unwrap();
    assert_ne!(other.main, ids.main);
}

#[test]
fn prepare_upsampling_returns_memoized_pairs() {
    let mut pipeline = upsampling_pipeline();
    let mut cache = PipelineCache::new();
    let ids =
        prepare_upsampling_pipeline(&mut pipeline, &mut cache, BloomCompositeMode::EnergyConserving)
            .unwrap();
    assert_ne!(ids.id_main, ids.id_final);
    let again =
        prepare_upsampling_pipeline(&mut pipeline, &mut cache, BloomCompositeMode::EnergyConserving)
            .unwrap();
    assert_eq!(ids, again);
}

#[test]
fn bloom_layout_binds_texture_sampler_and_uniforms_sequentially() {
    let entries = bloom_bind_group_layout_entries();
    assert_eq!(entries.len(), 3);
    assert_eq!(entries[0].binding, 0);
    assert_eq!(entries[0].visibility, ShaderStages::Fragment);
    assert_eq!(entries[0].ty, BindingType::Texture { filterable: true });
    assert_eq!(entries[1].binding, 1);
    assert_eq!(entries[1].ty, BindingType::Sampler);
    assert_eq!(entries[2].binding, 2);
    assert_eq!(entries[2].ty, BindingType::UniformBuffer { has_dynamic_offset: true });
}

#[test]
fn bloom_sampler_filters_linearly_and_clamps() {
    let sampler = bloom_sampler_descriptor();
    assert_eq!(sampler.min_filter, FilterMode::Linear);
    assert_eq!(sampler.mag_filter, FilterMode::Linear);
    assert_eq!(sampler.address_mode_u, AddressMode::ClampToEdge);
    assert_eq!(sampler.address_mode_v, AddressMode::ClampToEdge);
}

#[test]
fn downsampling_pipeline_assembly_keeps_its_handles() {
    let pipeline = downsampling_pipeline();
    assert_eq!(pipeline.bind_group_layout, BindGroupLayoutId { value: 1 });
    assert_eq!(pipeline.sampler, SamplerId { value: 2 });
}

#[test]
fn fragment_state_field_access_stays_consistent() {
    let fragment = FragmentState {
        shader: render_graph::pipeline::ShaderId { value: 4 },
        entry_point: None,
        shader_defs: vec![ShaderDef::UseThreshold],
        targets: Vec::new(),
    };
    assert_eq!(fragment.shader_defs.len(), 1);
}
