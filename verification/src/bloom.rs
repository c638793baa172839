//! Bloom pipeline specialization: the downsampling and upsampling pipeline
//! permutations, keyed by the small discrete flags that change their shader
//! entry points, compile-time switches, and blend states.

use vstd::prelude::*;
use vstd::pervasive::VecAdditionalExecFns;

use crate::bind_group::{
    BindGroupLayoutEntry, BindGroupLayoutId, BindingType, SamplerId, ShaderStages,
};
use crate::keyed::{lemma_lookup_push, lookup};
use crate::pipeline::{
    BlendComponent, BlendFactor, BlendOperation, BlendState, CachedRenderPipelineId,
    ColorTargetState, ColorWrites, FragmentState, PipelineCache, PipelineDescriptorView,
    PipelineLabel, RenderPipelineDescriptor, ShaderDef, ShaderEntryPoint, ShaderId,
    SpecializeError, SpecializedCache, Specializer, SpecializerKey, VertexState, VertexStateView,
};
use crate::texture::{AddressMode, FilterMode, SamplerDescriptor, TextureFormat};

verus! {

/// The texel format of the intermediate bloom texture pyramid.
pub const BLOOM_TEXTURE_FORMAT: TextureFormat = TextureFormat::Rg11b10UFloat;

/// The texel format of an HDR view target, which the final upsampling pass
/// blends into.
pub const TEXTURE_FORMAT_HDR: TextureFormat = TextureFormat::Rgba16Float;

/// How the blurred pyramid is composited back onto the view.
#[derive(Copy, Clone, PartialEq, Eq, Hash, Structural, Debug)]
pub enum BloomCompositeMode {
    EnergyConserving,
    Additive,
}

/// The discrete flags a downsampling pipeline permutation is keyed by.
#[derive(Copy, Clone, PartialEq, Eq, Hash, Structural, Debug)]
pub struct BloomDownsamplingKey {
    pub prefilter: bool,
    pub first_downsample: bool,
    pub uniform_scale: bool,
}

impl SpecializerKey for BloomDownsamplingKey {
    fn key_eq(&self, other: &Self) -> (res: bool) {
        *self == *other
    }
}

/// The discrete flags an upsampling pipeline permutation is keyed by.
#[derive(Copy, Clone, PartialEq, Eq, Hash, Structural, Debug)]
pub struct BloomUpsamplingKey {
    pub composite_mode: BloomCompositeMode,
    pub final_pipeline: bool,
}

impl SpecializerKey for BloomUpsamplingKey {
    fn key_eq(&self, other: &Self) -> (res: bool) {
        *self == *other
    }
}

/// Specializes the downsampling pipeline: picks the entry point and label
/// for the first pass of the pyramid, and switches threshold prefiltering
/// and uniform scaling on in the shader.
pub struct BloomDownsamplingSpecializer;

/// The shader switches a downsampling key turns on, in the order they are
/// pushed.
pub open spec fn downsampling_shader_defs(key: BloomDownsamplingKey) -> Seq<ShaderDef> {
    let first: Seq<ShaderDef> = if key.first_downsample {
        seq![ShaderDef::FirstDownsample]
    } else {
        Seq::empty()
    };
    let threshold: Seq<ShaderDef> = if key.prefilter {
        seq![ShaderDef::UseThreshold]
    } else {
        Seq::empty()
    };
    let scale: Seq<ShaderDef> = if key.uniform_scale {
        seq![ShaderDef::UniformScale]
    } else {
        Seq::empty()
    };
    first + threshold + scale
}

impl Specializer for BloomDownsamplingSpecializer {
    type Key = BloomDownsamplingKey;

    open spec fn spec_canonical(self, key: BloomDownsamplingKey) -> BloomDownsamplingKey {
        key
    }

    open spec fn spec_ok(self, key: BloomDownsamplingKey, input: PipelineDescriptorView) -> bool {
        input.fragment is Some
    }

    open spec fn spec_err(
        self,
        key: BloomDownsamplingKey,
        input: PipelineDescriptorView,
    ) -> SpecializeError {
        SpecializeError::MissingFragmentState
    }

    open spec fn spec_output(
        self,
        key: BloomDownsamplingKey,
        input: PipelineDescriptorView,
        output: PipelineDescriptorView,
    ) -> bool {
        &&& output.label == Some(
            if key.first_downsample {
                PipelineLabel::BloomDownsamplingPipelineFirst
            } else {
                PipelineLabel::BloomDownsamplingPipeline
            },
        )
        &&& output.layout == input.layout
        &&& output.vertex == input.vertex
        &&& input.fragment matches Some(fin) ==> (output.fragment matches Some(fout) && {
            &&& fout.shader == fin.shader
            &&& fout.targets == fin.targets
            &&& fout.entry_point == Some(
                if key.first_downsample {
                    ShaderEntryPoint::DownsampleFirst
                } else {
                    ShaderEntryPoint::Downsample
                },
            )
            &&& fout.shader_defs == fin.shader_defs + downsampling_shader_defs(key)
        })
    }

    fn specialize(
        &self,
        key: BloomDownsamplingKey,
        descriptor: RenderPipelineDescriptor,
    ) -> (res: Result<(BloomDownsamplingKey, RenderPipelineDescriptor), SpecializeError>) {
        let ghost input = descriptor@;
        let mut descriptor = descriptor;
        descriptor.label = Some(
            if key.first_downsample {
                PipelineLabel::BloomDownsamplingPipelineFirst
            } else {
                PipelineLabel::BloomDownsamplingPipeline
            },
        );
        match &mut descriptor.fragment {
            None => Err(SpecializeError::MissingFragmentState),
            Some(fragment) => {
                fragment.entry_point = Some(
                    if key.first_downsample {
                        ShaderEntryPoint::DownsampleFirst
                    } else {
                        ShaderEntryPoint::Downsample
                    },
                );
                if key.first_downsample {
                    fragment.shader_defs.push(ShaderDef::FirstDownsample);
                }
                if key.prefilter {
                    fragment.shader_defs.push(ShaderDef::UseThreshold);
                }
                if key.uniform_scale {
                    fragment.shader_defs.push(ShaderDef::UniformScale);
                }
                proof {
                    assert(fragment.shader_defs@ =~= input.fragment.unwrap().shader_defs
                        + downsampling_shader_defs(key));
                }
                Ok((key, descriptor))
            }
        }
    }
}

/// Specializes the upsampling pipeline: picks the target format of the pass
/// and the blend state its composite mode calls for.
pub struct BloomUpsamplingSpecializer;

/// The color target an upsampling key renders to: the HDR view target on the
/// final pass, the bloom pyramid otherwise, blended with constants chosen by
/// the composite mode.
pub open spec fn upsampling_color_target(key: BloomUpsamplingKey) -> ColorTargetState {
    ColorTargetState {
        format: if key.final_pipeline {
            TEXTURE_FORMAT_HDR
        } else {
            BLOOM_TEXTURE_FORMAT
        },
        blend: Some(
            BlendState {
                color: BlendComponent {
                    src_factor: BlendFactor::Constant,
                    dst_factor: match key.composite_mode {
                        BloomCompositeMode::EnergyConserving => BlendFactor::OneMinusConstant,
                        BloomCompositeMode::Additive => BlendFactor::One,
                    },
                    operation: BlendOperation::Add,
                },
                alpha: BlendComponent {
                    src_factor: BlendFactor::Zero,
                    dst_factor: BlendFactor::One,
                    operation: BlendOperation::Add,
                },
            },
        ),
        write_mask: ColorWrites::All,
    }
}

impl Specializer for BloomUpsamplingSpecializer {
    type Key = BloomUpsamplingKey;

    open spec fn spec_canonical(self, key: BloomUpsamplingKey) -> BloomUpsamplingKey {
        key
    }

    open spec fn spec_ok(self, key: BloomUpsamplingKey, input: PipelineDescriptorView) -> bool {
        input.fragment is Some
    }

    open spec fn spec_err(
        self,
        key: BloomUpsamplingKey,
        input: PipelineDescriptorView,
    ) -> SpecializeError {
        SpecializeError::MissingFragmentState
    }

    open spec fn spec_output(
        self,
        key: BloomUpsamplingKey,
        input: PipelineDescriptorView,
        output: PipelineDescriptorView,
    ) -> bool {
        &&& output.label == input.label
        &&& output.layout == input.layout
        &&& output.vertex == input.vertex
        &&& input.fragment matches Some(fin) ==> (output.fragment matches Some(fout) && {
            &&& fout.shader == fin.shader
            &&& fout.entry_point == fin.entry_point
            &&& fout.shader_defs == fin.shader_defs
            &&& fout.targets == if fin.targets.len() == 0 {
                fin.targets.push(Some(upsampling_color_target(key)))
            } else {
                fin.targets.update(0, Some(upsampling_color_target(key)))
            }
        })
    }

    fn specialize(
        &self,
        key: BloomUpsamplingKey,
        descriptor: RenderPipelineDescriptor,
    ) -> (res: Result<(BloomUpsamplingKey, RenderPipelineDescriptor), SpecializeError>) {
        let ghost input = descriptor@;
        let mut descriptor = descriptor;
        let target = ColorTargetState {
            format: if key.final_pipeline {
                TEXTURE_FORMAT_HDR
            } else {
                BLOOM_TEXTURE_FORMAT
            },
            blend: Some(
                BlendState {
                    color: BlendComponent {
                        src_factor: BlendFactor::Constant,
                        dst_factor: match key.composite_mode {
                            BloomCompositeMode::EnergyConserving => BlendFactor::OneMinusConstant,
                            BloomCompositeMode::Additive => BlendFactor::One,
                        },
                        operation: BlendOperation::Add,
                    },
                    alpha: BlendComponent {
                        src_factor: BlendFactor::Zero,
                        dst_factor: BlendFactor::One,
                        operation: BlendOperation::Add,
                    },
                },
            ),
            write_mask: ColorWrites::All,
        };
        match &mut descriptor.fragment {
            None => Err(SpecializeError::MissingFragmentState),
            Some(fragment) => {
                if fragment.targets.len() == 0 {
                    fragment.targets.push(Some(target));
                } else {
                    fragment.targets.set(0, Some(target));
                }
                Ok((key, descriptor))
            }
        }
    }
}

/// The bind group layout slots both bloom passes sample through: the input
/// texture, its sampler, and the bloom settings uniforms, bound sequentially
/// for the fragment stage.
pub open spec fn bloom_bind_group_layout_entries_view() -> Seq<BindGroupLayoutEntry> {
    seq![
        BindGroupLayoutEntry {
            binding: 0,
            visibility: ShaderStages::Fragment,
            ty: BindingType::Texture { filterable: true },
        },
        BindGroupLayoutEntry {
            binding: 1,
            visibility: ShaderStages::Fragment,
            ty: BindingType::Sampler,
        },
        BindGroupLayoutEntry {
            binding: 2,
            visibility: ShaderStages::Fragment,
            ty: BindingType::UniformBuffer { has_dynamic_offset: true },
        },
    ]
}

/// The bind group layout entries both bloom passes are created with.
pub fn bloom_bind_group_layout_entries() -> (res: Vec<BindGroupLayoutEntry>)
    ensures
        res@ == bloom_bind_group_layout_entries_view(),
{
    let mut entries: Vec<BindGroupLayoutEntry> = Vec::new();
    entries.push(
        BindGroupLayoutEntry {
            binding: 0,
            visibility: ShaderStages::Fragment,
            ty: BindingType::Texture { filterable: true },
        },
    );
    entries.push(
        BindGroupLayoutEntry {
            binding: 1,
            visibility: ShaderStages::Fragment,
            ty: BindingType::Sampler,
        },
    );
    entries.push(
        BindGroupLayoutEntry {
            binding: 2,
            visibility: ShaderStages::Fragment,
            ty: BindingType::UniformBuffer { has_dynamic_offset: true },
        },
    );
    proof {
        assert(entries@ =~= bloom_bind_group_layout_entries_view());
    }
    entries
}

/// The sampler both bloom passes filter through: linear in both directions,
/// clamped at the edges.
pub fn bloom_sampler_descriptor() -> (res: SamplerDescriptor)
    ensures
        res == (SamplerDescriptor {
            min_filter: FilterMode::Linear,
            mag_filter: FilterMode::Linear,
            address_mode_u: AddressMode::ClampToEdge,
            address_mode_v: AddressMode::ClampToEdge,
        }),
{
    let base = SamplerDescriptor::default();
    SamplerDescriptor {
        min_filter: FilterMode::Linear,
        mag_filter: FilterMode::Linear,
        address_mode_u: base.address_mode_u,
        address_mode_v: base.address_mode_v,
    }
}

/// The base descriptor every downsampling permutation starts from: the
/// fullscreen vertex stage and a fragment stage targeting the bloom pyramid
/// format, entry point and switches left for specialization.
pub open spec fn downsampling_base_view(
    layout: BindGroupLayoutId,
    fullscreen_shader: ShaderId,
    fragment_shader: ShaderId,
) -> PipelineDescriptorView {
    PipelineDescriptorView {
        label: None,
        layout: seq![layout],
        vertex: VertexStateView {
            shader: fullscreen_shader,
            entry_point: Some(ShaderEntryPoint::FullscreenVertex),
            shader_defs: Seq::empty(),
        },
        fragment: Some(
            crate::pipeline::FragmentStateView {
                shader: fragment_shader,
                entry_point: None,
                shader_defs: Seq::empty(),
                targets: seq![
                    Some(
                        ColorTargetState {
                            format: BLOOM_TEXTURE_FORMAT,
                            blend: None,
                            write_mask: ColorWrites::All,
                        },
                    ),
                ],
            },
        ),
    }
}

/// The base descriptor every upsampling permutation starts from: the
/// fullscreen vertex stage and a fragment stage entered at the upsampling
/// entry point, target left for specialization.
pub open spec fn upsampling_base_view(
    layout: BindGroupLayoutId,
    fullscreen_shader: ShaderId,
    fragment_shader: ShaderId,
) -> PipelineDescriptorView {
    PipelineDescriptorView {
        label: Some(PipelineLabel::BloomUpsamplingPipeline),
        layout: seq![layout],
        vertex: VertexStateView {
            shader: fullscreen_shader,
            entry_point: Some(ShaderEntryPoint::FullscreenVertex),
            shader_defs: Seq::empty(),
        },
        fragment: Some(
            crate::pipeline::FragmentStateView {
                shader: fragment_shader,
                entry_point: Some(ShaderEntryPoint::Upsample),
                shader_defs: Seq::empty(),
                targets: Seq::empty(),
            },
        ),
    }
}

/// The compiled-pipeline handles of one view's downsampling passes.
#[derive(Copy, Clone, PartialEq, Eq, Structural, Debug)]
pub struct BloomDownsamplingPipelineIds {
    pub main: CachedRenderPipelineId,
    pub first: CachedRenderPipelineId,
}

/// The compiled-pipeline handles of one view's upsampling passes.
#[derive(Copy, Clone, PartialEq, Eq, Structural, Debug)]
pub struct UpsamplingPipelineIds {
    pub id_main: CachedRenderPipelineId,
    pub id_final: CachedRenderPipelineId,
}

/// The downsampling half of the bloom effect: its bind group layout, its
/// sampler, and the memo table of its pipeline permutations.
pub struct BloomDownsamplingPipeline {
    pub bind_group_layout: BindGroupLayoutId,
    pub sampler: SamplerId,
    pub specialized_cache: SpecializedCache<BloomDownsamplingSpecializer>,
}

impl BloomDownsamplingPipeline {
    /// Assembles the downsampling pipeline around device-created handles:
    /// the bind group layout, the sampler, and the two shader modules.
    pub fn new(
        bind_group_layout: BindGroupLayoutId,
        sampler: SamplerId,
        fullscreen_shader: ShaderId,
        fragment_shader: ShaderId,
    ) -> (res: Self)
        ensures
            res.bind_group_layout == bind_group_layout,
            res.sampler == sampler,
            res.specialized_cache.entries() == Seq::<
                (BloomDownsamplingKey, CachedRenderPipelineId),
            >::empty(),
            res.specialized_cache.base()@ == downsampling_base_view(
                bind_group_layout,
                fullscreen_shader,
                fragment_shader,
            ),
    {
        let mut layout: Vec<BindGroupLayoutId> = Vec::new();
        layout.push(bind_group_layout);
        let mut targets: Vec<Option<ColorTargetState>> = Vec::new();
        targets.push(
            Some(
                ColorTargetState {
                    format: BLOOM_TEXTURE_FORMAT,
                    blend: None,
                    write_mask: ColorWrites::All,
                },
            ),
        );
        let base_descriptor = RenderPipelineDescriptor {
            label: None,
            layout,
            vertex: VertexState {
                shader: fullscreen_shader,
                entry_point: Some(ShaderEntryPoint::FullscreenVertex),
                shader_defs: Vec::new(),
            },
            fragment: Some(
                FragmentState {
                    shader: fragment_shader,
                    entry_point: None,
                    shader_defs: Vec::new(),
                    targets,
                },
            ),
        };
        proof {
            assert(base_descriptor@ =~= downsampling_base_view(
                bind_group_layout,
                fullscreen_shader,
                fragment_shader,
            ));
        }
        BloomDownsamplingPipeline {
            bind_group_layout,
            sampler,
            specialized_cache: SpecializedCache::new(BloomDownsamplingSpecializer, base_descriptor),
        }
    }
}

/// The upsampling half of the bloom effect: its bind group layout and the
/// memo table of its pipeline permutations.
pub struct BloomUpsamplingPipeline {
    pub bind_group_layout: BindGroupLayoutId,
    pub specialized_cache: SpecializedCache<BloomUpsamplingSpecializer>,
}

impl BloomUpsamplingPipeline {
    /// Assembles the upsampling pipeline around device-created handles: the
    /// bind group layout and the two shader modules.
    pub fn new(
        bind_group_layout: BindGroupLayoutId,
        fullscreen_shader: ShaderId,
        fragment_shader: ShaderId,
    ) -> (res: Self)
        ensures
            res.bind_group_layout == bind_group_layout,
            res.specialized_cache.entries() == Seq::<
                (BloomUpsamplingKey, CachedRenderPipelineId),
            >::empty(),
            res.specialized_cache.base()@ == upsampling_base_view(
                bind_group_layout,
                fullscreen_shader,
                fragment_shader,
            ),
    {
        let mut layout: Vec<BindGroupLayoutId> = Vec::new();
        layout.push(bind_group_layout);
        let base_descriptor = RenderPipelineDescriptor {
            label: Some(PipelineLabel::BloomUpsamplingPipeline),
            layout,
            vertex: VertexState {
                shader: fullscreen_shader,
                entry_point: Some(ShaderEntryPoint::FullscreenVertex),
                shader_defs: Vec::new(),
            },
            fragment: Some(
                FragmentState {
                    shader: fragment_shader,
                    entry_point: Some(ShaderEntryPoint::Upsample),
                    shader_defs: Vec::new(),
                    targets: Vec::new(),
                },
            ),
        };
        proof {
            assert(base_descriptor@ =~= upsampling_base_view(
                bind_group_layout,
                fullscreen_shader,
                fragment_shader,
            ));
        }
        BloomUpsamplingPipeline {
            bind_group_layout,
            specialized_cache: SpecializedCache::new(BloomUpsamplingSpecializer, base_descriptor),
        }
    }
}

/// Specializes the two downsampling permutations one view needs — the first
/// pass and the main pass — for its prefilter and scale settings, and hands
/// back their pipeline handles. Memoized: a permutation already compiled for
/// an earlier view is reused.
pub fn prepare_downsampling_pipeline(
    pipeline: &mut BloomDownsamplingPipeline,
    pipeline_cache: &mut PipelineCache,
    prefilter: bool,
    uniform_scale: bool,
) -> (res: Result<BloomDownsamplingPipelineIds, SpecializeError>)
    requires
        old(pipeline).specialized_cache.wf(*old(pipeline_cache)),
        old(pipeline_cache).pipelines().len() + 2 <= u32::MAX,
    ensures
        final(pipeline).specialized_cache.wf(*final(pipeline_cache)),
        final(pipeline).specialized_cache.base() == old(pipeline).specialized_cache.base(),
        final(pipeline).bind_group_layout == old(pipeline).bind_group_layout,
        final(pipeline).sampler == old(pipeline).sampler,
        old(pipeline).specialized_cache.base()@.fragment is Some ==> (res matches Ok(ids) && {
            &&& lookup(
                final(pipeline).specialized_cache.entries(),
                BloomDownsamplingKey { prefilter, first_downsample: false, uniform_scale },
            ) == Some(ids.main)
            &&& lookup(
                final(pipeline).specialized_cache.entries(),
                BloomDownsamplingKey { prefilter, first_downsample: true, uniform_scale },
            ) == Some(ids.first)
        }),
        old(pipeline).specialized_cache.base()@.fragment is None ==> res == Err::<
            BloomDownsamplingPipelineIds,
            SpecializeError,
        >(SpecializeError::MissingFragmentState),
{
    let key_main = BloomDownsamplingKey { prefilter, first_downsample: false, uniform_scale };
    let key_first = BloomDownsamplingKey { prefilter, first_downsample: true, uniform_scale };
    let main = match pipeline.specialized_cache.specialize(pipeline_cache, key_main) {
        Ok(id) => id,
        Err(e) => {
            return Err(e);
        }
    };
    let ghost mid_entries = pipeline.specialized_cache.entries();
    let first = match pipeline.specialized_cache.specialize(pipeline_cache, key_first) {
        Ok(id) => id,
        Err(e) => {
            return Err(e);
        }
    };
    proof {
        if lookup(mid_entries, key_first) is None {
            lemma_lookup_push(
                mid_entries,
                key_first,
                first,
                key_main,
            );
        }
    }
    Ok(BloomDownsamplingPipelineIds { main, first })
}

/// Specializes the two upsampling permutations one view needs — the
/// intra-pyramid pass and the final pass onto the view target — for its
/// composite mode, and hands back their pipeline handles. Memoized like the
/// downsampling permutations.
pub fn prepare_upsampling_pipeline(
    pipeline: &mut BloomUpsamplingPipeline,
    pipeline_cache: &mut PipelineCache,
    composite_mode: BloomCompositeMode,
) -> (res: Result<UpsamplingPipelineIds, SpecializeError>)
    requires
        old(pipeline).specialized_cache.wf(*old(pipeline_cache)),
        old(pipeline_cache).pipelines().len() + 2 <= u32::MAX,
    ensures
        final(pipeline).specialized_cache.wf(*final(pipeline_cache)),
        final(pipeline).specialized_cache.base() == old(pipeline).specialized_cache.base(),
        final(pipeline).bind_group_layout == old(pipeline).bind_group_layout,
        old(pipeline).specialized_cache.base()@.fragment is Some ==> (res matches Ok(ids) && {
            &&& lookup(
                final(pipeline).specialized_cache.entries(),
                BloomUpsamplingKey { composite_mode, final_pipeline: false },
            ) == Some(ids.id_main)
            &&& lookup(
                final(pipeline).specialized_cache.entries(),
                BloomUpsamplingKey { composite_mode, final_pipeline: true },
            ) == Some(ids.id_final)
        }),
        old(pipeline).specialized_cache.base()@.fragment is None ==> res == Err::<
            UpsamplingPipelineIds,
            SpecializeError,
        >(SpecializeError::MissingFragmentState),
{
    let key_main = BloomUpsamplingKey { composite_mode, final_pipeline: false };
    let key_final = BloomUpsamplingKey { composite_mode, final_pipeline: true };
    let id_main = match pipeline.specialized_cache.specialize(pipeline_cache, key_main) {
        Ok(id) => id,
        Err(e) => {
            return Err(e);
        }
    };
    let ghost mid_entries = pipeline.specialized_cache.entries();
    let id_final = match pipeline.specialized_cache.specialize(pipeline_cache, key_final) {
        Ok(id) => id,
        Err(e) => {
            return Err(e);
        }
    };
    proof {
        if lookup(mid_entries, key_final) is None {
            lemma_lookup_push(
                mid_entries,
                key_final,
                id_final,
                key_main,
            );
        }
    }
    Ok(UpsamplingPipelineIds { id_main, id_final })
}

} // verus!
