//! Pipeline descriptors, the pipeline cache, and specialization.
//!
//! A specializer derives a concrete pipeline descriptor from a base
//! description plus a small discrete key. The [`SpecializedCache`] memoizes
//! compiled-pipeline handles by canonicalized key, so that repeated requests
//! for the same permutation compile nothing and return the same handle.

use vstd::prelude::*;

use crate::bind_group::BindGroupLayoutId;
use crate::keyed::{distinct_keys, lookup};
use crate::keyed::{lemma_lookup_at, lemma_lookup_none_of_absent, lemma_lookup_push};
use crate::texture::TextureFormat;

verus! {

/// A handle to a shader module asset.
#[derive(Copy, Clone, PartialEq, Eq, Hash, Structural, Debug)]
pub struct ShaderId {
    pub value: u64,
}

/// A handle to a pipeline the cache has queued for compilation.
#[derive(Copy, Clone, PartialEq, Eq, Hash, Structural, Debug)]
pub struct CachedRenderPipelineId {
    pub id: u32,
}

/// A debug label a pipeline is created under.
#[derive(Copy, Clone, PartialEq, Eq, Hash, Structural, Debug)]
pub enum PipelineLabel {
    BloomDownsamplingPipeline,
    BloomDownsamplingPipelineFirst,
    BloomUpsamplingPipeline,
}

/// A shader entry point.
#[derive(Copy, Clone, PartialEq, Eq, Hash, Structural, Debug)]
pub enum ShaderEntryPoint {
    FullscreenVertex,
    Downsample,
    DownsampleFirst,
    Upsample,
}

/// A compile-time switch handed to the shader.
#[derive(Copy, Clone, PartialEq, Eq, Hash, Structural, Debug)]
pub enum ShaderDef {
    FirstDownsample,
    UseThreshold,
    UniformScale,
}

/// A multiplier in a blend equation.
#[derive(Copy, Clone, PartialEq, Eq, Hash, Structural, Debug)]
pub enum BlendFactor {
    Zero,
    One,
    Constant,
    OneMinusConstant,
}

/// How source and destination are combined.
#[derive(Copy, Clone, PartialEq, Eq, Hash, Structural, Debug)]
pub enum BlendOperation {
    Add,
}

/// One half of a blend state: how one channel group is blended.
#[derive(Copy, Clone, PartialEq, Eq, Hash, Structural, Debug)]
pub struct BlendComponent {
    pub src_factor: BlendFactor,
    pub dst_factor: BlendFactor,
    pub operation: BlendOperation,
}

/// The full blend state of a color target.
#[derive(Copy, Clone, PartialEq, Eq, Hash, Structural, Debug)]
pub struct BlendState {
    pub color: BlendComponent,
    pub alpha: BlendComponent,
}

/// Which channels a pass may write.
#[derive(Copy, Clone, PartialEq, Eq, Hash, Structural, Debug)]
pub enum ColorWrites {
    All,
}

/// The color target a fragment stage renders to.
#[derive(Copy, Clone, PartialEq, Eq, Hash, Structural, Debug)]
pub struct ColorTargetState {
    pub format: TextureFormat,
    pub blend: Option<BlendState>,
    pub write_mask: ColorWrites,
}

/// The vertex stage of a render pipeline.
#[derive(PartialEq, Eq, Debug)]
pub struct VertexState {
    pub shader: ShaderId,
    pub entry_point: Option<ShaderEntryPoint>,
    pub shader_defs: Vec<ShaderDef>,
}

/// The mathematical content of a vertex stage.
#[verifier::ext_equal]
pub struct VertexStateView {
    pub shader: ShaderId,
    pub entry_point: Option<ShaderEntryPoint>,
    pub shader_defs: Seq<ShaderDef>,
}

impl View for VertexState {
    type V = VertexStateView;

    open spec fn view(&self) -> VertexStateView {
        VertexStateView {
            shader: self.shader,
            entry_point: self.entry_point,
            shader_defs: self.shader_defs@,
        }
    }
}

/// The fragment stage of a render pipeline.
#[derive(PartialEq, Eq, Debug)]
pub struct FragmentState {
    pub shader: ShaderId,
    pub entry_point: Option<ShaderEntryPoint>,
    pub shader_defs: Vec<ShaderDef>,
    pub targets: Vec<Option<ColorTargetState>>,
}

/// The mathematical content of a fragment stage.
#[verifier::ext_equal]
pub struct FragmentStateView {
    pub shader: ShaderId,
    pub entry_point: Option<ShaderEntryPoint>,
    pub shader_defs: Seq<ShaderDef>,
    pub targets: Seq<Option<ColorTargetState>>,
}

impl View for FragmentState {
    type V = FragmentStateView;

    open spec fn view(&self) -> FragmentStateView {
        FragmentStateView {
            shader: self.shader,
            entry_point: self.entry_point,
            shader_defs: self.shader_defs@,
            targets: self.targets@,
        }
    }
}

/// The full declarative description of a render pipeline.
#[derive(PartialEq, Eq, Debug)]
pub struct RenderPipelineDescriptor {
    pub label: Option<PipelineLabel>,
    pub layout: Vec<BindGroupLayoutId>,
    pub vertex: VertexState,
    pub fragment: Option<FragmentState>,
}

/// The mathematical content of a pipeline descriptor.
#[verifier::ext_equal]
pub struct PipelineDescriptorView {
    pub label: Option<PipelineLabel>,
    pub layout: Seq<BindGroupLayoutId>,
    pub vertex: VertexStateView,
    pub fragment: Option<FragmentStateView>,
}

impl View for RenderPipelineDescriptor {
    type V = PipelineDescriptorView;

    open spec fn view(&self) -> PipelineDescriptorView {
        PipelineDescriptorView {
            label: self.label,
            layout: self.layout@,
            vertex: self.vertex@,
            fragment: match self.fragment {
                Some(f) => Some(f@),
                None => None,
            },
        }
    }
}

/// Why a specialization failed. Pipeline compilation failure is an
/// environment condition, surfaced as a typed result, never a panic.
#[derive(Copy, Clone, PartialEq, Eq, Structural, Debug)]
pub enum SpecializeError {
    /// The key demands fragment-stage changes, but the base descriptor has
    /// no fragment state.
    MissingFragmentState,
}

/// A key a specializer canonicalizes: comparable in executable code with the
/// meaning its fields give it.
pub trait SpecializerKey: Sized + Copy {
    fn key_eq(&self, other: &Self) -> (res: bool)
        ensures
            res == (*self == *other),
    ;
}

/// Derives a concrete pipeline descriptor from a base description plus a
/// key. Canonicalization is a function of the key alone, so a memo table
/// keyed by canonical keys is sound.
pub trait Specializer: Sized {
    type Key: SpecializerKey;

    /// The canonical form of a key.
    spec fn spec_canonical(self, key: Self::Key) -> Self::Key;

    /// Whether specialization succeeds on this key and base descriptor.
    spec fn spec_ok(self, key: Self::Key, input: PipelineDescriptorView) -> bool;

    /// The error reported when it does not.
    spec fn spec_err(self, key: Self::Key, input: PipelineDescriptorView) -> SpecializeError;

    /// What holds of the specialized descriptor.
    spec fn spec_output(
        self,
        key: Self::Key,
        input: PipelineDescriptorView,
        output: PipelineDescriptorView,
    ) -> bool;

    fn specialize(&self, key: Self::Key, descriptor: RenderPipelineDescriptor) -> (res: Result<
        (Self::Key, RenderPipelineDescriptor),
        SpecializeError,
    >)
        ensures
            self.spec_ok(key, descriptor@) ==> (res matches Ok(p) && p.0 == self.spec_canonical(
                key,
            ) && self.spec_output(key, descriptor@, p.1@)),
            !self.spec_ok(key, descriptor@) ==> res == Err::<
                (Self::Key, RenderPipelineDescriptor),
                SpecializeError,
            >(self.spec_err(key, descriptor@)),
    ;
}

/// The compiled-pipeline registry: it hands out one fresh handle per queued
/// descriptor and remembers what each handle was queued for.
pub struct PipelineCache {
    pipelines: Vec<RenderPipelineDescriptor>,
}

impl PipelineCache {
    /// The queued descriptors; a handle's id is its position here.
    pub closed spec fn pipelines(self) -> Seq<RenderPipelineDescriptor> {
        self.pipelines@
    }

    /// An empty registry.
    pub fn new() -> (cache: Self)
        ensures
            cache.pipelines() == Seq::<RenderPipelineDescriptor>::empty(),
    {
        PipelineCache { pipelines: Vec::new() }
    }

    /// Queues a pipeline for compilation and returns its fresh handle.
    pub fn queue_render_pipeline(&mut self, descriptor: RenderPipelineDescriptor) -> (id:
        CachedRenderPipelineId)
        requires
            old(self).pipelines().len() < u32::MAX,
        ensures
            id.id == old(self).pipelines().len(),
            final(self).pipelines() == old(self).pipelines().push(descriptor),
    {
        let id = CachedRenderPipelineId { id: self.pipelines.len() as u32 };
        self.pipelines.push(descriptor);
        id
    }

    /// How many pipelines have been queued.
    pub fn pipeline_count(&self) -> (n: usize)
        ensures
            n == self.pipelines().len(),
    {
        self.pipelines.len()
    }

    /// The descriptor a handle was queued for, if the handle is known.
    pub fn get_descriptor(&self, id: CachedRenderPipelineId) -> (res: Option<
        &RenderPipelineDescriptor,
    >)
        ensures
            match res {
                Some(descriptor) => id.id < self.pipelines().len() && *descriptor
                    == self.pipelines()[id.id as int],
                None => id.id >= self.pipelines().len(),
            },
    {
        if (id.id as usize) < self.pipelines.len() {
            Some(&self.pipelines[id.id as usize])
        } else {
            None
        }
    }
}

/// A memo table of compiled-pipeline handles, keyed by canonicalized
/// specialization key over one base descriptor.
pub struct SpecializedCache<S: Specializer> {
    specializer: S,
    base_descriptor: RenderPipelineDescriptor,
    entries: Vec<(S::Key, CachedRenderPipelineId)>,
}

impl<S: Specializer> SpecializedCache<S> {
    /// The specializer the cache consults.
    pub closed spec fn spec_specializer(self) -> S {
        self.specializer
    }

    /// The base descriptor every specialization starts from.
    pub closed spec fn base(self) -> RenderPipelineDescriptor {
        self.base_descriptor
    }

    /// The memoized handles, keyed by canonical key.
    pub closed spec fn entries(self) -> Seq<(S::Key, CachedRenderPipelineId)> {
        self.entries@
    }

    /// Keys are memoized at most once, every memoized handle is known to the
    /// pipeline cache, and no two keys share a handle.
    pub open spec fn wf(self, cache: PipelineCache) -> bool {
        &&& distinct_keys(self.entries())
        &&& forall|i: int|
            0 <= i < self.entries().len() ==> self.entries()[i].1.id < cache.pipelines().len()
        &&& forall|i: int, j: int|
            0 <= i < j < self.entries().len() ==> self.entries()[i].1.id != self.entries()[j].1.id
    }

    /// A fresh cache over a specializer and its base descriptor.
    pub fn new(specializer: S, base_descriptor: RenderPipelineDescriptor) -> (cache: Self)
        ensures
            cache.spec_specializer() == specializer,
            cache.base() == base_descriptor,
            cache.entries() == Seq::<(S::Key, CachedRenderPipelineId)>::empty(),
    {
        SpecializedCache { specializer, base_descriptor, entries: Vec::new() }
    }

    /// Specializes the base descriptor for `key` and returns the pipeline
    /// handle, memoized by canonical key: a key already seen returns its
    /// memoized handle and queues nothing; a new key queues the specialized
    /// descriptor and memoizes the fresh handle; a failing specialization
    /// reports the error and changes nothing.
    pub fn specialize(&mut self, cache: &mut PipelineCache, key: S::Key) -> (res: Result<
        CachedRenderPipelineId,
        SpecializeError,
    >)
        requires
            old(self).wf(*old(cache)),
            old(cache).pipelines().len() < u32::MAX,
        ensures
            final(self).wf(*final(cache)),
            final(self).spec_specializer() == old(self).spec_specializer(),
            final(self).base() == old(self).base(),
            specialize_step(*old(self), *old(cache), key, *final(self), *final(cache), res),
            res matches Ok(id) ==> lookup(
                final(self).entries(),
                old(self).spec_specializer().spec_canonical(key),
            ) == Some(id),
    {
        let specialized = self.specializer.specialize(key, clone_descriptor(&self.base_descriptor));
        match specialized {
            Err(e) => Err(e),
            Ok((canonical, descriptor)) => {
                let n = self.entries.len();
                let mut i: usize = 0;
                while i < n
                    invariant
                        *self == *old(self),
                        *cache == *old(cache),
                        old(self).wf(*old(cache)),
                        self.specializer.spec_ok(key, old(self).base()@),
                        canonical == self.specializer.spec_canonical(key),
                        n == self.entries().len(),
                        i <= n,
                        forall|j: int| 0 <= j < i ==> self.entries()[j].0 != canonical,
                    decreases n - i,
                {
                    let entry = &self.entries[i];
                    if entry.0.key_eq(&canonical) {
                        proof {
                            lemma_lookup_at(self.entries(), i as int);
                        }
                        return Ok(entry.1);
                    }
                    i += 1;
                }
                proof {
                    lemma_lookup_none_of_absent(self.entries(), canonical);
                }
                let id = cache.queue_render_pipeline(descriptor);
                proof {
                    crate::keyed::lemma_push_distinct(self.entries(), canonical, id);
                    lemma_lookup_push(self.entries(), canonical, id, canonical);
                }
                self.entries.push((canonical, id));
                Ok(id)
            }
        }
    }
}

/// How one `specialize` call relates the states before and after it to its
/// result: an error changes nothing; a memoized canonical key returns its
/// memoized handle and changes nothing; a new canonical key returns the
/// handle freshly queued for the specialized descriptor and memoizes it.
pub open spec fn specialize_step<S: Specializer>(
    cache0: SpecializedCache<S>,
    pipelines0: PipelineCache,
    key: S::Key,
    cache1: SpecializedCache<S>,
    pipelines1: PipelineCache,
    res: Result<CachedRenderPipelineId, SpecializeError>,
) -> bool {
    if !cache0.spec_specializer().spec_ok(key, cache0.base()@) {
        &&& res == Err::<CachedRenderPipelineId, SpecializeError>(
            cache0.spec_specializer().spec_err(key, cache0.base()@),
        )
        &&& cache1 == cache0
        &&& pipelines1 == pipelines0
    } else {
        let canonical = cache0.spec_specializer().spec_canonical(key);
        match lookup(cache0.entries(), canonical) {
            Some(id) => {
                &&& res == Ok::<CachedRenderPipelineId, SpecializeError>(id)
                &&& cache1 == cache0
                &&& pipelines1 == pipelines0
            },
            None => {
                &&& (res matches Ok(id) && id.id == pipelines0.pipelines().len()
                    && cache1.entries() == cache0.entries().push((canonical, id)))
                &&& pipelines1.pipelines().len() == pipelines0.pipelines().len() + 1
                &&& (forall|j: int|
                    0 <= j < pipelines0.pipelines().len() ==> pipelines1.pipelines()[j]
                        == pipelines0.pipelines()[j])
                &&& cache0.spec_specializer().spec_output(
                    key,
                    cache0.base()@,
                    pipelines1.pipelines().last()@,
                )
            },
        }
    }
}

/// Memoization: a second specialization with the same key, from the state
/// the first left behind, returns the same pipeline handle and changes
/// nothing — the permutation is compiled at most once.
pub proof fn lemma_specialization_memoized<S: Specializer>(
    cache0: SpecializedCache<S>,
    pipelines0: PipelineCache,
    cache1: SpecializedCache<S>,
    pipelines1: PipelineCache,
    res1: Result<CachedRenderPipelineId, SpecializeError>,
    cache2: SpecializedCache<S>,
    pipelines2: PipelineCache,
    res2: Result<CachedRenderPipelineId, SpecializeError>,
    key: S::Key,
)
    requires
        cache0.wf(pipelines0),
        specialize_step(cache0, pipelines0, key, cache1, pipelines1, res1),
        cache1.spec_specializer() == cache0.spec_specializer(),
        cache1.base() == cache0.base(),
        specialize_step(cache1, pipelines1, key, cache2, pipelines2, res2),
    ensures
        res2 == res1,
        cache2 == cache1,
        pipelines2 == pipelines1,
{
    let s = cache0.spec_specializer();
    if s.spec_ok(key, cache0.base()@) {
        let canonical = s.spec_canonical(key);
        match lookup(cache0.entries(), canonical) {
            Some(id) => {}
            None => {
                let id = res1.unwrap();
                lemma_lookup_push(cache0.entries(), canonical, id, canonical);
            }
        }
    }
}

/// Distinct canonical keys receive distinct pipeline handles: specializing
/// for two keys that canonicalize differently, one call after the other,
/// yields two different handles.
pub proof fn lemma_distinct_keys_distinct_pipelines<S: Specializer>(
    cache0: SpecializedCache<S>,
    pipelines0: PipelineCache,
    key1: S::Key,
    cache1: SpecializedCache<S>,
    pipelines1: PipelineCache,
    id1: CachedRenderPipelineId,
    key2: S::Key,
    cache2: SpecializedCache<S>,
    pipelines2: PipelineCache,
    id2: CachedRenderPipelineId,
)
    requires
        cache0.wf(pipelines0),
        cache1.wf(pipelines1),
        specialize_step(
            cache0,
            pipelines0,
            key1,
            cache1,
            pipelines1,
            Ok::<CachedRenderPipelineId, SpecializeError>(id1),
        ),
        specialize_step(
            cache1,
            pipelines1,
            key2,
            cache2,
            pipelines2,
            Ok::<CachedRenderPipelineId, SpecializeError>(id2),
        ),
        cache1.spec_specializer() == cache0.spec_specializer(),
        cache1.base() == cache0.base(),
        cache0.spec_specializer().spec_canonical(key1) != cache0.spec_specializer().spec_canonical(
            key2,
        ),
    ensures
        id1 != id2,
{
    let s = cache0.spec_specializer();
    let c1 = s.spec_canonical(key1);
    let c2 = s.spec_canonical(key2);
    match lookup(cache0.entries(), c1) {
        Some(first_hit) => {
            crate::keyed::lemma_present_of_lookup_some(cache0.entries(), c1);
            let i1 = choose|i: int|
                0 <= i < cache0.entries().len() && #[trigger] cache0.entries()[i] == (c1, id1);
            match lookup(cache1.entries(), c2) {
                Some(second_hit) => {
                    crate::keyed::lemma_present_of_lookup_some(cache1.entries(), c2);
                    let i2 = choose|i: int|
                        0 <= i < cache1.entries().len() && #[trigger] cache1.entries()[i] == (
                        c2,
                        id2,
                        );
                    assert(cache0.entries()[i1].1.id != cache0.entries()[i2].1.id || i1 == i2);
                }
                None => {
                    assert(id1.id < pipelines1.pipelines().len());
                }
            }
        }
        None => {
            match lookup(cache1.entries(), c2) {
                Some(second_hit) => {
                    lemma_lookup_push(cache0.entries(), c1, id1, c2);
                    crate::keyed::lemma_present_of_lookup_some(cache0.entries(), c2);
                    let i2 = choose|i: int|
                        0 <= i < cache0.entries().len() && #[trigger] cache0.entries()[i] == (
                        c2,
                        id2,
                        );
                    assert(id2.id < pipelines0.pipelines().len());
                }
                None => {
                    assert(id2.id == pipelines1.pipelines().len());
                }
            }
        }
    }
}

/// A copy of a pipeline descriptor with the same mathematical content.
fn clone_descriptor(descriptor: &RenderPipelineDescriptor) -> (res: RenderPipelineDescriptor)
    ensures
        res@ == descriptor@,
{
    let mut layout: Vec<BindGroupLayoutId> = Vec::new();
    let mut i: usize = 0;
    while i < descriptor.layout.len()
        invariant
            i <= descriptor.layout@.len(),
            layout@ == descriptor.layout@.take(i as int),
        decreases descriptor.layout@.len() - i,
    {
        layout.push(descriptor.layout[i]);
        proof {
            assert(layout@ =~= descriptor.layout@.take(i + 1));
        }
        i += 1;
    }
    proof {
        assert(layout@ =~= descriptor.layout@);
    }
    let res = RenderPipelineDescriptor {
        label: clone_option_label(&descriptor.label),
        layout,
        vertex: clone_vertex_state(&descriptor.vertex),
        fragment: clone_option_fragment(&descriptor.fragment),
    };
    proof {
        assert(res@ =~= descriptor@);
    }
    res
}

/// A copy of an optional pipeline label.
fn clone_option_label(label: &Option<PipelineLabel>) -> (res: Option<PipelineLabel>)
    ensures
        res == *label,
{
    match label {
        Some(l) => Some(*l),
        None => None,
    }
}

/// A copy of a vertex stage with the same mathematical content.
fn clone_vertex_state(vertex: &VertexState) -> (res: VertexState)
    ensures
        res@ == vertex@,
{
    let res = VertexState {
        shader: vertex.shader,
        entry_point: clone_option_entry(&vertex.entry_point),
        shader_defs: clone_shader_defs(&vertex.shader_defs),
    };
    proof {
        assert(res@ =~= vertex@);
    }
    res
}

/// A copy of an optional entry point.
fn clone_option_entry(entry: &Option<ShaderEntryPoint>) -> (res: Option<ShaderEntryPoint>)
    ensures
        res == *entry,
{
    match entry {
        Some(e) => Some(*e),
        None => None,
    }
}

/// A copy of a shader-switch list.
fn clone_shader_defs(defs: &Vec<ShaderDef>) -> (res: Vec<ShaderDef>)
    ensures
        res@ == defs@,
{
    let mut out: Vec<ShaderDef> = Vec::new();
    let mut i: usize = 0;
    while i < defs.len()
        invariant
            i <= defs@.len(),
            out@ == defs@.take(i as int),
        decreases defs@.len() - i,
    {
        out.push(defs[i]);
        proof {
            assert(out@ =~= defs@.take(i + 1));
        }
        i += 1;
    }
    proof {
        assert(out@ =~= defs@);
    }
    out
}

/// A copy of an optional fragment stage with the same mathematical content.
fn clone_option_fragment(fragment: &Option<FragmentState>) -> (res: Option<FragmentState>)
    ensures
        match res {
            Some(f) => *fragment matches Some(g) && f@ == g@,
            None => *fragment is None,
        },
{
    match fragment {
        Some(f) => {
            let mut targets: Vec<Option<ColorTargetState>> = Vec::new();
            let mut i: usize = 0;
            while i < f.targets.len()
                invariant
                    i <= f.targets@.len(),
                    targets@ == f.targets@.take(i as int),
                decreases f.targets@.len() - i,
            {
                targets.push(f.targets[i]);
                proof {
                    assert(targets@ =~= f.targets@.take(i + 1));
                }
                i += 1;
            }
            proof {
                assert(targets@ =~= f.targets@);
            }
            let res = FragmentState {
                shader: f.shader,
                entry_point: clone_option_entry(&f.entry_point),
                shader_defs: clone_shader_defs(&f.shader_defs),
                targets,
            };
            proof {
                assert(res@ =~= f@);
            }
            Some(res)
        }
        None => None,
    }
}

} // verus!
