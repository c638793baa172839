use render_graph::bind_group::{BindGroupLayoutId, RenderBindGroup, RenderBindGroupDescriptor};
use render_graph::buffer::{Buffer, BufferDescriptor};
use render_graph::dependency::{read, RenderDependencies};
use render_graph::graph::{GraphPhase, NodeContext, NodeContextError, RenderGraph,
    RenderGraphBuilder};
use render_graph::resource::{
    DeferredResourceInit, InternedRenderLabel, RenderResourceInit, RenderResourceMeta,
};
use render_graph::texture::{Texture, TextureDescriptor, TextureFormat};

fn eager_texture(descriptor: Option<TextureDescriptor>, id: u64) -> RenderResourceInit<Texture> {
    RenderResourceInit::Eager(RenderResourceMeta { descriptor, resource: Texture { id } })
}

fn make_texture(_key: u16, _descriptor: &Option<TextureDescriptor>) -> Texture {
    Texture { id: 1000 }
}

fn make_buffer(_key: u16, _descriptor: &Option<BufferDescriptor>) -> Buffer {
    Buffer { id: 2000 }
}

#[test]
fn undeclared_access_fails_even_though_the_resource_exists() {
    let mut builder = RenderGraphBuilder::new(RenderGraph::new());
    let descriptor = TextureDescriptor {
        width: 512,
        height: 512,
        format: TextureFormat::Rgba16Float,
    };
    let handle = builder.new_resource(eager_texture(Some(descriptor), 1));
    assert_eq!(handle.id.index, 0);
    let mut graph = builder.finish();
    graph.init_queued_resources(&make_texture, &make_buffer);
    let ctx = NodeContext::new(&graph, RenderDependencies::new());
    assert_eq!(ctx.get(handle), Err(NodeContextError::UndeclaredDependency));
}

#[test]
fn undeclared_access_fails_whether_or_not_the_resource_exists() {
    let mut builder = RenderGraphBuilder::new(RenderGraph::new());
    let existing = builder.new_resource(eager_texture(None, 1));
    let mut graph = builder.finish();
    graph.init_queued_resources(&make_texture, &make_buffer);
    let declared_only: render_graph::resource::RenderHandle<Texture> =
        render_graph::resource::RenderHandle::of_id(render_graph::RenderResourceId {
            index: 40,
            generation: 0,
        });
    let ctx = NodeContext::new(&graph, RenderDependencies::of(read(&declared_only)));
    // Not declared, though it exists.
    assert_eq!(ctx.get(existing), Err(NodeContextError::UndeclaredDependency));
    // Declared, though nothing stands at its slot.
    assert_eq!(ctx.get(declared_only), Err(NodeContextError::ResourceNotRealized));
}

#[test]
fn declared_access_resolves_the_realized_resource() {
    let mut builder = RenderGraphBuilder::new(RenderGraph::new());
    let handle = builder.new_resource(eager_texture(None, 77));
    let mut graph = builder.finish();
    graph.init_queued_resources(&make_texture, &make_buffer);
    let ctx = NodeContext::new(&graph, RenderDependencies::of(read(&handle)));
    assert_eq!(ctx.get(handle), Ok(&Texture { id: 77 }));
}

#[test]
fn deferred_resource_is_realized_against_the_device_callback() {
    let mut builder = RenderGraphBuilder::new(RenderGraph::new());
    let descriptor = TextureDescriptor { width: 8, height: 8, format: TextureFormat::Depth32Float };
    let handle = builder.new_resource(
        RenderResourceInit::<Texture>::Deferred(
            DeferredResourceInit { descriptor: Some(descriptor) },
        ),
    );
    let mut graph = builder.finish();
    graph.init_queued_resources(
        &|key: u16, d: &Option<TextureDescriptor>| {
            assert_eq!(*d, Some(TextureDescriptor {
                width: 8,
                height: 8,
                format: TextureFormat::Depth32Float,
            }));
            Texture { id: key as u64 + 500 }
        },
        &make_buffer,
    );
    let ctx = NodeContext::new(&graph, RenderDependencies::of(read(&handle)));
    assert_eq!(ctx.get(handle), Ok(&Texture { id: 500 }));
}

#[test]
fn builder_allocates_fresh_indices_across_kinds() {
    let mut builder = RenderGraphBuilder::new(RenderGraph::new());
    let t = builder.new_resource(eager_texture(None, 1));
    let b = builder.new_resource(
        RenderResourceInit::<Buffer>::Eager(
            RenderResourceMeta { descriptor: None, resource: Buffer { id: 2 } },
        ),
    );
    let t2 = builder.new_resource(eager_texture(None, 3));
    assert_eq!(t.id.index, 0);
    assert_eq!(b.id.index, 1);
    assert_eq!(t2.id.index, 2);
    assert_eq!(t.id.generation, 0);
}

#[test]
fn descriptors_are_consultable_during_building() {
    let mut builder = RenderGraphBuilder::new(RenderGraph::new());
    let descriptor = TextureDescriptor { width: 4, height: 2, format: TextureFormat::Rg11b10UFloat };
    let described = builder.new_resource(eager_texture(Some(descriptor), 1));
    let bare = builder.new_resource(eager_texture(None, 2));
    assert_eq!(builder.get_descriptor_of(described), Some(&descriptor));
    assert_eq!(builder.get_descriptor_of(bare), None);
    assert_eq!(builder.descriptor_of(described), &descriptor);
}

#[test]
fn retention_round_trip_through_the_graph() {
    let label = InternedRenderLabel { value: 8 };
    let descriptor = TextureDescriptor { width: 64, height: 64, format: TextureFormat::Rgba16Float };

    let mut builder = RenderGraphBuilder::new(RenderGraph::new());
    let handle = builder.new_resource(eager_texture(Some(descriptor), 9));
    builder.mark_retain(label, handle);
    let mut graph = builder.finish();
    graph.init_queued_resources(&make_texture, &make_buffer);
    graph.reset();
    assert_eq!(graph.phase, GraphPhase::Idle);

    let mut builder = RenderGraphBuilder::new(graph);
    let recovered = builder.get_retained::<Texture>(label).expect("label was saved last frame");
    assert_eq!(recovered.id.index, 0);
    assert_eq!(builder.get_descriptor_of(recovered), Some(&descriptor));
    assert!(builder.get_retained::<Texture>(InternedRenderLabel { value: 99 }).is_none());
}

#[test]
fn saved_label_not_remarked_is_dropped_after_the_next_reset() {
    let label = InternedRenderLabel { value: 3 };

    let mut builder = RenderGraphBuilder::new(RenderGraph::new());
    let handle = builder.new_resource(eager_texture(None, 1));
    builder.mark_retain(label, handle);
    let mut graph = builder.finish();
    graph.init_queued_resources(&make_texture, &make_buffer);
    graph.reset();

    // Frame N + 1 neither recovers nor re-marks the label.
    let builder = RenderGraphBuilder::new(graph);
    let mut graph = builder.finish();
    graph.init_queued_resources(&make_texture, &make_buffer);
    graph.reset();

    let mut builder = RenderGraphBuilder::new(graph);
    assert!(builder.get_retained::<Texture>(label).is_none());
}

#[test]
fn bind_group_access_control_mirrors_resource_access_control() {
    let mut builder = RenderGraphBuilder::new(RenderGraph::new());
    let group = builder.new_bind_group(
        RenderBindGroupDescriptor { layout: BindGroupLayoutId { value: 1 }, entries: Vec::new() },
    );
    let mut graph = builder.finish();
    graph.init_queued_resources(&make_texture, &make_buffer);

    let ctx = NodeContext::new(&graph, RenderDependencies::new());
    assert!(matches!(
        ctx.get_bind_group(group),
        Err(NodeContextError::UndeclaredDependency)
    ));

    let ctx = NodeContext::new(&graph, RenderDependencies::of(&group));
    let descriptor = ctx.get_bind_group(group).expect("declared and registered");
    assert_eq!(descriptor.layout, BindGroupLayoutId { value: 1 });

    let unknown = RenderBindGroup { id: 123 };
    let ctx = NodeContext::new(&graph, RenderDependencies::of(&unknown));
    assert!(matches!(ctx.get_bind_group(unknown), Err(NodeContextError::UnknownBindGroup)));
}

#[test]
fn reset_restarts_the_slot_allocator() {
    let mut builder = RenderGraphBuilder::new(RenderGraph::new());
    let first = builder.new_resource(eager_texture(None, 1));
    assert_eq!(first.id.index, 0);
    let mut graph = builder.finish();
    graph.init_queued_resources(&make_texture, &make_buffer);
    graph.reset();
    assert_eq!(graph.next_id, 0);
    let mut builder = RenderGraphBuilder::new(graph);
    let next_frame = builder.new_resource(eager_texture(None, 2));
    assert_eq!(next_frame.id.index, 0);
}

#[test]
fn write_declared_handle_resolves_through_the_context() {
    let mut builder = RenderGraphBuilder::new(RenderGraph::new());
    let mut handle = builder.new_resource(eager_texture(None, 31));
    let deps = RenderDependencies::of(render_graph::dependency::read_write(&mut handle));
    assert_eq!(handle.id.generation, 1);
    let mut graph = builder.finish();
    graph.init_queued_resources(&make_texture, &make_buffer);
    let ctx = NodeContext::new(&graph, deps);
    // Resolution goes by slot index, so the bumped handle still resolves.
    assert_eq!(ctx.get(handle), Ok(&Texture { id: 31 }));
}
