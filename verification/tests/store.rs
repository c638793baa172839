use render_graph::buffer::{Buffer, BufferDescriptor, BufferUsage};
use render_graph::resource::{
    DeferredResourceInit, InternedRenderLabel, RenderResourceInit, RenderResourceMeta,
    SimpleResourceStore,
};
use render_graph::texture::{Texture, TextureDescriptor, TextureFormat};

fn texture_meta(descriptor: Option<TextureDescriptor>, id: u64) -> RenderResourceMeta<Texture> {
    RenderResourceMeta { descriptor, resource: Texture { id } }
}

#[test]
fn eager_insert_is_resolvable_at_once() {
    let mut store: SimpleResourceStore<Texture> = SimpleResourceStore::new();
    let descriptor = TextureDescriptor { width: 16, height: 16, format: TextureFormat::Rgba8UnormSrgb };
    store.insert(0, RenderResourceInit::Eager(texture_meta(Some(descriptor), 11)));
    let meta = store.get(0).expect("eager resource must be current");
    assert_eq!(meta.descriptor, Some(descriptor));
    assert_eq!(meta.resource, Texture { id: 11 });
}

#[test]
fn undeclared_index_resolves_to_nothing() {
    let mut store: SimpleResourceStore<Texture> = SimpleResourceStore::new();
    store.insert(0, RenderResourceInit::Eager(texture_meta(None, 1)));
    assert!(store.get(1).is_none());
}

#[test]
fn deferred_buffer_absent_before_realization_and_realized_after() {
    let mut store: SimpleResourceStore<Buffer> = SimpleResourceStore::new();
    let descriptor = BufferDescriptor { size: 64, usage: BufferUsage::Uniform };
    store.insert(
        3,
        RenderResourceInit::Deferred(DeferredResourceInit { descriptor: Some(descriptor) }),
    );
    assert!(store.get(3).is_none());
    store.init_deferred(&|_key: u16, _d: &Option<BufferDescriptor>| Buffer { id: 7 });
    let meta = store.get(3).expect("realized resource must be current");
    assert_eq!(meta.descriptor, Some(descriptor));
    assert_eq!(meta.resource, Buffer { id: 7 });
}

#[test]
fn realization_hands_each_slot_its_own_data() {
    let mut store: SimpleResourceStore<Texture> = SimpleResourceStore::new();
    store.insert(2, RenderResourceInit::Deferred(DeferredResourceInit { descriptor: None }));
    store.insert(
        5,
        RenderResourceInit::Deferred(
            DeferredResourceInit {
                descriptor: Some(
                    TextureDescriptor { width: 8, height: 8, format: TextureFormat::Depth32Float },
                ),
            },
        ),
    );
    store.init_deferred(
        &|key: u16, _d: &Option<TextureDescriptor>| Texture { id: key as u64 * 100 },
    );
    assert_eq!(store.get(2).unwrap().resource, Texture { id: 200 });
    assert_eq!(store.get(5).unwrap().resource, Texture { id: 500 });
}

#[test]
fn mixed_inserts_all_resolve_after_realization() {
    let mut store: SimpleResourceStore<Texture> = SimpleResourceStore::new();
    store.insert(0, RenderResourceInit::Eager(texture_meta(None, 10)));
    store.insert(1, RenderResourceInit::Deferred(DeferredResourceInit { descriptor: None }));
    store.insert(2, RenderResourceInit::Eager(texture_meta(None, 12)));
    assert!(store.get(1).is_none());
    store.init_deferred(&|_key: u16, _d: &Option<TextureDescriptor>| Texture { id: 99 });
    assert_eq!(store.get(0).unwrap().resource, Texture { id: 10 });
    assert_eq!(store.get(1).unwrap().resource, Texture { id: 99 });
    assert_eq!(store.get(2).unwrap().resource, Texture { id: 12 });
}

#[test]
fn retention_round_trip_keeps_descriptor_and_data() {
    let mut store: SimpleResourceStore<Texture> = SimpleResourceStore::new();
    let descriptor = TextureDescriptor { width: 32, height: 32, format: TextureFormat::Rgba16Float };
    let label = InternedRenderLabel { value: 4 };
    store.insert(6, RenderResourceInit::Eager(texture_meta(Some(descriptor), 42)));
    store.mark_retain(6, label);
    store.reset();
    assert!(store.get(6).is_none());
    let retained = store.get_retained(label).expect("marked resource must be retained");
    assert_eq!(retained.descriptor, Some(descriptor));
    assert_eq!(retained.resource, Texture { id: 42 });
}

#[test]
fn unmarked_label_is_absent_after_reset() {
    let mut store: SimpleResourceStore<Texture> = SimpleResourceStore::new();
    store.insert(0, RenderResourceInit::Eager(texture_meta(None, 1)));
    store.reset();
    assert!(store.get_retained(InternedRenderLabel { value: 0 }).is_none());
}

#[test]
fn retention_lasts_exactly_one_frame() {
    let mut store: SimpleResourceStore<Texture> = SimpleResourceStore::new();
    let label = InternedRenderLabel { value: 9 };
    store.insert(0, RenderResourceInit::Eager(texture_meta(None, 5)));
    store.mark_retain(0, label);
    store.reset();
    assert!(store.get_retained(label).is_some());
    store.insert(0, RenderResourceInit::Eager(texture_meta(None, 6)));
    store.reset();
    assert!(store.get_retained(label).is_none());
}

#[test]
fn later_mark_for_a_label_silently_replaces_the_earlier() {
    let mut store: SimpleResourceStore<Texture> = SimpleResourceStore::new();
    let label = InternedRenderLabel { value: 1 };
    store.insert(0, RenderResourceInit::Eager(texture_meta(None, 100)));
    store.insert(1, RenderResourceInit::Eager(texture_meta(None, 200)));
    store.mark_retain(0, label);
    store.mark_retain(1, label);
    store.reset();
    assert_eq!(store.get_retained(label).unwrap().resource, Texture { id: 200 });
}

#[test]
fn take_retained_removes_the_binding() {
    let mut store: SimpleResourceStore<Texture> = SimpleResourceStore::new();
    let label = InternedRenderLabel { value: 2 };
    store.insert(0, RenderResourceInit::Eager(texture_meta(None, 3)));
    store.mark_retain(0, label);
    store.reset();
    let taken = store.take_retained(label).expect("retained resource must be takeable");
    assert_eq!(taken.resource, Texture { id: 3 });
    assert!(store.get_retained(label).is_none());
    assert!(store.take_retained(label).is_none());
}

#[test]
fn default_store_is_empty() {
    let store: SimpleResourceStore<Buffer> = Default::default();
    assert!(store.get(0).is_none());
    assert!(store.get_retained(InternedRenderLabel { value: 0 }).is_none());
}

#[test]
fn get_data_resolves_by_slot_index() {
    let mut store: SimpleResourceStore<Texture> = SimpleResourceStore::new();
    store.insert(4, RenderResourceInit::Eager(texture_meta(None, 21)));
    let id = render_graph::RenderResourceId { index: 4, generation: 3 };
    let meta = store.get_data(id).expect("resolution goes by slot index");
    assert_eq!(meta.resource, Texture { id: 21 });
}

#[test]
fn a_marked_but_never_realized_resource_is_not_retained() {
    let mut store: SimpleResourceStore<Texture> = SimpleResourceStore::new();
    let label = InternedRenderLabel { value: 5 };
    store.insert(0, RenderResourceInit::Deferred(DeferredResourceInit { descriptor: None }));
    store.mark_retain(0, label);
    // The frame ends without realizing the queue: only current resources are
    // promoted, so the label stays cold.
    store.reset();
    assert!(store.get_retained(label).is_none());
}
