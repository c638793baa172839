use render_graph::bind_group::RenderBindGroup;
use render_graph::dependency::{
    read, read_write, render_deps, RenderDependencies, RenderDependency,
};
use render_graph::resource::RenderHandle;
use render_graph::texture::Texture;
use render_graph::RenderResourceId;

fn handle(index: u16, generation: u16) -> RenderHandle<Texture> {
    RenderHandle::of_id(RenderResourceId { index, generation })
}

#[test]
fn read_declaration_leaves_generation_unchanged() {
    let h = handle(4, 0);
    let dep = read(&h);
    assert_eq!(h.id.generation, 0);
    assert!(matches!(dep, RenderDependency::Read(id) if id.index == 4 && id.generation == 0));
}

#[test]
fn read_declaration_grants_access() {
    let h = handle(4, 0);
    let deps = RenderDependencies::of(read(&h));
    assert!(deps.contains_resource(h));
}

#[test]
fn read_write_declaration_bumps_generation_exactly_once() {
    let mut h = handle(7, 0);
    let dep = read_write(&mut h);
    assert_eq!(h.id.generation, 1);
    assert!(matches!(dep, RenderDependency::ReadWrite(id) if id.index == 7 && id.generation == 1));
    let _ = read_write(&mut h);
    assert_eq!(h.id.generation, 2);
}

#[test]
fn read_write_declaration_grants_access_to_the_bumped_handle() {
    let mut h = handle(7, 0);
    let deps = RenderDependencies::of(read_write(&mut h));
    assert!(deps.contains_resource(h));
}

#[test]
fn access_is_by_exact_id_including_generation() {
    let h = handle(3, 0);
    let deps = RenderDependencies::of(read(&h));
    assert!(deps.contains_resource(h));
    assert!(!deps.contains_resource(handle(3, 1)));
    assert!(!deps.contains_resource(handle(2, 0)));
}

#[test]
fn add_many_collects_every_declaration() {
    let a = handle(0, 0);
    let mut b = handle(1, 0);
    let bg = RenderBindGroup { id: 5 };
    let mut deps = RenderDependencies::new();
    deps.add_many(vec![read(&a), read_write(&mut b), RenderDependency::BindGroup(bg)]);
    assert!(deps.contains_resource(a));
    assert!(deps.contains_resource(b));
    assert!(deps.contains_bind_group(bg));
    assert!(!deps.contains_bind_group(RenderBindGroup { id: 6 }));
}

#[test]
fn add_accepts_single_declarations() {
    let a = handle(0, 0);
    let bg = RenderBindGroup { id: 1 };
    let mut deps = RenderDependencies::new();
    deps.add(read(&a));
    deps.add(&bg);
    assert!(deps.contains_resource(a));
    assert!(deps.contains_bind_group(bg));
}

#[test]
fn render_deps_builds_from_a_batch() {
    let a = handle(2, 0);
    let deps = render_deps(vec![read(&a)]);
    assert!(deps.contains_resource(a));
    assert!(!deps.contains_resource(handle(9, 0)));
}

#[test]
fn empty_dependency_set_contains_nothing() {
    let deps = RenderDependencies::new();
    assert!(!deps.contains_resource(handle(0, 0)));
    assert!(!deps.contains_bind_group(RenderBindGroup { id: 0 }));
}
