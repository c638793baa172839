//! Per-node dependency sets and their declaration.
//!
//! Before a node runs, it declares which resources it reads, which it
//! read-writes, and which bind groups it uses. The set is built additively,
//! is immutable once attached to a node, and serves as the access-control
//! list the node's execution context enforces. Declaring a write advances the
//! handle's generation at declaration time: the bumped handle denotes the
//! post-write version of the resource.

use vstd::prelude::*;

use crate::bind_group::RenderBindGroup;
use crate::resource::{RenderHandle, RenderResource, WriteRenderResource};
use crate::RenderResourceId;

verus! {

/// One declared dependency of a node.
#[derive(Copy, Clone, PartialEq, Eq, Structural, Debug)]
pub enum RenderDependency {
    Read(RenderResourceId),
    ReadWrite(RenderResourceId),
    BindGroup(RenderBindGroup),
}

/// Anything that can be turned into a single dependency declaration.
pub trait IntoRenderDependency {
    /// The declaration this value stands for.
    spec fn spec_dep(self) -> RenderDependency;

    fn into_render_dependency(self) -> (dep: RenderDependency)
        ensures
            dep == self.spec_dep(),
    ;
}

impl<'a, R: RenderResource> IntoRenderDependency for &'a RenderHandle<R> {
    open spec fn spec_dep(self) -> RenderDependency {
        RenderDependency::Read(self.id)
    }

    fn into_render_dependency(self) -> (dep: RenderDependency) {
        RenderDependency::Read(self.id)
    }
}

impl<'a> IntoRenderDependency for &'a RenderBindGroup {
    open spec fn spec_dep(self) -> RenderDependency {
        RenderDependency::BindGroup(*self)
    }

    fn into_render_dependency(self) -> (dep: RenderDependency) {
        RenderDependency::BindGroup(*self)
    }
}

impl IntoRenderDependency for RenderDependency {
    open spec fn spec_dep(self) -> RenderDependency {
        self
    }

    fn into_render_dependency(self) -> (dep: RenderDependency) {
        self
    }
}

/// Declares a handle as a read dependency. The handle is only borrowed, so
/// its generation is left as it is.
pub fn read<R: RenderResource>(handle: &RenderHandle<R>) -> (dep: RenderDependency)
    ensures
        dep == RenderDependency::Read(handle.id),
{
    RenderDependency::Read(handle.id)
}

/// Declares a handle as a read-write dependency and advances its generation
/// exactly once: from here on the handle denotes the post-write version of
/// the resource, and it is that post-write version the dependency set
/// contains, so the declaring node resolves its bumped handle.
pub fn read_write<R: WriteRenderResource>(handle: &mut RenderHandle<R>) -> (dep: RenderDependency)
    requires
        old(handle).id.generation < u16::MAX,
    ensures
        final(handle).id.index == old(handle).id.index,
        final(handle).id.generation == old(handle).id.generation + 1,
        dep == RenderDependency::ReadWrite(final(handle).id),
{
    handle.id.generation = handle.id.generation + 1;
    RenderDependency::ReadWrite(handle.id)
}

/// Anything that can be turned into a batch of dependency declarations.
pub trait IntoRenderDependencies {
    /// The declarations this value stands for, in order.
    spec fn spec_deps(self) -> Seq<RenderDependency>;

    fn into_render_dependencies(self) -> (deps: Vec<RenderDependency>)
        ensures
            deps@ == self.spec_deps(),
    ;
}

impl<T: IntoRenderDependency> IntoRenderDependencies for T {
    open spec fn spec_deps(self) -> Seq<RenderDependency> {
        seq![self.spec_dep()]
    }

    fn into_render_dependencies(self) -> (deps: Vec<RenderDependency>) {
        let mut deps = Vec::new();
        deps.push(self.into_render_dependency());
        proof {
            assert(deps@ =~= self.spec_deps());
        }
        deps
    }
}

impl IntoRenderDependencies for Vec<RenderDependency> {
    open spec fn spec_deps(self) -> Seq<RenderDependency> {
        self@
    }

    fn into_render_dependencies(self) -> (deps: Vec<RenderDependency>) {
        self
    }
}

/// The read ids a batch of declarations adds, appended in order.
pub open spec fn reads_after(
    reads: Seq<RenderResourceId>,
    deps: Seq<RenderDependency>,
) -> Seq<RenderResourceId>
    decreases deps.len(),
{
    if deps.len() == 0 {
        reads
    } else {
        let rest = reads_after(reads, deps.drop_last());
        match deps.last() {
            RenderDependency::Read(id) => rest.push(id),
            RenderDependency::ReadWrite(id) => rest,
            RenderDependency::BindGroup(bg) => rest,
        }
    }
}

/// The write ids a batch of declarations adds, appended in order.
pub open spec fn writes_after(
    writes: Seq<RenderResourceId>,
    deps: Seq<RenderDependency>,
) -> Seq<RenderResourceId>
    decreases deps.len(),
{
    if deps.len() == 0 {
        writes
    } else {
        let rest = writes_after(writes, deps.drop_last());
        match deps.last() {
            RenderDependency::Read(id) => rest,
            RenderDependency::ReadWrite(id) => rest.push(id),
            RenderDependency::BindGroup(bg) => rest,
        }
    }
}

/// The bind groups a batch of declarations adds, appended in order.
pub open spec fn bind_groups_after(
    bind_groups: Seq<RenderBindGroup>,
    deps: Seq<RenderDependency>,
) -> Seq<RenderBindGroup>
    decreases deps.len(),
{
    if deps.len() == 0 {
        bind_groups
    } else {
        let rest = bind_groups_after(bind_groups, deps.drop_last());
        match deps.last() {
            RenderDependency::Read(id) => rest,
            RenderDependency::ReadWrite(id) => rest,
            RenderDependency::BindGroup(bg) => rest.push(bg),
        }
    }
}

/// A node's declared dependency set: which resource ids it reads, which it
/// read-writes, and which bind groups it uses.
pub struct RenderDependencies {
    reads: Vec<RenderResourceId>,
    writes: Vec<RenderResourceId>,
    bind_groups: Vec<RenderBindGroup>,
}

impl RenderDependencies {
    /// The declared read ids, in declaration order.
    pub closed spec fn reads(self) -> Seq<RenderResourceId> {
        self.reads@
    }

    /// The declared read-write ids, in declaration order.
    pub closed spec fn writes(self) -> Seq<RenderResourceId> {
        self.writes@
    }

    /// The declared bind groups, in declaration order.
    pub closed spec fn bind_groups(self) -> Seq<RenderBindGroup> {
        self.bind_groups@
    }

    /// The id is declared, as a read or as a read-write.
    pub open spec fn spec_contains_resource(self, id: RenderResourceId) -> bool {
        self.reads().contains(id) || self.writes().contains(id)
    }

    /// The bind group is declared.
    pub open spec fn spec_contains_bind_group(self, bind_group: RenderBindGroup) -> bool {
        self.bind_groups().contains(bind_group)
    }

    /// An empty dependency set.
    pub fn new() -> (deps: Self)
        ensures
            deps.reads() == Seq::<RenderResourceId>::empty(),
            deps.writes() == Seq::<RenderResourceId>::empty(),
            deps.bind_groups() == Seq::<RenderBindGroup>::empty(),
    {
        RenderDependencies { reads: Vec::new(), writes: Vec::new(), bind_groups: Vec::new() }
    }

    /// The dependency set of a batch of declarations.
    pub fn of<D: IntoRenderDependencies>(deps: D) -> (result: Self)
        ensures
            result.reads() == reads_after(Seq::<RenderResourceId>::empty(), deps.spec_deps()),
            result.writes() == writes_after(Seq::<RenderResourceId>::empty(), deps.spec_deps()),
            result.bind_groups() == bind_groups_after(
                Seq::<RenderBindGroup>::empty(),
                deps.spec_deps(),
            ),
    {
        let mut set = Self::new();
        set.add_many(deps);
        set
    }
}

impl Default for RenderDependencies {
    /// An empty dependency set.
    fn default() -> (deps: Self)
        ensures
            deps.reads() == Seq::<RenderResourceId>::empty(),
            deps.writes() == Seq::<RenderResourceId>::empty(),
            deps.bind_groups() == Seq::<RenderBindGroup>::empty(),
    {
        RenderDependencies::new()
    }
}

impl RenderDependencies {
    /// Adds one declaration to the set.
    pub fn add<D: IntoRenderDependency>(&mut self, dependency: D)
        ensures
            dependency.spec_dep() matches RenderDependency::Read(id) ==> {
                &&& final(self).reads() == old(self).reads().push(id)
                &&& final(self).writes() == old(self).writes()
                &&& final(self).bind_groups() == old(self).bind_groups()
            },
            dependency.spec_dep() matches RenderDependency::ReadWrite(id) ==> {
                &&& final(self).reads() == old(self).reads()
                &&& final(self).writes() == old(self).writes().push(id)
                &&& final(self).bind_groups() == old(self).bind_groups()
            },
            dependency.spec_dep() matches RenderDependency::BindGroup(bg) ==> {
                &&& final(self).reads() == old(self).reads()
                &&& final(self).writes() == old(self).writes()
                &&& final(self).bind_groups() == old(self).bind_groups().push(bg)
            },
    {
        match dependency.into_render_dependency() {
            RenderDependency::Read(id) => {
                self.reads.push(id);
            }
            RenderDependency::ReadWrite(id) => {
                self.writes.push(id);
            }
            RenderDependency::BindGroup(bg) => {
                self.bind_groups.push(bg);
            }
        }
    }

    /// Adds a batch of declarations to the set, in order.
    pub fn add_many<D: IntoRenderDependencies>(&mut self, dependencies: D)
        ensures
            final(self).reads() == reads_after(old(self).reads(), dependencies.spec_deps()),
            final(self).writes() == writes_after(old(self).writes(), dependencies.spec_deps()),
            final(self).bind_groups() == bind_groups_after(
                old(self).bind_groups(),
                dependencies.spec_deps(),
            ),
    {
        let ghost all = dependencies.spec_deps();
        let deps = dependencies.into_render_dependencies();
        let n = deps.len();
        let mut i: usize = 0;
        while i < n
            invariant
                deps@ == all,
                n == all.len(),
                i <= n,
                self.reads() == reads_after(old(self).reads(), all.take(i as int)),
                self.writes() == writes_after(old(self).writes(), all.take(i as int)),
                self.bind_groups() == bind_groups_after(
                    old(self).bind_groups(),
                    all.take(i as int),
                ),
            decreases n - i,
        {
            proof {
                assert(all.take(i + 1) =~= all.take(i as int).push(all[i as int]));
                assert(all.take(i + 1).drop_last() =~= all.take(i as int));
            }
            match deps[i] {
                RenderDependency::Read(id) => {
                    self.reads.push(id);
                }
                RenderDependency::ReadWrite(id) => {
                    self.writes.push(id);
                }
                RenderDependency::BindGroup(bg) => {
                    self.bind_groups.push(bg);
                }
            }
            i += 1;
        }
        proof {
            assert(all.take(n as int) =~= all);
        }
    }

    /// Whether the handle's id is declared, as a read or as a read-write.
    /// This is the access-control test the node execution context applies.
    pub fn contains_resource<R: RenderResource>(&self, resource: RenderHandle<R>) -> (res: bool)
        ensures
            res == self.spec_contains_resource(resource.id),
    {
        contains_id(&self.reads, resource.id) || contains_id(&self.writes, resource.id)
    }

    /// Whether the bind group is declared.
    pub fn contains_bind_group(&self, bind_group: RenderBindGroup) -> (res: bool)
        ensures
            res == self.spec_contains_bind_group(bind_group),
    {
        let n = self.bind_groups.len();
        let mut i: usize = 0;
        while i < n
            invariant
                n == self.bind_groups().len(),
                i <= n,
                forall|j: int| 0 <= j < i ==> self.bind_groups()[j] != bind_group,
            decreases n - i,
        {
            if self.bind_groups[i].id == bind_group.id {
                return true;
            }
            i += 1;
        }
        false
    }
}

/// Whether an id occurs in a list of ids.
fn contains_id(ids: &Vec<RenderResourceId>, id: RenderResourceId) -> (res: bool)
    ensures
        res == ids@.contains(id),
{
    let n = ids.len();
    let mut i: usize = 0;
    while i < n
        invariant
            n == ids@.len(),
            i <= n,
            forall|j: int| 0 <= j < i ==> ids@[j] != id,
        decreases n - i,
    {
        if ids[i].index == id.index && ids[i].generation == id.generation {
            return true;
        }
        i += 1;
    }
    false
}

/// The dependency set of a batch of declarations.
pub fn render_deps<D: IntoRenderDependencies>(deps: D) -> (result: RenderDependencies)
    ensures
        result.reads() == reads_after(Seq::<RenderResourceId>::empty(), deps.spec_deps()),
        result.writes() == writes_after(Seq::<RenderResourceId>::empty(), deps.spec_deps()),
        result.bind_groups() == bind_groups_after(
            Seq::<RenderBindGroup>::empty(),
            deps.spec_deps(),
        ),
{
    RenderDependencies::of(deps)
}

/// Building a dependency set from declarations that include a read or a
/// read-write of an id yields a set that contains that id: declaring a
/// dependency is what grants access to it.
pub proof fn lemma_declared_resource_is_contained(
    reads: Seq<RenderResourceId>,
    writes: Seq<RenderResourceId>,
    deps: Seq<RenderDependency>,
    id: RenderResourceId,
)
    requires
        deps.contains(RenderDependency::Read(id)) || deps.contains(RenderDependency::ReadWrite(id)),
    ensures
        reads_after(reads, deps).contains(id) || writes_after(writes, deps).contains(id),
    decreases deps.len(),
{
    let i = if deps.contains(RenderDependency::Read(id)) {
        choose|i: int| 0 <= i < deps.len() && deps[i] == RenderDependency::Read(id)
    } else {
        choose|i: int| 0 <= i < deps.len() && deps[i] == RenderDependency::ReadWrite(id)
    };
    if i == deps.len() - 1 {
        if deps.last() == RenderDependency::Read(id) {
            assert(reads_after(reads, deps).last() == id);
        } else {
            assert(writes_after(writes, deps).last() == id);
        }
    } else {
        assert(deps.drop_last()[i] == deps[i]);
        lemma_declared_resource_is_contained(reads, writes, deps.drop_last(), id);
        lemma_batch_grows(reads, writes, deps, id);
    }
}

/// Adding one more declaration never removes an id already in the set.
proof fn lemma_batch_grows(
    reads: Seq<RenderResourceId>,
    writes: Seq<RenderResourceId>,
    deps: Seq<RenderDependency>,
    id: RenderResourceId,
)
    requires
        deps.len() > 0,
        reads_after(reads, deps.drop_last()).contains(id) || writes_after(
            writes,
            deps.drop_last(),
        ).contains(id),
    ensures
        reads_after(reads, deps).contains(id) || writes_after(writes, deps).contains(id),
{
    let r = reads_after(reads, deps.drop_last());
    let w = writes_after(writes, deps.drop_last());
    if r.contains(id) {
        let j = choose|j: int| 0 <= j < r.len() && r[j] == id;
        match deps.last() {
            RenderDependency::Read(x) => {
                assert(reads_after(reads, deps)[j] == id);
            }
            RenderDependency::ReadWrite(x) => {
                assert(reads_after(reads, deps)[j] == id);
            }
            RenderDependency::BindGroup(bg) => {
                assert(reads_after(reads, deps)[j] == id);
            }
        }
    } else {
        let j = choose|j: int| 0 <= j < w.len() && w[j] == id;
        match deps.last() {
            RenderDependency::Read(x) => {
                assert(writes_after(writes, deps)[j] == id);
            }
            RenderDependency::ReadWrite(x) => {
                assert(writes_after(writes, deps)[j] == id);
            }
            RenderDependency::BindGroup(bg) => {
                assert(writes_after(writes, deps)[j] == id);
            }
        }
    }
}

} // verus!
