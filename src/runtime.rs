//! The runtime: the entity table, the actor/entity bridge, the built-in
//! synchronisation systems and the two lifecycle operations.
//!
//! The host is reached only through plain values: what it reports is passed
//! in, and the calls it must receive are handed back.
use crate::components::{
    default_movement, default_transform, ActorComponent, ActorPtr, CameraComponent, Entity,
    MovementComponent, ParentComponent, PhysicsComponent, PlayerInputComponent, Primitive,
    TransformComponent, UnrealPtr, Vec3,
};
use crate::registry::{
    core_component_uuids, filled, register_core_components, with_all_registered,
    ReflectionRegistry,
};
use crate::schedule::{run_order_of, user_systems_in, CoreStage, Schedule, SystemKind};
use std::collections::HashMap;
use std::marker::PhantomData;
use vstd::prelude::*;

verus! {

/// Outcome of a lifecycle call, as the host sees it.
#[derive(Clone, Copy, Debug, PartialEq, Eq, Structural)]
pub enum ResultCode {
    Success,
    Panic,
}

/// The current frame's delta time, as a single-precision bit pattern.
#[derive(Clone, Copy, Debug)]
pub struct Frame {
    pub dt: u32,
}

impl Default for Frame {
    fn default() -> (r: Self)
        ensures
            r.dt == 0,
    {
        Frame { dt: 0 }
    }
}

/// Kind of a host actor component.
#[derive(Clone, Copy, Debug, PartialEq, Eq, Structural)]
pub enum ActorComponentType {
    Primitive,
    Capsule,
}

/// A host actor component: its kind and its handle (`0` when there is none).
#[derive(Clone, Copy, Debug)]
pub struct ActorComponentPtr {
    pub ty: ActorComponentType,
    pub ptr: u64,
}

/// What the host reports of one actor when play begins: its handle, its root
/// component and, for a physics-capable root, the root's is-simulating answer
/// and velocity.
#[derive(Clone, Copy, Debug)]
pub struct HostActor {
    pub actor: ActorPtr,
    pub root: ActorComponentPtr,
    pub is_simulating: u32,
    pub velocity: Vec3,
}

/// The root component is a primitive the host handed out.
pub open spec fn has_physics_root(a: HostActor) -> bool {
    a.root.ty == ActorComponentType::Primitive && a.root.ptr != 0
}

/// The components of one entity. Every entity of this layer mirrors a host
/// actor, so it carries an actor link, a transform, movement and player input.
#[derive(Clone, Copy, Debug)]
pub struct EntityRecord {
    pub actor: ActorComponent,
    pub transform: TransformComponent,
    pub movement: MovementComponent,
    pub player_input: PlayerInputComponent,
    pub physics: Option<PhysicsComponent>,
    pub camera: Option<CameraComponent>,
    pub parent: Option<ParentComponent>,
}

/// The physics component built for a physics-capable root.
pub open spec fn physics_of(a: HostActor) -> PhysicsComponent {
    PhysicsComponent {
        ptr: UnrealPtr { ptr: a.root.ptr, _m: PhantomData },
        is_simulating: a.is_simulating == 1,
        velocity: a.velocity,
    }
}

/// The entity that registering the actor `a` creates.
pub open spec fn spawned_record(a: HostActor) -> EntityRecord {
    EntityRecord {
        actor: ActorComponent { ptr: a.actor },
        transform: default_transform(),
        movement: default_movement(),
        player_input: PlayerInputComponent { direction: Vec3 { x: 0, y: 0, z: 0 } },
        physics: if has_physics_root(a) {
            Some(physics_of(a))
        } else {
            None
        },
        camera: None,
        parent: None,
    }
}

/// The bridge `m` after registering `actors`, the first of which gets the
/// entity with index `base`; a later handle overrides an earlier one.
pub open spec fn bridge_after(m: Map<u64, Entity>, actors: Seq<HostActor>, base: int) -> Map<
    u64,
    Entity,
>
    decreases actors.len(),
{
    if actors.len() == 0 {
        m
    } else {
        bridge_after(m, actors.drop_last(), base).insert(
            actors.last().actor.0,
            Entity { index: (base + actors.len() - 1) as usize },
        )
    }
}

/// With pairwise distinct handles, registering `actors` into an empty bridge
/// maps the `i`-th handle to the entity with index `base + i`, so distinct
/// actors resolve to distinct entities, and the bridge knows no other handle.
pub proof fn lemma_bridge_resolves_each_actor(actors: Seq<HostActor>, base: int)
    requires
        0 <= base,
        base + actors.len() <= usize::MAX,
        forall|i: int, j: int|
            0 <= i < j < actors.len() ==> actors[i].actor.0 != actors[j].actor.0,
    ensures
        forall|i: int|
            0 <= i < actors.len() ==> {
                &&& bridge_after(Map::empty(), actors, base).contains_key(#[trigger] actors[i].actor.0)
                &&& bridge_after(Map::empty(), actors, base)[actors[i].actor.0] == Entity {
                    index: (base + i) as usize,
                }
            },
        forall|k: u64|
            #[trigger] bridge_after(Map::empty(), actors, base).contains_key(k) ==> exists|i: int|
                0 <= i < actors.len() && actors[i].actor.0 == k,
    decreases actors.len(),
{
    if actors.len() > 0 {
        let init = actors.drop_last();
        lemma_bridge_resolves_each_actor(init, base);
        let m0 = bridge_after(Map::empty(), init, base);
        let m = bridge_after(Map::empty(), actors, base);
        assert(m == m0.insert(actors.last().actor.0, Entity { index: (base + actors.len() - 1) as usize }));
        assert forall|i: int| 0 <= i < actors.len() - 1 implies init[i] == actors[i] by {}
        assert forall|i: int| 0 <= i < actors.len() implies {
            &&& m.contains_key(#[trigger] actors[i].actor.0)
            &&& m[actors[i].actor.0] == Entity { index: (base + i) as usize }
        } by {
            if i < actors.len() - 1 {
                assert(init[i] == actors[i]);
                assert(actors[i].actor.0 != actors.last().actor.0);
            }
        }
        assert forall|k: u64|
            #[trigger] bridge_after(Map::empty(), actors, base).contains_key(k) implies exists|i: int|
                0 <= i < actors.len() && actors[i].actor.0 == k by {
            if k != actors.last().actor.0 {
                assert(m0.contains_key(k));
                let i = choose|i: int| 0 <= i < init.len() && init[i].actor.0 == k;
                assert(actors[i].actor.0 == k);
            } else {
                assert(actors[actors.len() - 1].actor.0 == k);
            }
        }
    }
}

/// The identity bridge: host actor handle to entity. Entries are only added.
pub struct ActorRegistration {
    actor_to_entity: HashMap<u64, Entity>,
}

impl View for ActorRegistration {
    type V = Map<u64, Entity>;

    closed spec fn view(&self) -> Map<u64, Entity> {
        self.actor_to_entity@
    }
}

impl ActorRegistration {
    /// An empty bridge.
    pub fn new() -> (r: Self)
        ensures
            r@ == Map::<u64, Entity>::empty(),
    {
        ActorRegistration { actor_to_entity: HashMap::new() }
    }

    /// The entity of `actor`, or `None` for a handle never registered.
    pub fn get(&self, actor: ActorPtr) -> (r: Option<Entity>)
        ensures
            r == (if self@.contains_key(actor.0) {
                Some(self@[actor.0])
            } else {
                None
            }),
    {
        match self.actor_to_entity.get(&actor.0) {
            Some(e) => Some(*e),
            None => None,
        }
    }

    /// Maps `actor` to `entity`, replacing what it mapped to before.
    pub fn insert(&mut self, actor: ActorPtr, entity: Entity)
        ensures
            final(self)@ == old(self)@.insert(actor.0, entity),
    {
        self.actor_to_entity.insert(actor.0, entity);
    }
}

/// The components and systems a user module adds: component identifiers to
/// register, startup systems, and per-frame systems with their stage.
pub struct UserModule {
    pub components: Vec<u128>,
    pub startup_systems: Vec<u64>,
    pub systems: Vec<(CoreStage, u64)>,
}

impl UserModule {
    /// Per-frame systems go to the per-frame stages only.
    pub open spec fn wf(&self) -> bool {
        forall|i: int| 0 <= i < self.systems@.len() ==> self.systems@[i].0 != CoreStage::Startup
    }

    /// Whether every per-frame system names a per-frame stage.
    pub fn is_valid(&self) -> (r: bool)
        ensures
            r == self.wf(),
    {
        let mut i: usize = 0;
        while i < self.systems.len()
            invariant
                i <= self.systems@.len(),
                forall|j: int| 0 <= j < i ==> self.systems@[j].0 != CoreStage::Startup,
            decreases self.systems@.len() - i,
        {
            if self.systems[i].0 == CoreStage::Startup {
                return false;
            }
            i = i + 1;
        }
        true
    }
}

/// The user startup systems, as schedule entries.
pub open spec fn user_startup(ids: Seq<u64>) -> Seq<SystemKind> {
    Seq::new(ids.len(), |i: int| SystemKind::User(ids[i]))
}

/// The entities `w` after the download has written `fetched[j]` into each
/// entity `j < n`.
pub open spec fn downloaded(w: Seq<EntityRecord>, fetched: Seq<TransformComponent>, n: int) -> Seq<
    EntityRecord,
> {
    Seq::new(
        w.len(),
        |j: int|
            if j < n {
                EntityRecord { transform: fetched[j], ..w[j] }
            } else {
                w[j]
            },
    )
}

/// One call of the host's spatial-data setter.
#[derive(Clone, Copy, Debug)]
pub struct SpatialUpdate {
    pub actor: ActorPtr,
    pub transform: TransformComponent,
}

/// The setter calls for the first `n` entities of `w`, in entity order.
pub open spec fn uploads(w: Seq<EntityRecord>, n: int) -> Seq<SpatialUpdate> {
    Seq::new(n as nat, |j: int| SpatialUpdate { actor: w[j].actor.ptr, transform: w[j].transform })
}

/// What the upload hands back: the setter calls to make, in order, and the
/// entity whose transform held a not-a-number value, if one did.
pub struct SpatialUpload {
    pub updates: Vec<SpatialUpdate>,
    pub fault: Option<Entity>,
}

impl SpatialUpload {
    /// The frame fails exactly when the upload met a not-a-number value.
    pub fn result_code(&self) -> (r: ResultCode)
        ensures
            r == (if self.fault.is_some() {
                ResultCode::Panic
            } else {
                ResultCode::Success
            }),
    {
        match self.fault {
            Some(_) => ResultCode::Panic,
            None => ResultCode::Success,
        }
    }
}

/// The runtime state: the entity table, the bridge, the frame resource, the
/// component registry and the startup and per-frame schedules.
pub struct UnrealCore {
    entities: Vec<EntityRecord>,
    registration: ActorRegistration,
    frame: Frame,
    reflection_registry: ReflectionRegistry,
    startup: Schedule,
    schedule: Schedule,
}

impl UnrealCore {
    pub closed spec fn spec_entities(&self) -> Seq<EntityRecord> {
        self.entities@
    }

    pub closed spec fn spec_bridge(&self) -> Map<u64, Entity> {
        self.registration@
    }

    pub closed spec fn spec_frame(&self) -> Frame {
        self.frame
    }

    pub closed spec fn spec_registry(&self) -> ReflectionRegistry {
        self.reflection_registry
    }

    pub closed spec fn spec_startup(&self) -> Schedule {
        self.startup
    }

    pub closed spec fn spec_schedule(&self) -> Schedule {
        self.schedule
    }

    /// Every bridged entity exists; the registry and schedules are well formed.
    pub open spec fn wf(&self) -> bool {
        &&& forall|k: u64| #[trigger]
            self.spec_bridge().contains_key(k) ==> self.spec_bridge()[k].index
                < self.spec_entities().len()
        &&& self.spec_registry().wf()
        &&& self.spec_startup().wf()
        &&& self.spec_schedule().wf()
    }
}

/// Writes `fetched[j]` into the transform of each entity `j` in turn, and
/// stops at the first one that holds a not-a-number value.
fn download_into(entities: &mut Vec<EntityRecord>, fetched: &Vec<TransformComponent>) -> (r: Result<(), Entity>)
    requires
        fetched@.len() == old(entities)@.len(),
    ensures
        download_outcome(old(entities)@, fetched@, final(entities)@, r),
{
    let mut i: usize = 0;
    while i < entities.len()
        invariant
            fetched@.len() == old(entities)@.len(),
            i <= entities@.len(),
            entities@ == downloaded(old(entities)@, fetched@, i as int),
            forall|j: int| 0 <= j < i ==> !fetched@[j].spec_is_nan(),
        decreases entities@.len() - i,
    {
        let mut rec = entities[i];
        rec.transform = fetched[i];
        entities.set(i, rec);
        assert(entities@ =~= downloaded(old(entities)@, fetched@, i + 1));
        if fetched[i].is_nan() {
            return Err(Entity { index: i });
        }
        i = i + 1;
    }
    Ok(())
}

/// What the download leaves: on success every transform holds what the host
/// reported; on a not-a-number value at entity `k`, the entities up to and
/// including `k` hold what the host reported and the others are untouched.
pub open spec fn download_outcome(
    before: Seq<EntityRecord>,
    fetched: Seq<TransformComponent>,
    after: Seq<EntityRecord>,
    r: Result<(), Entity>,
) -> bool {
    match r {
        Ok(()) => {
            &&& forall|j: int| 0 <= j < fetched.len() ==> !#[trigger] fetched[j].spec_is_nan()
            &&& after == downloaded(before, fetched, before.len() as int)
        },
        Err(e) => {
            &&& e.index < before.len()
            &&& fetched[e.index as int].spec_is_nan()
            &&& forall|j: int| 0 <= j < e.index ==> !#[trigger] fetched[j].spec_is_nan()
            &&& after == downloaded(before, fetched, e.index + 1)
        },
    }
}

/// What the upload hands back for the entities `w`: one setter call per
/// entity in entity order, up to the first whose transform holds a
/// not-a-number value, which is reported and gets no call.
pub open spec fn upload_outcome(w: Seq<EntityRecord>, u: Seq<SpatialUpdate>, fault: Option<Entity>) -> bool {
    match fault {
        None => {
            &&& forall|j: int| 0 <= j < w.len() ==> !#[trigger] w[j].transform.spec_is_nan()
            &&& u == uploads(w, w.len() as int)
        },
        Some(e) => {
            &&& e.index < w.len()
            &&& w[e.index as int].transform.spec_is_nan()
            &&& forall|j: int| 0 <= j < e.index ==> !#[trigger] w[j].transform.spec_is_nan()
            &&& u == uploads(w, e.index as int)
        },
    }
}

/// If any entity's transform holds a not-a-number value, the upload reports
/// a fault (so the frame returns `Panic`) at an entity no later than that one,
/// and the setter calls it hands back stop before the faulty entity.
pub proof fn lemma_nan_transform_fails_frame(
    w: Seq<EntityRecord>,
    u: Seq<SpatialUpdate>,
    fault: Option<Entity>,
    j: int,
)
    requires
        upload_outcome(w, u, fault),
        0 <= j < w.len(),
        w[j].transform.spec_is_nan(),
    ensures
        fault.is_some(),
        fault.unwrap().index <= j,
        u.len() == fault.unwrap().index,
        forall|i: int| 0 <= i < u.len() ==> u[i].actor == w[i].actor.ptr && !#[trigger] u[i].transform.spec_is_nan(),
{
}

fn upload_from(entities: &Vec<EntityRecord>) -> (r: SpatialUpload)
    ensures
        upload_outcome(entities@, r.updates@, r.fault),
{
    let mut updates: Vec<SpatialUpdate> = Vec::new();
    let mut i: usize = 0;
    while i < entities.len()
        invariant
            i <= entities@.len(),
            updates@ == uploads(entities@, i as int),
            forall|j: int| 0 <= j < i ==> !#[trigger] entities@[j].transform.spec_is_nan(),
        decreases entities@.len() - i,
    {
        if entities[i].transform.is_nan() {
            return SpatialUpload { updates, fault: Some(Entity { index: i }) };
        }
        updates.push(SpatialUpdate { actor: entities[i].actor.ptr, transform: entities[i].transform });
        i = i + 1;
        assert(updates@ =~= uploads(entities@, i as int));
    }
    SpatialUpload { updates, fault: None }
}

/// Downloading what the host reports and uploading straight after hands the
/// host back, for each actor, exactly the spatial data it reported: a round
/// trip changes nothing the host can observe.
pub proof fn lemma_download_upload_round_trip(w: Seq<EntityRecord>, fetched: Seq<TransformComponent>)
    requires
        fetched.len() == w.len(),
        forall|j: int| 0 <= j < fetched.len() ==> !#[trigger] fetched[j].spec_is_nan(),
    ensures
        upload_outcome(
            downloaded(w, fetched, w.len() as int),
            Seq::new(w.len(), |j: int| SpatialUpdate { actor: w[j].actor.ptr, transform: fetched[j] }),
            None,
        ),
{
    let d = downloaded(w, fetched, w.len() as int);
    assert forall|j: int| 0 <= j < d.len() implies !#[trigger] d[j].transform.spec_is_nan() by {
        assert(d[j].transform == fetched[j]);
    }
    assert(uploads(d, d.len() as int) =~= Seq::new(
        w.len(),
        |j: int| SpatialUpdate { actor: w[j].actor.ptr, transform: fetched[j] },
    ));
}

/// Registers each identifier of `uuids` in turn.
fn register_module_components(registry: &mut ReflectionRegistry, uuids: &Vec<u128>)
    requires
        old(registry).wf(),
    ensures
        final(registry).wf(),
        final(registry)@ == with_all_registered(old(registry)@, uuids@),
{
    let mut i: usize = 0;
    while i < uuids.len()
        invariant
            i <= uuids@.len(),
            registry.wf(),
            registry@ == with_all_registered(old(registry)@, uuids@.take(i as int)),
        decreases uuids@.len() - i,
    {
        registry.register(uuids[i]);
        assert(uuids@.take(i + 1).drop_last() =~= uuids@.take(i as int));
        i = i + 1;
    }
    assert(uuids@.take(i as int) =~= uuids@);
}

/// Appends the user startup systems to the `Startup` stage.
fn add_startup_systems(schedule: &mut Schedule, ids: &Vec<u64>)
    requires
        old(schedule).wf(),
        old(schedule).spec_stages().contains(CoreStage::Startup),
    ensures
        final(schedule).wf(),
        final(schedule).spec_stages() == old(schedule).spec_stages(),
        final(schedule).spec_systems(CoreStage::Startup) == old(schedule).spec_systems(
            CoreStage::Startup,
        ) + user_startup(ids@),
        forall|l: CoreStage|
            l != CoreStage::Startup ==> final(schedule).spec_systems(l) == old(
                schedule,
            ).spec_systems(l),
{
    let mut i: usize = 0;
    while i < ids.len()
        invariant
            i <= ids@.len(),
            schedule.wf(),
            schedule.spec_stages() == old(schedule).spec_stages(),
            old(schedule).spec_stages().contains(CoreStage::Startup),
            schedule.spec_systems(CoreStage::Startup) == old(schedule).spec_systems(
                CoreStage::Startup,
            ) + user_startup(ids@.take(i as int)),
            forall|l: CoreStage|
                l != CoreStage::Startup ==> schedule.spec_systems(l) == old(
                    schedule,
                ).spec_systems(l),
        decreases ids@.len() - i,
    {
        schedule.add_system_to_stage(CoreStage::Startup, SystemKind::User(ids[i]));
        i = i + 1;
        assert(schedule.spec_systems(CoreStage::Startup) =~= old(schedule).spec_systems(
            CoreStage::Startup,
        ) + user_startup(ids@.take(i as int)));
    }
    assert(ids@.take(i as int) =~= ids@);
}

/// Appends each per-frame user system to its stage.
fn add_user_systems(schedule: &mut Schedule, systems: &Vec<(CoreStage, u64)>)
    requires
        old(schedule).wf(),
        old(schedule).spec_stages().contains(CoreStage::PreUpdate),
        old(schedule).spec_stages().contains(CoreStage::Update),
        old(schedule).spec_stages().contains(CoreStage::PostUpdate),
        forall|i: int| 0 <= i < systems@.len() ==> systems@[i].0 != CoreStage::Startup,
    ensures
        final(schedule).wf(),
        final(schedule).spec_stages() == old(schedule).spec_stages(),
        forall|l: CoreStage|
            final(schedule).spec_systems(l) == old(schedule).spec_systems(l) + user_systems_in(
                systems@,
                l,
            ),
{
    let mut i: usize = 0;
    while i < systems.len()
        invariant
            i <= systems@.len(),
            schedule.wf(),
            schedule.spec_stages() == old(schedule).spec_stages(),
            old(schedule).spec_stages().contains(CoreStage::PreUpdate),
            old(schedule).spec_stages().contains(CoreStage::Update),
            old(schedule).spec_stages().contains(CoreStage::PostUpdate),
            forall|k: int| 0 <= k < systems@.len() ==> systems@[k].0 != CoreStage::Startup,
            forall|l: CoreStage|
                schedule.spec_systems(l) == old(schedule).spec_systems(l) + user_systems_in(
                    systems@.take(i as int),
                    l,
                ),
        decreases systems@.len() - i,
    {
        let (label, id) = systems[i];
        schedule.add_system_to_stage(label, SystemKind::User(id));
        let ghost pre = systems@.take(i as int);
        i = i + 1;
        assert(systems@.take(i as int).drop_last() =~= pre);
        assert forall|l: CoreStage|
            schedule.spec_systems(l) =~= old(schedule).spec_systems(l) + user_systems_in(
                systems@.take(i as int),
                l,
            ) by {}
    }
    assert(systems@.take(i as int) =~= systems@);
}

/// The per-frame schedule: `PreUpdate` (input update when asked for, then the
/// download), `Update`, `PostUpdate` (the upload), each followed by the
/// module's systems for it.
fn frame_schedule(module: &UserModule, with_input: bool) -> (r: Schedule)
    requires
        module.wf(),
    ensures
        is_frame_schedule(r, module.systems@, with_input),
{
    let mut schedule = Schedule::new();
    schedule.add_stage(CoreStage::PreUpdate);
    schedule.add_stage(CoreStage::Update);
    schedule.add_stage(CoreStage::PostUpdate);
    assert(schedule.spec_stages()[0] == CoreStage::PreUpdate);
    assert(schedule.spec_stages()[1] == CoreStage::Update);
    assert(schedule.spec_stages()[2] == CoreStage::PostUpdate);
    if with_input {
        schedule.add_system_to_stage(CoreStage::PreUpdate, SystemKind::UpdateInput);
    }
    schedule.add_system_to_stage(CoreStage::PreUpdate, SystemKind::DownloadTransform);
    schedule.add_system_to_stage(CoreStage::PostUpdate, SystemKind::UploadTransform);
    assert(schedule.spec_stages() =~= seq![CoreStage::PreUpdate, CoreStage::Update, CoreStage::PostUpdate]);
    add_user_systems(&mut schedule, &module.systems);
    assert(schedule.spec_systems(CoreStage::PreUpdate) =~= frame_builtins(CoreStage::PreUpdate, with_input) + user_systems_in(module.systems@, CoreStage::PreUpdate));
    assert(schedule.spec_systems(CoreStage::PostUpdate) =~= frame_builtins(CoreStage::PostUpdate, with_input) + user_systems_in(module.systems@, CoreStage::PostUpdate));
    assert(schedule.spec_systems(CoreStage::Update) =~= frame_builtins(CoreStage::Update, with_input) + user_systems_in(module.systems@, CoreStage::Update));
    proof {
        lemma_no_user_systems_in(module.systems@, CoreStage::Startup);
    }
    assert(schedule.spec_systems(CoreStage::Startup) =~= Seq::<SystemKind>::empty());
    assert forall|l: CoreStage| l != CoreStage::Startup implies
        #[trigger] schedule.spec_systems(l) == frame_builtins(l, with_input) + user_systems_in(module.systems@, l) by {
        match l {
            CoreStage::PreUpdate => {},
            CoreStage::Update => {},
            CoreStage::PostUpdate => {},
            CoreStage::Startup => {},
        }
    }
    schedule
}

/// No system is bound for a stage that none of `systems` names.
proof fn lemma_no_user_systems_in(systems: Seq<(CoreStage, u64)>, label: CoreStage)
    requires
        forall|i: int| 0 <= i < systems.len() ==> systems[i].0 != label,
    ensures
        user_systems_in(systems, label) == Seq::<SystemKind>::empty(),
    decreases systems.len(),
{
    if systems.len() > 0 {
        lemma_no_user_systems_in(systems.drop_last(), label);
    }
}

/// The built-in systems of a per-frame stage.
pub open spec fn frame_builtins(label: CoreStage, with_input: bool) -> Seq<SystemKind> {
    match label {
        CoreStage::PreUpdate => if with_input {
            seq![SystemKind::UpdateInput, SystemKind::DownloadTransform]
        } else {
            seq![SystemKind::DownloadTransform]
        },
        CoreStage::PostUpdate => seq![SystemKind::UploadTransform],
        _ => Seq::empty(),
    }
}

/// `s` is the per-frame schedule for the module systems `systems`.
pub open spec fn is_frame_schedule(s: Schedule, systems: Seq<(CoreStage, u64)>, with_input: bool) -> bool {
    &&& s.wf()
    &&& s.spec_stages() == seq![CoreStage::PreUpdate, CoreStage::Update, CoreStage::PostUpdate]
    &&& s.spec_systems(CoreStage::Startup) == Seq::<SystemKind>::empty()
    &&& forall|l: CoreStage| l != CoreStage::Startup ==>
        #[trigger] s.spec_systems(l) == frame_builtins(l, with_input) + user_systems_in(systems, l)
}

/// One run of a per-frame schedule executes the `PreUpdate` built-ins (the
/// download among them), the module's `PreUpdate` systems, every `Update`
/// system, then the upload and the module's `PostUpdate` systems: user logic
/// sees this frame's host state, and the host receives its final state.
pub proof fn lemma_frame_run_order(s: Schedule, systems: Seq<(CoreStage, u64)>, with_input: bool)
    requires
        is_frame_schedule(s, systems, with_input),
    ensures
        s.spec_run_order() == frame_builtins(CoreStage::PreUpdate, with_input) + user_systems_in(
            systems,
            CoreStage::PreUpdate,
        ) + user_systems_in(systems, CoreStage::Update) + seq![SystemKind::UploadTransform]
            + user_systems_in(systems, CoreStage::PostUpdate),
{
    let of = |l: CoreStage| s.spec_systems(l);
    let st = s.spec_stages();
    assert(st.drop_last().drop_last().drop_last() =~= Seq::<CoreStage>::empty());
    assert(st.drop_last().drop_last() =~= seq![CoreStage::PreUpdate]);
    assert(st.drop_last() =~= seq![CoreStage::PreUpdate, CoreStage::Update]);
    reveal_with_fuel(run_order_of, 4);
    assert(s.spec_systems(CoreStage::PreUpdate) == frame_builtins(CoreStage::PreUpdate, with_input) + user_systems_in(systems, CoreStage::PreUpdate));
    assert(s.spec_systems(CoreStage::Update) == frame_builtins(CoreStage::Update, with_input) + user_systems_in(systems, CoreStage::Update));
    assert(s.spec_systems(CoreStage::PostUpdate) == frame_builtins(CoreStage::PostUpdate, with_input) + user_systems_in(systems, CoreStage::PostUpdate));
    assert(frame_builtins(CoreStage::Update, with_input) + user_systems_in(systems, CoreStage::Update) =~= user_systems_in(systems, CoreStage::Update));
    assert(s.spec_run_order() =~= frame_builtins(CoreStage::PreUpdate, with_input) + user_systems_in(
            systems,
            CoreStage::PreUpdate,
        ) + user_systems_in(systems, CoreStage::Update) + seq![SystemKind::UploadTransform]
            + user_systems_in(systems, CoreStage::PostUpdate));
}

/// `s` is the startup schedule: one `Startup` stage with the module's startup systems.
pub open spec fn is_startup_schedule(s: Schedule, ids: Seq<u64>) -> bool {
    &&& s.wf()
    &&& s.spec_stages() == seq![CoreStage::Startup]
    &&& s.spec_systems(CoreStage::Startup) == user_startup(ids)
}

/// The state play begins in for `module` and the host's `actors`: one entity
/// per actor, the bridge over them, a zero frame time, the registry of the
/// built-in and the module's components, and both schedules.
pub open spec fn is_play_state(c: UnrealCore, module: &UserModule, actors: Seq<HostActor>) -> bool {
    &&& c.spec_entities() == actors.map_values(|a: HostActor| spawned_record(a))
    &&& c.spec_bridge() == bridge_after(Map::empty(), actors, 0)
    &&& c.spec_frame().dt == 0
    &&& c.spec_registry()@ == with_all_registered(
        with_all_registered(Seq::empty(), core_component_uuids()),
        module.components@,
    )
    &&& is_startup_schedule(c.spec_startup(), module.startup_systems@)
    &&& is_frame_schedule(c.spec_schedule(), module.systems@, true)
}

/// Beginning play depends on the module and the actors alone: two runtimes
/// that began play with the same ones, whatever they held before (the same
/// actors registered twice in a row included), hold the same entities,
/// bridge, frame, registry and schedules.
pub proof fn lemma_begin_play_forgets_earlier_state(
    a: UnrealCore,
    b: UnrealCore,
    module: &UserModule,
    actors: Seq<HostActor>,
)
    requires
        is_play_state(a, module, actors),
        is_play_state(b, module, actors),
    ensures
        a.spec_entities() == b.spec_entities(),
        a.spec_bridge() == b.spec_bridge(),
        a.spec_frame() == b.spec_frame(),
        a.spec_registry()@ == b.spec_registry()@,
        a.spec_startup().spec_run_order() == b.spec_startup().spec_run_order(),
        a.spec_schedule().spec_run_order() == b.spec_schedule().spec_run_order(),
{
    assert(a.spec_frame() == b.spec_frame());
    let sa = a.spec_startup();
    let sb = b.spec_startup();
    assert(sa.spec_stages() == sb.spec_stages());
    assert(sa.spec_stages().drop_last() =~= Seq::<CoreStage>::empty());
    reveal_with_fuel(run_order_of, 2);
    assert(sa.spec_run_order() == sb.spec_run_order());
    lemma_frame_run_order(a.spec_schedule(), module.systems@, true);
    lemma_frame_run_order(b.spec_schedule(), module.systems@, true);
}

impl UnrealCore {
    /// A runtime with no entity: the built-in and the module's components are
    /// registered, and the startup and per-frame schedules are built.
    pub fn new(module: &UserModule) -> (r: Self)
        requires
            module.wf(),
        ensures
            r.wf(),
            r.spec_entities() == Seq::<EntityRecord>::empty(),
            r.spec_bridge() == Map::<u64, Entity>::empty(),
            r.spec_frame().dt == 0,
            r.spec_registry()@ == with_all_registered(
                with_all_registered(Seq::empty(), core_component_uuids()),
                module.components@,
            ),
            is_startup_schedule(r.spec_startup(), module.startup_systems@),
            is_frame_schedule(r.spec_schedule(), module.systems@, false),
    {
        let mut startup = Schedule::new();
        startup.add_stage(CoreStage::Startup);
        assert(startup.spec_stages() =~= seq![CoreStage::Startup]);
        assert(startup.spec_stages()[0] == CoreStage::Startup);
        add_startup_systems(&mut startup, &module.startup_systems);
        assert(startup.spec_systems(CoreStage::Startup) =~= user_startup(module.startup_systems@));
        let schedule = frame_schedule(module, false);
        let mut reflection_registry = ReflectionRegistry::new();
        register_core_components(&mut reflection_registry);
        register_module_components(&mut reflection_registry, &module.components);
        UnrealCore {
            entities: Vec::new(),
            registration: ActorRegistration::new(),
            frame: Frame::default(),
            reflection_registry,
            startup,
            schedule,
        }
    }

    /// Creates one entity per actor, in order, with an actor link, a default
    /// transform, movement and player input, and a physics component when the
    /// root is physics-capable; maps each actor handle to its entity.
    pub fn register_actors(&mut self, actors: &Vec<HostActor>)
        requires
            old(self).wf(),
            old(self).spec_entities().len() + actors@.len() <= usize::MAX,
        ensures
            final(self).wf(),
            final(self).spec_entities() == old(self).spec_entities() + actors@.map_values(
                |a: HostActor| spawned_record(a),
            ),
            final(self).spec_bridge() == bridge_after(
                old(self).spec_bridge(),
                actors@,
                old(self).spec_entities().len() as int,
            ),
            final(self).spec_frame() == old(self).spec_frame(),
            final(self).spec_registry() == old(self).spec_registry(),
            final(self).spec_startup() == old(self).spec_startup(),
            final(self).spec_schedule() == old(self).spec_schedule(),
    {
        let base: usize = self.entities.len();
        let mut i: usize = 0;
        while i < actors.len()
            invariant
                base == old(self).spec_entities().len(),
                base + actors@.len() <= usize::MAX,
                i <= actors@.len(),
                self.wf(),
                self.spec_entities() == old(self).spec_entities() + actors@.take(i as int).map_values(
                    |a: HostActor| spawned_record(a),
                ),
                self.spec_bridge() == bridge_after(old(self).spec_bridge(), actors@.take(i as int), base as int),
                self.spec_frame() == old(self).spec_frame(),
                self.spec_registry() == old(self).spec_registry(),
                self.spec_startup() == old(self).spec_startup(),
                self.spec_schedule() == old(self).spec_schedule(),
            decreases actors@.len() - i,
        {
            let a = actors[i];
            let physics = if a.root.ty == ActorComponentType::Primitive && a.root.ptr != 0 {
                Some(PhysicsComponent::new(UnrealPtr::from_raw(a.root.ptr), a.is_simulating, a.velocity))
            } else {
                None
            };
            let rec = EntityRecord {
                actor: ActorComponent { ptr: a.actor },
                transform: TransformComponent::default(),
                movement: MovementComponent::default(),
                player_input: PlayerInputComponent::default(),
                physics,
                camera: None,
                parent: None,
            };
            assert(rec == spawned_record(a));
            let entity = Entity { index: self.entities.len() };
            self.entities.push(rec);
            self.registration.insert(a.actor, entity);
            let ghost pre = actors@.take(i as int);
            i = i + 1;
            assert(actors@.take(i as int).drop_last() =~= pre);
            assert(actors@.take(i as int).map_values(|a: HostActor| spawned_record(a))
                =~= pre.map_values(|a: HostActor| spawned_record(a)).push(rec));
        }
        assert(actors@.take(i as int) =~= actors@);
    }

    /// Enters play: the whole state is rebuilt from the module and the actors
    /// the host reports, whatever it held before. The per-frame schedule gets
    /// the input update ahead of the download. A module whose per-frame
    /// systems name the `Startup` stage is refused with `Panic`, leaving the
    /// state as it was.
    pub fn begin_play(&mut self, module: &UserModule, actors: &Vec<HostActor>) -> (r: ResultCode)
        requires
            old(self).wf(),
        ensures
            final(self).wf(),
            r == (if module.wf() {
                ResultCode::Success
            } else {
                ResultCode::Panic
            }),
            !module.wf() ==> *final(self) == *old(self),
            module.wf() ==> is_play_state(*final(self), module, actors@),
    {
        if !module.is_valid() {
            return ResultCode::Panic;
        }
        let n: usize = actors.len();
        *self = UnrealCore::new(module);
        self.register_actors(actors);
        assert(Seq::<EntityRecord>::empty() + actors@.map_values(|a: HostActor| spawned_record(a))
            =~= actors@.map_values(|a: HostActor| spawned_record(a)));
        self.schedule = frame_schedule(module, true);
        ResultCode::Success
    }

    /// Starts a frame: records `dt` in the frame resource and hands back the
    /// per-frame systems in the order they are to run.
    pub fn tick(&mut self, dt: u32) -> (r: Vec<SystemKind>)
        requires
            old(self).wf(),
        ensures
            final(self).wf(),
            final(self).spec_frame().dt == dt,
            r@ == old(self).spec_schedule().spec_run_order(),
            final(self).spec_entities() == old(self).spec_entities(),
            final(self).spec_bridge() == old(self).spec_bridge(),
            final(self).spec_registry() == old(self).spec_registry(),
            final(self).spec_startup() == old(self).spec_startup(),
            final(self).spec_schedule() == old(self).spec_schedule(),
    {
        self.frame.dt = dt;
        assert(self.spec_bridge() == old(self).spec_bridge());
        assert(self.spec_entities() == old(self).spec_entities());
        self.schedule.run_order()
    }

    /// The download system: `fetched[j]` is what the host's spatial-data
    /// getter reports for the actor of entity `j`.
    pub fn download_transform_from_unreal(&mut self, fetched: &Vec<TransformComponent>) -> (r: Result<(), Entity>)
        requires
            old(self).wf(),
            fetched@.len() == old(self).spec_entities().len(),
        ensures
            final(self).wf(),
            download_outcome(old(self).spec_entities(), fetched@, final(self).spec_entities(), r),
            final(self).spec_bridge() == old(self).spec_bridge(),
            final(self).spec_frame() == old(self).spec_frame(),
            final(self).spec_registry() == old(self).spec_registry(),
            final(self).spec_startup() == old(self).spec_startup(),
            final(self).spec_schedule() == old(self).spec_schedule(),
    {
        let r = download_into(&mut self.entities, fetched);
        assert(self.spec_entities().len() == old(self).spec_entities().len()) by {
            match r {
                Ok(()) => {},
                Err(e) => {},
            }
        }
        assert(self.spec_bridge() == old(self).spec_bridge());
        r
    }

    /// The number of entities.
    pub fn entity_count(&self) -> (r: usize)
        ensures
            r == self.spec_entities().len(),
    {
        self.entities.len()
    }

    /// The components of `entity`, or `None` for a handle with no entity.
    pub fn entity(&self, entity: Entity) -> (r: Option<EntityRecord>)
        ensures
            r == (if entity.index < self.spec_entities().len() {
                Some(self.spec_entities()[entity.index as int])
            } else {
                None
            }),
    {
        if entity.index < self.entities.len() {
            Some(self.entities[entity.index])
        } else {
            None
        }
    }

    /// Replaces the components of `entity`; a handle with no entity changes nothing.
    /// The actor link is kept: once set it never changes.
    pub fn set_entity(&mut self, entity: Entity, record: EntityRecord)
        requires
            old(self).wf(),
        ensures
            final(self).wf(),
            final(self).spec_entities() == (if entity.index < old(self).spec_entities().len() {
                old(self).spec_entities().update(
                    entity.index as int,
                    EntityRecord { actor: old(self).spec_entities()[entity.index as int].actor, ..record },
                )
            } else {
                old(self).spec_entities()
            }),
            final(self).spec_bridge() == old(self).spec_bridge(),
            final(self).spec_frame() == old(self).spec_frame(),
            final(self).spec_registry() == old(self).spec_registry(),
            final(self).spec_startup() == old(self).spec_startup(),
            final(self).spec_schedule() == old(self).spec_schedule(),
    {
        if entity.index < self.entities.len() {
            let actor = self.entities[entity.index].actor;
            self.entities.set(entity.index, EntityRecord { actor, ..record });
        }
        assert(self.spec_bridge() == old(self).spec_bridge());
    }

    /// The actor handle of each entity, in entity order: the actors whose
    /// spatial data the download asks the host for.
    pub fn actor_links(&self) -> (r: Vec<ActorPtr>)
        ensures
            r@ == self.spec_entities().map_values(|e: EntityRecord| e.actor.ptr),
    {
        let mut r: Vec<ActorPtr> = Vec::new();
        let mut i: usize = 0;
        while i < self.entities.len()
            invariant
                i <= self.spec_entities().len(),
                r@ == self.spec_entities().take(i as int).map_values(|e: EntityRecord| e.actor.ptr),
            decreases self.spec_entities().len() - i,
        {
            r.push(self.entities[i].actor.ptr);
            i = i + 1;
            assert(r@ =~= self.spec_entities().take(i as int).map_values(|e: EntityRecord| e.actor.ptr));
        }
        assert(self.spec_entities().take(i as int) =~= self.spec_entities());
        r
    }

    /// The identity bridge.
    pub fn registration(&self) -> (r: &ActorRegistration)
        ensures
            r@ == self.spec_bridge(),
    {
        &self.registration
    }

    /// The component registry.
    pub fn reflection_registry(&self) -> (r: &ReflectionRegistry)
        ensures
            *r == self.spec_registry(),
    {
        &self.reflection_registry
    }

    /// The frame resource.
    pub fn frame(&self) -> (r: Frame)
        ensures
            r == self.spec_frame(),
    {
        self.frame
    }

    /// The startup schedule.
    pub fn startup(&self) -> (r: &Schedule)
        ensures
            *r == self.spec_startup(),
    {
        &self.startup
    }

    /// The per-frame schedule.
    pub fn schedule(&self) -> (r: &Schedule)
        ensures
            *r == self.spec_schedule(),
    {
        &self.schedule
    }

    /// The upload system: the spatial-data setter calls to make this frame.
    pub fn upload_transform_to_unreal(&self) -> (r: SpatialUpload)
        ensures
            upload_outcome(self.spec_entities(), r.updates@, r.fault),
    {
        upload_from(&self.entities)
    }
}

/// The two-step identifier query. With no buffer, `len` receives the number
/// of registered identifiers. With a buffer of `len` slots, its first
/// `min(len, count)` slots receive the identifiers in registration order and
/// `len` is left as it was.
pub fn retrieve_uuids(core: &UnrealCore, buffer: &mut Option<Vec<u128>>, len: &mut usize)
    requires
        match *old(buffer) {
            Some(b) => *old(len) <= b@.len(),
            None => true,
        },
    ensures
        match *old(buffer) {
            None => {
                &&& *final(buffer) == None::<Vec<u128>>
                &&& *final(len) == core.spec_registry()@.len()
            },
            Some(b) => {
                &&& *final(len) == *old(len)
                &&& final(buffer).is_some()
                &&& final(buffer).unwrap()@ == filled(b@, core.spec_registry()@, *old(len) as int)
            },
        },
{
    match buffer {
        Some(b) => core.reflection_registry.fill(b, *len),
        None => {
            *len = core.reflection_registry.len();
        },
    }
}

/// Copies into `velocity` the movement velocity of the entity of `actor`;
/// for a handle the bridge does not know, `velocity` is left as it was.
pub fn get_velocity(core: &UnrealCore, actor: ActorPtr, velocity: &mut Vec3)
    requires
        core.wf(),
    ensures
        *final(velocity) == (if core.spec_bridge().contains_key(actor.0) {
            core.spec_entities()[core.spec_bridge()[actor.0].index as int].movement.velocity
        } else {
            *old(velocity)
        }),
{
    match core.registration.get(actor) {
        Some(entity) => {
            *velocity = core.entities[entity.index].movement.velocity;
        },
        None => {},
    }
}

} // verus!
