use unreal_api::{
    get_velocity, single_bits_are_nan, ActorComponentPtr, ActorComponentType, ActorPtr,
    CoreStage, Entity, HostActor, PhysicsCommand, PhysicsComponent, Primitive, Quat, ResultCode,
    Schedule, SystemKind, TransformComponent, UnrealCore, UnrealPtr, UserModule, Vec3,
};

fn v(x: f32, y: f32, z: f32) -> Vec3 {
    Vec3 { x: x.to_bits(), y: y.to_bits(), z: z.to_bits() }
}

fn q(x: f32, y: f32, z: f32, w: f32) -> Quat {
    Quat { x: x.to_bits(), y: y.to_bits(), z: z.to_bits(), w: w.to_bits() }
}

fn t(p: f32) -> TransformComponent {
    TransformComponent { position: v(p, p + 1.0, p + 2.0), rotation: q(0.0, 0.0, 0.0, 1.0), scale: v(1.0, 1.0, 1.0) }
}

fn no_root() -> ActorComponentPtr {
    ActorComponentPtr { ty: ActorComponentType::Capsule, ptr: 0 }
}

fn actor(handle: u64, root: ActorComponentPtr, sim: u32, vel: Vec3) -> HostActor {
    HostActor { actor: ActorPtr(handle), root, is_simulating: sim, velocity: vel }
}

fn empty_module() -> UserModule {
    UserModule { components: vec![], startup_systems: vec![], systems: vec![] }
}

fn two_actors() -> Vec<HostActor> {
    vec![
        actor(0xA, ActorComponentPtr { ty: ActorComponentType::Primitive, ptr: 0x100 }, 1, v(1.0, 0.0, 0.0)),
        actor(0xB, no_root(), 0, v(0.0, 0.0, 0.0)),
    ]
}

fn started() -> UnrealCore {
    let mut core = UnrealCore::new(&empty_module());
    assert_eq!(core.begin_play(&empty_module(), &two_actors()), ResultCode::Success);
    core
}

fn same_transform(a: &TransformComponent, b: &TransformComponent) -> bool {
    a.position == b.position && a.rotation == b.rotation && a.scale == b.scale
}

#[test]
fn nan_bits_are_detected() {
    assert!(single_bits_are_nan(f32::NAN.to_bits()));
    assert!(!single_bits_are_nan(f32::INFINITY.to_bits()));
    assert!(!single_bits_are_nan(1.5f32.to_bits()));
    assert!(v(0.0, f32::NAN, 0.0).is_nan());
    assert!(q(0.0, 0.0, 0.0, f32::NAN).is_nan());
    assert!(!t(3.0).is_nan());
    let mut bad = t(0.0);
    bad.scale = v(f32::NAN, 1.0, 1.0);
    assert!(bad.is_nan());
}

#[test]
fn default_transform_is_zero_identity() {
    let d = TransformComponent::default();
    assert_eq!(d.position, v(0.0, 0.0, 0.0));
    assert_eq!(d.rotation, q(0.0, 0.0, 0.0, 1.0));
    assert_eq!(d.scale, v(0.0, 0.0, 0.0));
}

#[test]
fn physics_component_snapshots_and_commands() {
    let mut p = PhysicsComponent::new(UnrealPtr::<Primitive>::from_raw(42), 1, v(2.0, 0.0, 0.0));
    assert!(p.is_simulating);
    assert_eq!(p.velocity, v(2.0, 0.0, 0.0));
    p.download_state(0, v(0.0, 3.0, 0.0));
    assert!(!p.is_simulating);
    assert_eq!(p.ptr.ptr, 42);
    match p.upload_state() {
        PhysicsCommand::SetVelocity { ptr, velocity } => {
            assert_eq!(ptr, 42);
            assert_eq!(velocity, v(0.0, 3.0, 0.0));
        }
        _ => panic!("expected a velocity update"),
    }
    match p.add_impulse(v(1.0, 1.0, 1.0)) {
        PhysicsCommand::AddImpulse { ptr, impulse } => {
            assert_eq!(ptr, 42);
            assert_eq!(impulse, v(1.0, 1.0, 1.0));
        }
        _ => panic!("expected an impulse"),
    }
    match p.add_force(v(0.0, 0.0, 9.0)) {
        PhysicsCommand::AddForce { ptr, force } => {
            assert_eq!(ptr, 42);
            assert_eq!(force, v(0.0, 0.0, 9.0));
        }
        _ => panic!("expected a force"),
    }
}

#[test]
fn is_simulating_means_exactly_one() {
    let p = PhysicsComponent::new(UnrealPtr::<Primitive>::from_raw(1), 2, v(0.0, 0.0, 0.0));
    assert!(!p.is_simulating);
}

#[test]
fn two_actor_scenario() {
    let mut core = started();
    let a = core.registration().get(ActorPtr(0xA)).unwrap();
    let b = core.registration().get(ActorPtr(0xB)).unwrap();
    assert_ne!(a, b);
    let ra = core.entity(a).unwrap();
    let rb = core.entity(b).unwrap();
    let phys = ra.physics.unwrap();
    assert!(phys.is_simulating);
    assert_eq!(phys.velocity, v(1.0, 0.0, 0.0));
    assert_eq!(phys.ptr.ptr, 0x100);
    assert!(rb.physics.is_none());

    let order = core.tick(0.016f32.to_bits());
    assert_eq!(core.frame().dt, 0.016f32.to_bits());
    assert_eq!(order, vec![SystemKind::UpdateInput, SystemKind::DownloadTransform, SystemKind::UploadTransform]);
    let links = core.actor_links();
    assert_eq!(links, vec![ActorPtr(0xA), ActorPtr(0xB)]);
    let fetched = vec![t(10.0), t(20.0)];
    assert_eq!(core.download_transform_from_unreal(&fetched), Ok(()));
    assert!(same_transform(&core.entity(a).unwrap().transform, &t(10.0)));
    assert!(same_transform(&core.entity(b).unwrap().transform, &t(20.0)));
    let up = core.upload_transform_to_unreal();
    assert_eq!(up.result_code(), ResultCode::Success);
    assert_eq!(up.updates.len(), 2);
    assert_eq!(up.updates[0].actor, ActorPtr(0xA));
    assert_eq!(up.updates[1].actor, ActorPtr(0xB));
}

#[test]
fn registered_entities_get_default_components() {
    let core = started();
    assert_eq!(core.entity_count(), 2);
    let r = core.entity(Entity { index: 1 }).unwrap();
    assert_eq!(r.actor.ptr, ActorPtr(0xB));
    assert!(same_transform(&r.transform, &TransformComponent::default()));
    assert_eq!(r.movement.velocity, v(0.0, 0.0, 0.0));
    assert!(!r.movement.is_falling);
    assert_eq!(r.player_input.direction, v(0.0, 0.0, 0.0));
    assert!(r.camera.is_none());
    assert!(r.parent.is_none());
    assert!(core.entity(Entity { index: 2 }).is_none());
}

#[test]
fn null_primitive_root_gets_no_physics() {
    let mut core = UnrealCore::new(&empty_module());
    let actors = vec![actor(0xC, ActorComponentPtr { ty: ActorComponentType::Primitive, ptr: 0 }, 1, v(1.0, 0.0, 0.0))];
    core.begin_play(&empty_module(), &actors);
    assert!(core.entity(Entity { index: 0 }).unwrap().physics.is_none());
}

#[test]
fn download_writes_host_values() {
    let mut core = started();
    let fetched = vec![t(1.0), t(2.0)];
    assert_eq!(core.download_transform_from_unreal(&fetched), Ok(()));
    for i in 0..2 {
        assert!(same_transform(&core.entity(Entity { index: i }).unwrap().transform, &fetched[i]));
    }
}

#[test]
fn upload_calls_setter_once_per_entity() {
    let mut core = started();
    let mut rec = core.entity(Entity { index: 1 }).unwrap();
    rec.transform = t(5.0);
    core.set_entity(Entity { index: 1 }, rec);
    let up = core.upload_transform_to_unreal();
    assert!(up.fault.is_none());
    assert_eq!(up.updates.len(), 2);
    assert!(same_transform(&up.updates[0].transform, &TransformComponent::default()));
    assert!(same_transform(&up.updates[1].transform, &t(5.0)));
}

#[test]
fn download_then_upload_is_a_round_trip() {
    let mut core = started();
    let fetched = vec![t(7.0), t(-3.0)];
    core.download_transform_from_unreal(&fetched).unwrap();
    let up = core.upload_transform_to_unreal();
    assert!(up.fault.is_none());
    let links = core.actor_links();
    for i in 0..2 {
        assert_eq!(up.updates[i].actor, links[i]);
        assert!(same_transform(&up.updates[i].transform, &fetched[i]));
    }
}

#[test]
fn begin_play_twice_equals_once() {
    let mut once = UnrealCore::new(&empty_module());
    once.begin_play(&empty_module(), &two_actors());
    let mut twice = UnrealCore::new(&empty_module());
    twice.begin_play(&empty_module(), &two_actors());
    twice.tick(5);
    twice.begin_play(&empty_module(), &two_actors());
    assert_eq!(once.entity_count(), twice.entity_count());
    assert_eq!(once.actor_links(), twice.actor_links());
    assert_eq!(twice.frame().dt, 0);
    for h in [0xAu64, 0xB] {
        assert_eq!(once.registration().get(ActorPtr(h)), twice.registration().get(ActorPtr(h)));
    }
}

#[test]
fn nan_in_transform_fails_the_upload() {
    let mut core = started();
    let mut rec = core.entity(Entity { index: 0 }).unwrap();
    rec.transform.position = v(f32::NAN, 0.0, 0.0);
    core.set_entity(Entity { index: 0 }, rec);
    let up = core.upload_transform_to_unreal();
    assert_eq!(up.fault, Some(Entity { index: 0 }));
    assert_eq!(up.result_code(), ResultCode::Panic);
    assert!(up.updates.is_empty());
}

#[test]
fn nan_in_second_entity_keeps_first_update() {
    let mut core = started();
    let mut rec = core.entity(Entity { index: 1 }).unwrap();
    rec.transform.rotation = q(0.0, f32::NAN, 0.0, 1.0);
    core.set_entity(Entity { index: 1 }, rec);
    let up = core.upload_transform_to_unreal();
    assert_eq!(up.fault, Some(Entity { index: 1 }));
    assert_eq!(up.updates.len(), 1);
    assert_eq!(up.updates[0].actor, ActorPtr(0xA));
}

#[test]
fn nan_from_host_fails_the_download() {
    let mut core = started();
    let mut bad = t(4.0);
    bad.scale = v(1.0, f32::NAN, 1.0);
    let fetched = vec![bad, t(9.0)];
    assert_eq!(core.download_transform_from_unreal(&fetched), Err(Entity { index: 0 }));
    assert!(same_transform(&core.entity(Entity { index: 1 }).unwrap().transform, &TransformComponent::default()));
}

#[test]
fn get_velocity_of_unknown_actor_leaves_output() {
    let core = started();
    let mut out = v(9.0, 8.0, 7.0);
    get_velocity(&core, ActorPtr(0xDEAD), &mut out);
    assert_eq!(out, v(9.0, 8.0, 7.0));
}

#[test]
fn get_velocity_of_known_actor_copies_movement() {
    let mut core = started();
    let mut rec = core.entity(Entity { index: 0 }).unwrap();
    rec.movement.velocity = v(3.0, 2.0, 1.0);
    core.set_entity(Entity { index: 0 }, rec);
    let mut out = v(9.0, 8.0, 7.0);
    get_velocity(&core, ActorPtr(0xA), &mut out);
    assert_eq!(out, v(3.0, 2.0, 1.0));
}

#[test]
fn set_entity_keeps_actor_link() {
    let mut core = started();
    let mut rec = core.entity(Entity { index: 0 }).unwrap();
    rec.actor.ptr = ActorPtr(0x999);
    core.set_entity(Entity { index: 0 }, rec);
    assert_eq!(core.entity(Entity { index: 0 }).unwrap().actor.ptr, ActorPtr(0xA));
}

#[test]
fn frame_schedule_orders_user_systems_between_syncs() {
    let m = UserModule {
        components: vec![],
        startup_systems: vec![7, 8],
        systems: vec![(CoreStage::Update, 1), (CoreStage::PostUpdate, 2), (CoreStage::Update, 3), (CoreStage::PreUpdate, 4)],
    };
    let mut core = UnrealCore::new(&m);
    assert_eq!(core.begin_play(&m, &two_actors()), ResultCode::Success);
    assert_eq!(core.startup().run_order(), vec![SystemKind::User(7), SystemKind::User(8)]);
    let order = core.tick(0);
    assert_eq!(
        order,
        vec![
            SystemKind::UpdateInput,
            SystemKind::DownloadTransform,
            SystemKind::User(4),
            SystemKind::User(1),
            SystemKind::User(3),
            SystemKind::UploadTransform,
            SystemKind::User(2),
        ]
    );
}

#[test]
fn new_schedule_has_no_input_update() {
    let core = UnrealCore::new(&empty_module());
    assert_eq!(core.schedule().run_order(), vec![SystemKind::DownloadTransform, SystemKind::UploadTransform]);
    assert_eq!(core.entity_count(), 0);
}

#[test]
fn invalid_module_leaves_state_and_panics() {
    let mut core = started();
    let bad = UserModule { components: vec![], startup_systems: vec![], systems: vec![(CoreStage::Startup, 1)] };
    assert_eq!(core.begin_play(&bad, &vec![]), ResultCode::Panic);
    assert_eq!(core.entity_count(), 2);
}

#[test]
fn schedule_stages_run_in_insertion_order() {
    let mut s = Schedule::new();
    s.add_stage(CoreStage::PostUpdate);
    s.add_stage(CoreStage::PreUpdate);
    s.add_system_to_stage(CoreStage::PreUpdate, SystemKind::User(1));
    s.add_system_to_stage(CoreStage::PostUpdate, SystemKind::User(2));
    assert!(s.has_stage(CoreStage::PreUpdate));
    assert!(!s.has_stage(CoreStage::Update));
    assert_eq!(s.run_order(), vec![SystemKind::User(2), SystemKind::User(1)]);
}
