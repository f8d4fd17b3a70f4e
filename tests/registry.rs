use unreal_api::{
    register_core_components, retrieve_uuids, CoreStage, ReflectionRegistry, UnrealCore,
    UserModule, ACTOR_COMPONENT_UUID, CAMERA_COMPONENT_UUID, MOVEMENT_COMPONENT_UUID,
    PARENT_COMPONENT_UUID, PHYSICS_COMPONENT_UUID, PLAYER_INPUT_COMPONENT_UUID,
    TRANSFORM_COMPONENT_UUID,
};

fn module(components: Vec<u128>) -> UserModule {
    UserModule { components, startup_systems: vec![], systems: vec![] }
}

fn core_ids() -> Vec<u128> {
    vec![
        TRANSFORM_COMPONENT_UUID,
        ACTOR_COMPONENT_UUID,
        PLAYER_INPUT_COMPONENT_UUID,
        MOVEMENT_COMPONENT_UUID,
        CAMERA_COMPONENT_UUID,
        PARENT_COMPONENT_UUID,
        PHYSICS_COMPONENT_UUID,
    ]
}

#[test]
fn core_components_are_registered_in_order() {
    let mut reg = ReflectionRegistry::new();
    register_core_components(&mut reg);
    assert_eq!(reg.len(), 7);
    let mut buf = vec![0u128; 7];
    reg.fill(&mut buf, 7);
    assert_eq!(buf, core_ids());
}

#[test]
fn registering_twice_changes_nothing() {
    let mut reg = ReflectionRegistry::new();
    reg.register(5);
    reg.register(9);
    reg.register(5);
    assert_eq!(reg.len(), 2);
    assert!(reg.contains(9));
    assert!(!reg.contains(7));
}

#[test]
fn query_then_fill_returns_every_identifier_once() {
    let core = UnrealCore::new(&module(vec![0x11, 0x22, ACTOR_COMPONENT_UUID]));
    let mut buffer: Option<Vec<u128>> = None;
    let mut len: usize = 0;
    retrieve_uuids(&core, &mut buffer, &mut len);
    assert_eq!(buffer, None);
    assert_eq!(len, 9);
    let mut buffer = Some(vec![0u128; len]);
    retrieve_uuids(&core, &mut buffer, &mut len);
    assert_eq!(len, 9);
    let mut expected = core_ids();
    expected.push(0x11);
    expected.push(0x22);
    let got = buffer.unwrap();
    assert_eq!(got, expected);
    for i in 0..got.len() {
        for j in (i + 1)..got.len() {
            assert_ne!(got[i], got[j]);
        }
    }
}

#[test]
fn fill_with_a_short_buffer_copies_a_prefix() {
    let core = UnrealCore::new(&module(vec![]));
    let mut buffer = Some(vec![1u128, 2, 3, 4]);
    let mut len: usize = 2;
    retrieve_uuids(&core, &mut buffer, &mut len);
    assert_eq!(len, 2);
    assert_eq!(
        buffer.unwrap(),
        vec![TRANSFORM_COMPONENT_UUID, ACTOR_COMPONENT_UUID, 3, 4]
    );
}

#[test]
fn fill_with_a_long_buffer_leaves_the_tail() {
    let mut reg = ReflectionRegistry::new();
    reg.register(7);
    let mut buf = vec![1u128, 2, 3];
    reg.fill(&mut buf, 3);
    assert_eq!(buf, vec![7, 2, 3]);
}

#[test]
fn empty_registry_reports_zero() {
    let reg = ReflectionRegistry::new();
    assert_eq!(reg.len(), 0);
}

#[test]
fn module_with_startup_stage_system_is_refused() {
    let m = UserModule { components: vec![], startup_systems: vec![], systems: vec![(CoreStage::Startup, 1)] };
    assert!(!m.is_valid());
    let good = UserModule { components: vec![], startup_systems: vec![], systems: vec![(CoreStage::Update, 1)] };
    assert!(good.is_valid());
}
