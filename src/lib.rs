//! Gameplay runtime embedded in a host engine: the component registry, the
//! actor/entity bridge, the per-frame synchronisation of spatial state and the
//! staged scheduler, each with a verified contract.
pub mod components;
pub mod runtime;
pub mod registry;
pub mod schedule;

pub use components::{
    bits_are_nan, single_bits_are_nan, ActorComponent, ActorPtr, CameraComponent, Capsule,
    Entity, MovementComponent, ParentComponent, PhysicsCommand, PhysicsComponent,
    PlayerInputComponent, Primitive, Quat, TransformComponent, UnrealPtr, Vec3, ONE_BITS,
};
pub use registry::{
    register_core_components, ReflectionRegistry, ACTOR_COMPONENT_UUID, CAMERA_COMPONENT_UUID,
    MOVEMENT_COMPONENT_UUID, PARENT_COMPONENT_UUID, PHYSICS_COMPONENT_UUID,
    PLAYER_INPUT_COMPONENT_UUID, TRANSFORM_COMPONENT_UUID,
};
pub use schedule::{CoreStage, Schedule, SystemKind};
pub use runtime::{
    ActorComponentPtr, ActorComponentType, ActorRegistration, EntityRecord, Frame, HostActor,
    ResultCode, SpatialUpdate, get_velocity, retrieve_uuids, SpatialUpload, UnrealCore, UserModule,
};
