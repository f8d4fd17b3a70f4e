//! Component records and the value types they are made of.
//!
//! Host floating-point values are carried as their IEEE-754 single-precision
//! bit patterns: this layer copies them between the host and the store and
//! only ever inspects them to reject not-a-number values.
use std::marker::PhantomData;
use vstd::prelude::*;

verus! {

/// Bit pattern of the single-precision value `1.0`.
pub const ONE_BITS: u32 = 0x3f80_0000;

/// A single-precision bit pattern is a not-a-number value when its exponent
/// bits are all set and its mantissa is not zero.
pub open spec fn bits_are_nan(b: u32) -> bool {
    (b & 0x7f80_0000u32) == 0x7f80_0000u32 && (b & 0x007f_ffffu32) != 0u32
}

/// Tells whether the single-precision value with bit pattern `b` is not a number.
pub fn single_bits_are_nan(b: u32) -> (r: bool)
    ensures
        r == bits_are_nan(b),
{
    (b & 0x7f80_0000u32) == 0x7f80_0000u32 && (b & 0x007f_ffffu32) != 0u32
}

/// A three-component vector, each coordinate as a single-precision bit pattern.
#[derive(Clone, Copy, Debug, PartialEq, Eq, Structural)]
pub struct Vec3 {
    pub x: u32,
    pub y: u32,
    pub z: u32,
}

impl Vec3 {
    pub open spec fn spec_is_nan(self) -> bool {
        bits_are_nan(self.x) || bits_are_nan(self.y) || bits_are_nan(self.z)
    }

    /// The zero vector.
    pub fn zero() -> (r: Self)
        ensures
            r == (Vec3 { x: 0, y: 0, z: 0 }),
    {
        Vec3 { x: 0, y: 0, z: 0 }
    }

    /// True when any coordinate is not a number.
    pub fn is_nan(&self) -> (r: bool)
        ensures
            r == self.spec_is_nan(),
    {
        single_bits_are_nan(self.x) || single_bits_are_nan(self.y) || single_bits_are_nan(
            self.z,
        )
    }
}

impl Default for Vec3 {
    fn default() -> (r: Self)
        ensures
            r == (Vec3 { x: 0, y: 0, z: 0 }),
    {
        Vec3::zero()
    }
}

/// A rotation quaternion, each coordinate as a single-precision bit pattern.
#[derive(Clone, Copy, Debug, PartialEq, Eq, Structural)]
pub struct Quat {
    pub x: u32,
    pub y: u32,
    pub z: u32,
    pub w: u32,
}

impl Quat {
    pub open spec fn spec_is_nan(self) -> bool {
        bits_are_nan(self.x) || bits_are_nan(self.y) || bits_are_nan(self.z) || bits_are_nan(
            self.w,
        )
    }

    /// The identity rotation `(0, 0, 0, 1)`.
    pub fn identity() -> (r: Self)
        ensures
            r == (Quat { x: 0, y: 0, z: 0, w: ONE_BITS }),
    {
        Quat { x: 0, y: 0, z: 0, w: ONE_BITS }
    }

    /// True when any coordinate is not a number.
    pub fn is_nan(&self) -> (r: bool)
        ensures
            r == self.spec_is_nan(),
    {
        single_bits_are_nan(self.x) || single_bits_are_nan(self.y) || single_bits_are_nan(
            self.z,
        ) || single_bits_are_nan(self.w)
    }
}

impl Default for Quat {
    fn default() -> (r: Self)
        ensures
            r == (Quat { x: 0, y: 0, z: 0, w: ONE_BITS }),
    {
        Quat::identity()
    }
}

/// Handle of one entity of the store: its index in spawn order.
#[derive(Clone, Copy, Debug, PartialEq, Eq, Structural)]
pub struct Entity {
    pub index: usize,
}

/// Opaque handle of a host actor. It is compared, never dereferenced.
#[derive(Clone, Copy, Debug, PartialEq, Eq, Structural)]
pub struct ActorPtr(pub u64);

impl Default for ActorPtr {
    fn default() -> (r: Self)
        ensures
            r == ActorPtr(0),
    {
        ActorPtr(0)
    }
}

/// Marker for a host capsule object.
#[derive(Clone, Copy, Debug, PartialEq, Eq)]
pub enum Capsule {
    Capsule,
}

/// Marker for a host primitive (physics-capable) object.
#[derive(Clone, Copy, Debug, PartialEq, Eq)]
pub enum Primitive {
    Primitive,
}

/// Opaque handle of a host object of kind `T`; `0` is the null handle.
#[derive(Debug)]
pub struct UnrealPtr<T> {
    pub ptr: u64,
    pub _m: PhantomData<T>,
}

impl<T> Clone for UnrealPtr<T> {
    fn clone(&self) -> (r: Self)
        ensures
            r.ptr == self.ptr,
    {
        UnrealPtr { ptr: self.ptr, _m: PhantomData }
    }
}

impl<T> Copy for UnrealPtr<T> {
}

impl<T> UnrealPtr<T> {
    /// Wraps a raw host handle.
    pub fn from_raw(ptr: u64) -> (r: Self)
        ensures
            r == (UnrealPtr::<T> { ptr, _m: PhantomData }),
    {
        UnrealPtr { ptr, _m: PhantomData }
    }
}

impl<T> Default for UnrealPtr<T> {
    fn default() -> (r: Self)
        ensures
            r.ptr == 0,
    {
        UnrealPtr { ptr: 0, _m: PhantomData }
    }
}

/// Links an entity to the host actor it mirrors.
#[derive(Clone, Copy, Debug)]
pub struct ActorComponent {
    pub ptr: ActorPtr,
}

/// Position, rotation and scale of an entity.
#[derive(Clone, Copy, Debug)]
pub struct TransformComponent {
    pub position: Vec3,
    pub rotation: Quat,
    pub scale: Vec3,
}

impl TransformComponent {
    pub open spec fn spec_is_nan(self) -> bool {
        self.position.spec_is_nan() || self.rotation.spec_is_nan() || self.scale.spec_is_nan()
    }

    /// True when any coordinate of position, rotation or scale is not a number.
    pub fn is_nan(&self) -> (r: bool)
        ensures
            r == self.spec_is_nan(),
    {
        self.position.is_nan() || self.rotation.is_nan() || self.scale.is_nan()
    }
}

impl Default for TransformComponent {
    fn default() -> (r: Self)
        ensures
            r == default_transform(),
    {
        TransformComponent { position: Vec3::zero(), rotation: Quat::identity(), scale: Vec3::zero() }
    }
}

/// Zero position, identity rotation, zero scale.
pub open spec fn default_transform() -> TransformComponent {
    TransformComponent {
        position: Vec3 { x: 0, y: 0, z: 0 },
        rotation: Quat { x: 0, y: 0, z: 0, w: ONE_BITS },
        scale: Vec3 { x: 0, y: 0, z: 0 },
    }
}

/// A camera's target and current angles.
#[derive(Clone, Copy, Debug)]
pub struct CameraComponent {
    pub x: u32,
    pub y: u32,
    pub current_x: u32,
    pub current_y: u32,
}

impl Default for CameraComponent {
    fn default() -> (r: Self)
        ensures
            r == (CameraComponent { x: 0, y: 0, current_x: 0, current_y: 0 }),
    {
        CameraComponent { x: 0, y: 0, current_x: 0, current_y: 0 }
    }
}

/// Logical movement state, independent of host physics.
#[derive(Clone, Copy, Debug)]
pub struct MovementComponent {
    pub velocity: Vec3,
    pub view: Quat,
    pub is_falling: bool,
}

/// Zero velocity, identity view, not falling.
pub open spec fn default_movement() -> MovementComponent {
    MovementComponent {
        velocity: Vec3 { x: 0, y: 0, z: 0 },
        view: Quat { x: 0, y: 0, z: 0, w: ONE_BITS },
        is_falling: false,
    }
}

impl Default for MovementComponent {
    fn default() -> (r: Self)
        ensures
            r == default_movement(),
    {
        MovementComponent { velocity: Vec3::zero(), view: Quat::identity(), is_falling: false }
    }
}

/// Refers (without owning it) to the parent entity.
#[derive(Clone, Copy, Debug)]
pub struct ParentComponent {
    pub parent: Entity,
}

/// The direction the player asks to move in.
#[derive(Clone, Copy, Debug)]
pub struct PlayerInputComponent {
    pub direction: Vec3,
}

impl Default for PlayerInputComponent {
    fn default() -> (r: Self)
        ensures
            r == (PlayerInputComponent { direction: Vec3 { x: 0, y: 0, z: 0 } }),
    {
        PlayerInputComponent { direction: Vec3::zero() }
    }
}

/// A call into the host's physics bindings for one primitive.
#[derive(Clone, Copy, Debug)]
pub enum PhysicsCommand {
    SetVelocity { ptr: u64, velocity: Vec3 },
    AddImpulse { ptr: u64, impulse: Vec3 },
    AddForce { ptr: u64, force: Vec3 },
}

/// The host physics object of an entity, with a snapshot of its state.
///
/// `is_simulating` and `velocity` change only through `download_state`.
#[derive(Clone, Copy, Debug)]
pub struct PhysicsComponent {
    pub ptr: UnrealPtr<Primitive>,
    pub is_simulating: bool,
    pub velocity: Vec3,
}

impl PhysicsComponent {
    /// Builds the component and takes its first snapshot from the host's
    /// answers: the is-simulating flag (`1` means yes) and the velocity.
    pub fn new(ptr: UnrealPtr<Primitive>, is_simulating: u32, velocity: Vec3) -> (r: Self)
        ensures
            r.ptr == ptr,
            r.is_simulating == (is_simulating == 1),
            r.velocity == velocity,
    {
        let mut p = PhysicsComponent { ptr, is_simulating: false, velocity: Vec3::zero() };
        p.download_state(is_simulating, velocity);
        p
    }

    /// Refreshes the snapshot from the host's answers.
    pub fn download_state(&mut self, is_simulating: u32, velocity: Vec3)
        ensures
            final(self).ptr == old(self).ptr,
            final(self).is_simulating == (is_simulating == 1),
            final(self).velocity == velocity,
    {
        self.is_simulating = is_simulating == 1;
        self.velocity = velocity;
    }

    /// The host call that pushes the cached velocity.
    pub fn upload_state(&self) -> (r: PhysicsCommand)
        ensures
            r == (PhysicsCommand::SetVelocity { ptr: self.ptr.ptr, velocity: self.velocity }),
    {
        PhysicsCommand::SetVelocity { ptr: self.ptr.ptr, velocity: self.velocity }
    }

    /// The host call that applies an impulse to this primitive.
    pub fn add_impulse(&self, impulse: Vec3) -> (r: PhysicsCommand)
        ensures
            r == (PhysicsCommand::AddImpulse { ptr: self.ptr.ptr, impulse }),
    {
        PhysicsCommand::AddImpulse { ptr: self.ptr.ptr, impulse }
    }

    /// The host call that applies a force to this primitive.
    pub fn add_force(&self, force: Vec3) -> (r: PhysicsCommand)
        ensures
            r == (PhysicsCommand::AddForce { ptr: self.ptr.ptr, force }),
    {
        PhysicsCommand::AddForce { ptr: self.ptr.ptr, force }
    }
}

} // verus!
