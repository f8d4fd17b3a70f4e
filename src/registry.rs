//! The reflection registry: the stable identifiers of every component type
//! known to the runtime, in registration order.
use vstd::prelude::*;

verus! {

pub const ACTOR_COMPONENT_UUID: u128 = 0x5ad05c2b_7cbc_4081_8819_1997b3e13331;

pub const PHYSICS_COMPONENT_UUID: u128 = 0xffc10b5c_635c_43ce_8288_e3c6f6d67e36;

pub const TRANSFORM_COMPONENT_UUID: u128 = 0xb8738d9e_ab21_47db_8587_4019b38e35a6;

pub const CAMERA_COMPONENT_UUID: u128 = 0x8d2df877_499b_46f3_9660_bd2e1867af0d;

pub const MOVEMENT_COMPONENT_UUID: u128 = 0xfc8bd668_fc0a_4ab7_8b3d_f0f22bb539e2;

pub const PARENT_COMPONENT_UUID: u128 = 0xf1e22f5b_2bfe_4ce5_938b_7c093def708e;

pub const PLAYER_INPUT_COMPONENT_UUID: u128 = 0x35256309_43b4_4459_9884_eb6e9137faf5;

/// The identifiers of the built-in components, in the order they are registered.
pub open spec fn core_component_uuids() -> Seq<u128> {
    seq![
        TRANSFORM_COMPONENT_UUID,
        ACTOR_COMPONENT_UUID,
        PLAYER_INPUT_COMPONENT_UUID,
        MOVEMENT_COMPONENT_UUID,
        CAMERA_COMPONENT_UUID,
        PARENT_COMPONENT_UUID,
        PHYSICS_COMPONENT_UUID,
    ]
}

/// The registry `s` after registering `uuid`: unchanged if it is already there,
/// else `uuid` is appended.
pub open spec fn with_registered(s: Seq<u128>, uuid: u128) -> Seq<u128> {
    if s.contains(uuid) {
        s
    } else {
        s.push(uuid)
    }
}

/// The registry `s` after registering each of `uuids` in turn.
pub open spec fn with_all_registered(s: Seq<u128>, uuids: Seq<u128>) -> Seq<u128>
    decreases uuids.len(),
{
    if uuids.len() == 0 {
        s
    } else {
        with_registered(with_all_registered(s, uuids.drop_last()), uuids.last())
    }
}

/// Component identifiers in registration order, each at most once.
pub struct ReflectionRegistry {
    uuid_set: Vec<u128>,
}

impl View for ReflectionRegistry {
    type V = Seq<u128>;

    closed spec fn view(&self) -> Seq<u128> {
        self.uuid_set@
    }
}

impl ReflectionRegistry {
    pub open spec fn wf(&self) -> bool {
        self@.no_duplicates()
    }

    /// An empty registry.
    pub fn new() -> (r: Self)
        ensures
            r.wf(),
            r@ == Seq::<u128>::empty(),
    {
        ReflectionRegistry { uuid_set: Vec::new() }
    }

    /// Records a component type's identifier; registering it again changes nothing.
    pub fn register(&mut self, uuid: u128)
        requires
            old(self).wf(),
        ensures
            final(self).wf(),
            final(self)@ == with_registered(old(self)@, uuid),
    {
        if !self.contains(uuid) {
            self.uuid_set.push(uuid);
        }
    }

    /// Whether `uuid` has been registered.
    pub fn contains(&self, uuid: u128) -> (r: bool)
        ensures
            r == self@.contains(uuid),
    {
        let mut i: usize = 0;
        while i < self.uuid_set.len()
            invariant
                i <= self@.len(),
                forall|j: int| 0 <= j < i ==> self@[j] != uuid,
            decreases self@.len() - i,
        {
            if self.uuid_set[i] == uuid {
                return true;
            }
            i = i + 1;
        }
        false
    }

    /// The number of registered identifiers.
    pub fn len(&self) -> (r: usize)
        ensures
            r == self@.len(),
    {
        self.uuid_set.len()
    }

    /// Copies the first `min(len, count)` identifiers into the first slots of `buffer`,
    /// leaving its other slots as they were.
    pub fn fill(&self, buffer: &mut Vec<u128>, len: usize)
        requires
            len <= old(buffer)@.len(),
        ensures
            final(buffer)@ == filled(old(buffer)@, self@, len as int),
    {
        let n: usize = if len < self.uuid_set.len() {
            len
        } else {
            self.uuid_set.len()
        };
        let mut i: usize = 0;
        while i < n
            invariant
                n <= len <= old(buffer)@.len(),
                n <= self@.len(),
                n == (if len < self@.len() { len as int } else { self@.len() as int }),
                i <= n,
                buffer@.len() == old(buffer)@.len(),
                forall|j: int| 0 <= j < i ==> buffer@[j] == self@[j],
                forall|j: int| i <= j < buffer@.len() ==> buffer@[j] == old(buffer)@[j],
            decreases n - i,
        {
            buffer.set(i, self.uuid_set[i]);
            i = i + 1;
        }
        assert(buffer@ =~= filled(old(buffer)@, self@, len as int));
    }
}

/// `buffer` after the first `min(len, uuids.len())` slots take the registry's identifiers.
pub open spec fn filled(buffer: Seq<u128>, uuids: Seq<u128>, len: int) -> Seq<u128> {
    Seq::new(
        buffer.len(),
        |j: int|
            if j < len && j < uuids.len() {
                uuids[j]
            } else {
                buffer[j]
            },
    )
}

/// Registers the identifiers of the built-in component types.
pub fn register_core_components(registry: &mut ReflectionRegistry)
    requires
        old(registry).wf(),
    ensures
        final(registry).wf(),
        final(registry)@ == with_all_registered(old(registry)@, core_component_uuids()),
{
    registry.register(TRANSFORM_COMPONENT_UUID);
    registry.register(ACTOR_COMPONENT_UUID);
    registry.register(PLAYER_INPUT_COMPONENT_UUID);
    registry.register(MOVEMENT_COMPONENT_UUID);
    registry.register(CAMERA_COMPONENT_UUID);
    registry.register(PARENT_COMPONENT_UUID);
    registry.register(PHYSICS_COMPONENT_UUID);
    proof {
        reveal_with_fuel(with_all_registered, 8);
        assert(core_component_uuids().drop_last().drop_last().drop_last().drop_last().drop_last().drop_last().drop_last() =~= Seq::<u128>::empty());
    }
}

/// Registering any identifiers keeps them unique, and registering identifiers
/// that are pairwise distinct into an empty registry lists exactly them, in order.
pub proof fn lemma_registration_enumerates(uuids: Seq<u128>)
    ensures
        with_all_registered(Seq::empty(), uuids).no_duplicates(),
        with_all_registered(Seq::empty(), uuids).to_set() == uuids.to_set(),
        uuids.no_duplicates() ==> with_all_registered(Seq::empty(), uuids) == uuids,
    decreases uuids.len(),
{
    if uuids.len() > 0 {
        let init = uuids.drop_last();
        lemma_registration_enumerates(init);
        let s = with_all_registered(Seq::<u128>::empty(), init);
        let u = uuids.last();
        assert(uuids =~= init.push(u));
        init.lemma_push_to_set_commute(u);
        if s.contains(u) {
            assert(s.to_set().contains(u));
            assert(s.to_set().insert(u) =~= s.to_set());
        } else {
            s.lemma_push_to_set_commute(u);
            assert(init.no_duplicates() ==> !init.contains(u) || !uuids.no_duplicates());
        }
    } else {
        assert(uuids.to_set() =~= Set::empty());
        assert(Seq::<u128>::empty().to_set() =~= Set::empty());
    }
}

/// Registering pairwise distinct identifiers into an empty registry and then
/// asking for the count yields one per registration; filling a buffer of that
/// size yields exactly those identifiers, in order, with no duplicate.
pub proof fn lemma_query_then_fill(uuids: Seq<u128>, buffer: Seq<u128>)
    requires
        uuids.no_duplicates(),
        buffer.len() == uuids.len(),
    ensures
        with_all_registered(Seq::empty(), uuids).len() == uuids.len(),
        filled(buffer, with_all_registered(Seq::empty(), uuids), uuids.len() as int) == uuids,
        filled(buffer, with_all_registered(Seq::empty(), uuids), uuids.len() as int).no_duplicates(),
{
    lemma_registration_enumerates(uuids);
    assert(filled(buffer, uuids, uuids.len() as int) =~= uuids);
}

} // verus!
