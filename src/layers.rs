//! Collision layers and the pairwise classification of collision events.

use vstd::prelude::*;

verus! {

/// Identifier of an entity of the host world.
pub type EntityId = u64;

/// The physics layers that the game assigns.
#[derive(Clone, Copy, Debug, PartialEq, Eq, Structural)]
pub enum Layer {
    World,
    Player,
    Teleport,
}

impl Layer {
    pub open spec fn spec_bit(self) -> u32 {
        match self {
            Layer::World => 1,
            Layer::Player => 2,
            Layer::Teleport => 4,
        }
    }

    /// The bit that stands for this layer in a layer set.
    pub fn bit(self) -> (r: u32)
        ensures
            r == self.spec_bit(),
    {
        match self {
            Layer::World => 1,
            Layer::Player => 2,
            Layer::Teleport => 4,
        }
    }
}

/// The groups a body belongs to and the groups it collides with, one bit per
/// layer.
#[derive(Clone, Copy, Debug, PartialEq, Eq, Structural)]
pub struct CollisionLayers {
    pub groups: u32,
    pub masks: u32,
}

proof fn lemma_bit_distinct(a: Layer, b: Layer)
    ensures
        (a.spec_bit() & b.spec_bit() != 0) == (a == b),
{
    assert(1u32 & 2u32 == 0) by (bit_vector);
    assert(1u32 & 4u32 == 0) by (bit_vector);
    assert(2u32 & 4u32 == 0) by (bit_vector);
    assert(2u32 & 1u32 == 0) by (bit_vector);
    assert(4u32 & 1u32 == 0) by (bit_vector);
    assert(4u32 & 2u32 == 0) by (bit_vector);
    assert(1u32 & 1u32 != 0) by (bit_vector);
    assert(2u32 & 2u32 != 0) by (bit_vector);
    assert(4u32 & 4u32 != 0) by (bit_vector);
}

proof fn lemma_or_and(x: u32, y: u32, c: u32)
    ensures
        ((x | y) & c != 0) == ((x & c != 0) || (y & c != 0)),
{
    assert(((x | y) & c != 0) == ((x & c != 0) || (y & c != 0))) by (bit_vector);
}

impl CollisionLayers {
    pub open spec fn has_group(self, l: Layer) -> bool {
        self.groups & l.spec_bit() != 0
    }

    pub open spec fn has_mask(self, l: Layer) -> bool {
        self.masks & l.spec_bit() != 0
    }

    /// Layers that belong to no group and collide with nothing.
    pub fn none() -> (r: CollisionLayers)
        ensures
            forall|l: Layer| !r.has_group(l),
            forall|l: Layer| !r.has_mask(l),
    {
        let r = CollisionLayers { groups: 0, masks: 0 };
        assert forall|l: Layer| !r.has_group(l) && !r.has_mask(l) by {
            let b = l.spec_bit();
            assert(0u32 & b == 0) by (bit_vector);
        }
        r
    }

    /// Adds `l` to the groups.
    pub fn with_group(self, l: Layer) -> (r: CollisionLayers)
        ensures
            r.masks == self.masks,
            forall|m: Layer| r.has_mask(m) == self.has_mask(m),
            forall|m: Layer| r.has_group(m) == (self.has_group(m) || m == l),
    {
        let r = CollisionLayers { groups: self.groups | l.bit(), masks: self.masks };
        assert forall|m: Layer| r.has_group(m) == (self.has_group(m) || m == l) by {
            lemma_or_and(self.groups, l.spec_bit(), m.spec_bit());
            lemma_bit_distinct(l, m);
        }
        r
    }

    /// Adds `l` to the masks.
    pub fn with_mask(self, l: Layer) -> (r: CollisionLayers)
        ensures
            r.groups == self.groups,
            forall|m: Layer| r.has_group(m) == self.has_group(m),
            forall|m: Layer| r.has_mask(m) == (self.has_mask(m) || m == l),
    {
        let r = CollisionLayers { groups: self.groups, masks: self.masks | l.bit() };
        assert forall|m: Layer| r.has_mask(m) == (self.has_mask(m) || m == l) by {
            lemma_or_and(self.masks, l.spec_bit(), m.spec_bit());
            lemma_bit_distinct(l, m);
        }
        r
    }

    /// Layers in the single group `group` that collide with the single layer
    /// `mask`.
    pub fn new(group: Layer, mask: Layer) -> (r: CollisionLayers)
        ensures
            forall|m: Layer| r.has_group(m) == (m == group),
            forall|m: Layer| r.has_mask(m) == (m == mask),
    {
        let empty = CollisionLayers::none();
        let grouped = empty.with_group(group);
        let r = grouped.with_mask(mask);
        assert forall|m: Layer| r.has_group(m) == (m == group) by {
            assert(!empty.has_group(m));
        }
        assert forall|m: Layer| r.has_mask(m) == (m == mask) by {
            assert(!empty.has_mask(m));
            assert(grouped.has_mask(m) == empty.has_mask(m));
        }
        r
    }

    pub fn contains_group(&self, l: Layer) -> (r: bool)
        ensures
            r == self.has_group(l),
    {
        self.groups & l.bit() != 0
    }

    pub fn contains_mask(&self, l: Layer) -> (r: bool)
        ensures
            r == self.has_mask(l),
    {
        self.masks & l.bit() != 0
    }
}

/// A contact reported by the physics engine between two bodies, in no
/// particular order.
#[derive(Clone, Copy, Debug, PartialEq, Eq, Structural)]
pub struct CollisionEvent {
    pub entity_1: EntityId,
    pub layers_1: CollisionLayers,
    pub entity_2: EntityId,
    pub layers_2: CollisionLayers,
}

/// `l` is in group `a` and not in group `b`.
pub open spec fn only_in(l: CollisionLayers, a: Layer, b: Layer) -> bool {
    l.has_group(a) && !l.has_group(b)
}

/// The body that the player touched when the event pairs a player-only body
/// with a body that is in `other` and not in the player's layer.
pub open spec fn spec_contact(ev: CollisionEvent, other: Layer) -> Option<EntityId> {
    if only_in(ev.layers_1, Layer::Player, other) && only_in(ev.layers_2, other, Layer::Player) {
        Some(ev.entity_2)
    } else if only_in(ev.layers_2, Layer::Player, other) && only_in(ev.layers_1, other, Layer::Player) {
        Some(ev.entity_1)
    } else {
        None
    }
}

/// The hazard that the player struck, if the event is a player/world contact.
pub open spec fn hazard_contact(ev: CollisionEvent) -> Option<EntityId> {
    spec_contact(ev, Layer::World)
}

/// The trigger that the player entered, if the event is a player/teleport
/// contact.
pub open spec fn teleport_contact(ev: CollisionEvent) -> Option<EntityId> {
    spec_contact(ev, Layer::Teleport)
}

impl CollisionEvent {
    /// The same event with its two participants exchanged.
    pub fn swapped(self) -> (r: CollisionEvent)
        ensures
            r.entity_1 == self.entity_2,
            r.layers_1 == self.layers_2,
            r.entity_2 == self.entity_1,
            r.layers_2 == self.layers_1,
    {
        CollisionEvent {
            entity_1: self.entity_2,
            layers_1: self.layers_2,
            entity_2: self.entity_1,
            layers_2: self.layers_1,
        }
    }

    /// The body on the other side of a contact between the player and the
    /// layer `other`, whichever side the player is reported on.
    pub fn contact_with(&self, other: Layer) -> (r: Option<EntityId>)
        requires
            other != Layer::Player,
        ensures
            r == spec_contact(*self, other),
    {
        let p1 = self.layers_1.contains_group(Layer::Player);
        let p2 = self.layers_2.contains_group(Layer::Player);
        let o1 = self.layers_1.contains_group(other);
        let o2 = self.layers_2.contains_group(other);
        if p1 && !o1 && o2 && !p2 {
            Some(self.entity_2)
        } else if p2 && !o2 && o1 && !p1 {
            Some(self.entity_1)
        } else {
            None
        }
    }

    /// The hazard struck in a player/world contact.
    pub fn hazard_hit(&self) -> (r: Option<EntityId>)
        ensures
            r == hazard_contact(*self),
    {
        self.contact_with(Layer::World)
    }

    /// The trigger entered in a player/teleport contact.
    pub fn teleport_hit(&self) -> (r: Option<EntityId>)
        ensures
            r == teleport_contact(*self),
    {
        self.contact_with(Layer::Teleport)
    }
}

/// Classification does not depend on the order in which the two participants
/// of a contact are reported.
pub proof fn lemma_contact_symmetric(ev: CollisionEvent, other: Layer)
    requires
        other != Layer::Player,
    ensures
        spec_contact(ev, other) == spec_contact(
            CollisionEvent {
                entity_1: ev.entity_2,
                layers_1: ev.layers_2,
                entity_2: ev.entity_1,
                layers_2: ev.layers_1,
            },
            other,
        ),
{
}

} // verus!
