//! The cubes of the falling game and the pickups that the player makes by
//! striking them.

use vstd::prelude::*;
use crate::actor::{Actor, ActorBody};
use crate::layers::{hazard_contact, CollisionEvent, EntityId};

verus! {

/// What a cube does when the player strikes it.
#[derive(Clone, Copy, Debug, PartialEq, Eq, Structural)]
pub enum CubeType {
    /// Scenery; never struck.
    Environment,
    /// Restores health.
    Health,
    /// Speeds the fall up.
    Speed,
    /// Slows the fall down.
    Brake,
}

/// Velocity change of a brake or speed pickup: 40 units per second.
pub const PICKUP_SPEED: i64 = 40_000;

/// Health restored by a health pickup: 20 units.
pub const PICKUP_HEALTH: i64 = 20_000;

/// A cube of the level.
#[derive(Clone, Copy, Debug, PartialEq, Eq, Structural)]
pub struct Cube {
    pub id: EntityId,
    pub cube_type: CubeType,
    pub visible: bool,
}

/// The actor after picking up a cube of kind `kind`.
pub open spec fn spec_apply_pickup(a: Actor, kind: CubeType) -> Actor {
    match kind {
        CubeType::Brake => Actor { velocity: (a.velocity + PICKUP_SPEED) as i64, ..a },
        CubeType::Health => Actor { health: (a.health + PICKUP_HEALTH) as i64, ..a },
        CubeType::Speed => Actor { velocity: (a.velocity - PICKUP_SPEED) as i64, ..a },
        CubeType::Environment => a,
    }
}

/// `n` more pickups cannot take the actor's stats out of `i64`.
pub open spec fn pickups_fit(a: Actor, n: int) -> bool {
    &&& i64::MIN + PICKUP_SPEED * n <= a.velocity
    &&& a.velocity <= i64::MAX - PICKUP_SPEED * n
    &&& a.health <= i64::MAX - PICKUP_HEALTH * n
}

/// Applies the effect of a cube of kind `kind` to the actor: a brake adds 40
/// units per second to the velocity, a speed cube takes 40 away, a health
/// cube adds 20 to health, scenery does nothing.
pub fn apply_pickup(a: &mut Actor, kind: CubeType)
    requires
        pickups_fit(*old(a), 1),
    ensures
        *final(a) == spec_apply_pickup(*old(a), kind),
        kind == CubeType::Brake ==> final(a).velocity == old(a).velocity + PICKUP_SPEED
            && final(a).health == old(a).health,
        kind == CubeType::Health ==> final(a).health == old(a).health + PICKUP_HEALTH
            && final(a).velocity == old(a).velocity,
        kind == CubeType::Speed ==> final(a).velocity == old(a).velocity - PICKUP_SPEED
            && final(a).health == old(a).health,
        final(a).scream_last_play == old(a).scream_last_play,
{
    match kind {
        CubeType::Brake => {
            a.velocity = a.velocity + PICKUP_SPEED;
        },
        CubeType::Health => {
            a.health = a.health + PICKUP_HEALTH;
        },
        CubeType::Speed => {
            a.velocity = a.velocity - PICKUP_SPEED;
        },
        CubeType::Environment => {},
    }
}

/// No two cubes share an id.
pub open spec fn ids_unique(s: Seq<Cube>) -> bool {
    forall|i: int, j: int| 0 <= i < s.len() && 0 <= j < s.len() && i != j ==> s[i].id != s[j].id
}

pub open spec fn has_id(s: Seq<Cube>, id: EntityId) -> bool {
    exists|i: int| 0 <= i < s.len() && s[i].id == id
}

/// The position of the cube `id`, when it is present.
pub open spec fn index_of(s: Seq<Cube>, id: EntityId) -> int {
    choose|i: int| 0 <= i < s.len() && s[i].id == id
}

/// The state that pickups change: the cubes, the actor and its body.
pub struct PickupState {
    pub cubes: Seq<Cube>,
    pub actor: Actor,
    pub body: ActorBody,
}

/// One collision event: when it is a player/world contact with a cube that
/// is still present, the cube is removed, its effect applied, and the body's
/// vertical velocity set to the actor's velocity. The id of the removed cube
/// is returned. Any other event changes nothing.
pub open spec fn spec_pickup(st: PickupState, ev: CollisionEvent) -> (PickupState, Option<EntityId>) {
    match hazard_contact(ev) {
        Some(e) => if has_id(st.cubes, e) {
            let i = index_of(st.cubes, e);
            let a = spec_apply_pickup(st.actor, st.cubes[i].cube_type);
            (
                PickupState {
                    cubes: st.cubes.remove(i),
                    actor: a,
                    body: ActorBody { vy: a.velocity, ..st.body },
                },
                Some(e),
            )
        } else {
            (st, None)
        },
        None => (st, None),
    }
}

/// A batch of collision events handled in order, with the ids of the cubes
/// removed, in order.
pub open spec fn run_pickups(st: PickupState, evs: Seq<CollisionEvent>) -> (PickupState, Seq<EntityId>)
    decreases evs.len(),
{
    if evs.len() == 0 {
        (st, Seq::empty())
    } else {
        let prev = run_pickups(st, evs.drop_last());
        let step = spec_pickup(prev.0, evs.last());
        match step.1 {
            Some(e) => (step.0, prev.1.push(e)),
            None => (step.0, prev.1),
        }
    }
}

proof fn lemma_remove_unique(s: Seq<Cube>, i: int)
    requires
        ids_unique(s),
        0 <= i < s.len(),
    ensures
        ids_unique(s.remove(i)),
        !has_id(s.remove(i), s[i].id),
        forall|x: EntityId| has_id(s.remove(i), x) ==> has_id(s, x),
{
    let r = s.remove(i);
    assert forall|a: int| 0 <= a < r.len() implies r[a] == s[if a < i { a } else { a + 1 }] by {}
    assert forall|a: int, b: int| 0 <= a < r.len() && 0 <= b < r.len() && a != b implies r[a].id
        != r[b].id by {
        assert(r[a] == s[if a < i { a } else { a + 1 }]);
        assert(r[b] == s[if b < i { b } else { b + 1 }]);
    }
    if has_id(r, s[i].id) {
        let a = choose|a: int| 0 <= a < r.len() && r[a].id == s[i].id;
        assert(r[a] == s[if a < i { a } else { a + 1 }]);
    }
    assert forall|x: EntityId| has_id(r, x) implies has_id(s, x) by {
        let a = choose|a: int| 0 <= a < r.len() && r[a].id == x;
        assert(r[a] == s[if a < i { a } else { a + 1 }]);
    }
}

/// A cube removed by a pickup cannot be picked up again: a second contact
/// with the same cube, in the same batch or later, changes nothing.
pub proof fn lemma_pickup_once(st: PickupState, ev1: CollisionEvent, ev2: CollisionEvent)
    requires
        ids_unique(st.cubes),
        hazard_contact(ev1).is_some(),
        hazard_contact(ev2) == hazard_contact(ev1),
    ensures
        spec_pickup(spec_pickup(st, ev1).0, ev2) == (spec_pickup(st, ev1).0, None::<EntityId>),
        !has_id(spec_pickup(st, ev1).0.cubes, hazard_contact(ev1).unwrap()),
{
    let e = hazard_contact(ev1).unwrap();
    if has_id(st.cubes, e) {
        let i = index_of(st.cubes, e);
        lemma_remove_unique(st.cubes, i);
    }
}

/// A batch whose contacts all strike one present cube `e`, however many
/// there are, applies that cube's effect once: the cube is removed once, the
/// actor changes as one pickup says (a brake adds exactly 40 units per second
/// to the velocity and leaves health alone, a health cube adds exactly 20 to
/// health and leaves the velocity alone, a speed cube takes 40 from the
/// velocity), and the body's vertical velocity becomes the actor's.
pub proof fn lemma_batch_on_one_cube(st: PickupState, evs: Seq<CollisionEvent>, e: EntityId)
    requires
        ids_unique(st.cubes),
        has_id(st.cubes, e),
        evs.len() >= 1,
        forall|i: int| 0 <= i < evs.len() ==> #[trigger] hazard_contact(evs[i]) == Some(e),
    ensures
        ({
            let kind = st.cubes[index_of(st.cubes, e)].cube_type;
            let a = spec_apply_pickup(st.actor, kind);
            &&& run_pickups(st, evs).1 == seq![e]
            &&& run_pickups(st, evs).0.cubes == st.cubes.remove(index_of(st.cubes, e))
            &&& run_pickups(st, evs).0.actor == a
            &&& run_pickups(st, evs).0.body == (ActorBody { vy: a.velocity, ..st.body })
        }),
    decreases evs.len(),
{
    if evs.len() == 1 {
        assert(evs.drop_last().len() == 0);
        assert(seq![e] =~= Seq::<EntityId>::empty().push(e));
    } else {
        let prev = evs.drop_last();
        assert forall|i: int| 0 <= i < prev.len() implies #[trigger] hazard_contact(prev[i]) == Some(e) by {
            assert(prev[i] == evs[i]);
        }
        lemma_batch_on_one_cube(st, prev, e);
        let i = index_of(st.cubes, e);
        lemma_remove_unique(st.cubes, i);
        assert(hazard_contact(evs.last()) == Some(e));
    }
}

/// A batch that strikes only cubes no longer present (or nothing at all)
/// changes nothing and removes nothing: a cube already picked up cannot be
/// picked up again.
pub proof fn lemma_batch_on_absent_cubes(st: PickupState, evs: Seq<CollisionEvent>)
    requires
        forall|i: int|
            0 <= i < evs.len() ==> match #[trigger] hazard_contact(evs[i]) {
                Some(x) => !has_id(st.cubes, x),
                None => true,
            },
    ensures
        run_pickups(st, evs) == (st, Seq::<EntityId>::empty()),
    decreases evs.len(),
{
    if evs.len() > 0 {
        let prev = evs.drop_last();
        assert forall|i: int| 0 <= i < prev.len() implies match #[trigger] hazard_contact(prev[i]) {
            Some(x) => !has_id(st.cubes, x),
            None => true,
        } by {
            assert(prev[i] == evs[i]);
        }
        lemma_batch_on_absent_cubes(st, prev);
        assert(hazard_contact(evs[evs.len() - 1]) == hazard_contact(evs.last()));
    }
}

/// Over a batch of events, each cube is removed at most once: the removed
/// ids are distinct, each was present before the batch, and none is present
/// after it.
pub proof fn lemma_pickups_distinct(st: PickupState, evs: Seq<CollisionEvent>)
    requires
        ids_unique(st.cubes),
    ensures
        ids_unique(run_pickups(st, evs).0.cubes),
        run_pickups(st, evs).1.no_duplicates(),
        forall|k: int|
            0 <= k < run_pickups(st, evs).1.len() ==> has_id(st.cubes, #[trigger] run_pickups(st, evs).1[k])
                && !has_id(run_pickups(st, evs).0.cubes, run_pickups(st, evs).1[k]),
        forall|x: EntityId| has_id(run_pickups(st, evs).0.cubes, x) ==> has_id(st.cubes, x),
    decreases evs.len(),
{
    if evs.len() > 0 {
        lemma_pickups_distinct(st, evs.drop_last());
        let prev = run_pickups(st, evs.drop_last());
        let ev = evs.last();
        match hazard_contact(ev) {
            Some(e) => {
                if has_id(prev.0.cubes, e) {
                    let i = index_of(prev.0.cubes, e);
                    lemma_remove_unique(prev.0.cubes, i);
                    let rem = prev.1.push(e);
                    assert forall|k: int| 0 <= k < rem.len() implies has_id(st.cubes, rem[k]) && !has_id(
                        prev.0.cubes.remove(i),
                        rem[k],
                    ) by {
                        if k < prev.1.len() {
                            assert(rem[k] == prev.1[k]);
                        }
                    }
                    assert forall|a: int, b: int| 0 <= a < rem.len() && 0 <= b < rem.len() && a != b implies rem[a]
                        != rem[b] by {
                        if a < prev.1.len() && b < prev.1.len() {
                            assert(rem[a] == prev.1[a]);
                            assert(rem[b] == prev.1[b]);
                        } else if a < prev.1.len() {
                            assert(rem[a] == prev.1[a]);
                            assert(!has_id(prev.0.cubes, prev.1[a]));
                        } else {
                            assert(rem[b] == prev.1[b]);
                            assert(!has_id(prev.0.cubes, prev.1[b]));
                        }
                    }
                }
            },
            None => {},
        }
    }
}

/// The scenery cubes of `s`, in order.
pub open spec fn scenery(s: Seq<Cube>) -> Seq<Cube>
    decreases s.len(),
{
    if s.len() == 0 {
        s
    } else if s.last().cube_type == CubeType::Environment {
        scenery(s.drop_last()).push(s.last())
    } else {
        scenery(s.drop_last())
    }
}

/// The ids of the cubes of `s` that are not scenery, in order.
pub open spec fn game_cube_ids(s: Seq<Cube>) -> Seq<EntityId>
    decreases s.len(),
{
    if s.len() == 0 {
        Seq::empty()
    } else if s.last().cube_type == CubeType::Environment {
        game_cube_ids(s.drop_last())
    } else {
        game_cube_ids(s.drop_last()).push(s.last().id)
    }
}

proof fn lemma_scenery_unique(s: Seq<Cube>)
    requires
        ids_unique(s),
    ensures
        ids_unique(scenery(s)),
        forall|x: EntityId| has_id(scenery(s), x) ==> has_id(s, x),
    decreases s.len(),
{
    if s.len() > 0 {
        let d = s.drop_last();
        assert(ids_unique(d));
        lemma_scenery_unique(d);
        if s.last().cube_type == CubeType::Environment {
            let r = scenery(s);
            let p = scenery(d);
            assert(!has_id(d, s.last().id));
            assert forall|a: int, b: int| 0 <= a < r.len() && 0 <= b < r.len() && a != b implies r[a].id
                != r[b].id by {
                if a == p.len() {
                    assert(has_id(p, r[b].id));
                } else if b == p.len() {
                    assert(has_id(p, r[a].id));
                }
            }
            assert forall|x: EntityId| has_id(r, x) implies has_id(s, x) by {
                let a = choose|a: int| 0 <= a < r.len() && r[a].id == x;
                if a < p.len() {
                    assert(r[a] == p[a]);
                    assert(has_id(p, x));
                    assert(has_id(d, x));
                    let b = choose|b: int| 0 <= b < d.len() && d[b].id == x;
                    assert(s[b] == d[b]);
                } else {
                    assert(s[s.len() - 1].id == x);
                }
            }
        } else {
            assert forall|x: EntityId| has_id(scenery(s), x) implies has_id(s, x) by {
                assert(scenery(s) == scenery(d));
                assert(has_id(d, x));
                let b = choose|b: int| 0 <= b < d.len() && d[b].id == x;
                assert(s[b] == d[b]);
            }
        }
    }
}

/// Which cubes a stage shows.
#[derive(Clone, Copy, Debug, PartialEq, Eq, Structural)]
pub enum VisibilityPattern {
    /// Every cube hidden.
    AllHidden,
    /// The cubes at positions divisible by the step shown, the others
    /// hidden.
    EveryNth(u64),
}

/// Whether the cube at position `i` is shown under `p`.
pub open spec fn shown(p: VisibilityPattern, i: int) -> bool {
    match p {
        VisibilityPattern::AllHidden => false,
        VisibilityPattern::EveryNth(n) => i % (n as int) == 0,
    }
}

pub open spec fn pattern_valid(p: VisibilityPattern) -> bool {
    match p {
        VisibilityPattern::AllHidden => true,
        VisibilityPattern::EveryNth(n) => n > 0,
    }
}

/// `c`, shown or hidden as `visible` says.
pub open spec fn with_visible(c: Cube, visible: bool) -> Cube {
    Cube { visible, ..c }
}

/// The cubes of `s`, each shown or hidden by its position under `p`.
pub open spec fn patterned(s: Seq<Cube>, p: VisibilityPattern) -> Seq<Cube> {
    Seq::new(s.len(), |i: int| with_visible(s[i], shown(p, i)))
}

/// The cubes of the level, in the order in which they were spawned.
pub struct CubeField {
    pub cubes: Vec<Cube>,
}

impl CubeField {
    pub open spec fn view(&self) -> Seq<Cube> {
        self.cubes@
    }

    pub open spec fn wf(&self) -> bool {
        ids_unique(self@)
    }

    /// An empty field.
    pub fn new() -> (r: CubeField)
        ensures
            r@ == Seq::<Cube>::empty(),
            r.wf(),
    {
        CubeField { cubes: Vec::new() }
    }

    pub fn len(&self) -> (r: usize)
        ensures
            r == self@.len(),
    {
        self.cubes.len()
    }

    /// The position of the cube `id`, if present.
    pub fn find(&self, id: EntityId) -> (r: Option<usize>)
        requires
            self.wf(),
        ensures
            r.is_some() <==> has_id(self@, id),
            r.is_some() ==> r.unwrap() == index_of(self@, id) && self@[r.unwrap() as int].id == id,
    {
        let mut i: usize = 0;
        while i < self.cubes.len()
            invariant
                i <= self@.len(),
                self.wf(),
                forall|j: int| 0 <= j < i ==> self@[j].id != id,
            decreases self@.len() - i,
        {
            if self.cubes[i].id == id {
                proof {
                    assert(has_id(self@, id));
                    let k = index_of(self@, id);
                    assert(self@[k].id == id);
                    assert(k == i);
                }
                return Some(i);
            }
            i = i + 1;
        }
        None
    }

    /// The kind of the cube `id`, if present.
    pub fn kind_of(&self, id: EntityId) -> (r: Option<CubeType>)
        requires
            self.wf(),
        ensures
            r.is_some() <==> has_id(self@, id),
            r.is_some() ==> r.unwrap() == self@[index_of(self@, id)].cube_type,
    {
        match self.find(id) {
            Some(i) => Some(self.cubes[i].cube_type),
            None => None,
        }
    }

    /// Adds a visible cube at the end, unless a cube with that id is already
    /// present; tells whether it was added.
    pub fn spawn(&mut self, id: EntityId, cube_type: CubeType) -> (r: bool)
        requires
            old(self).wf(),
        ensures
            final(self).wf(),
            r == !has_id(old(self)@, id),
            r ==> final(self)@ == old(self)@.push(Cube { id, cube_type, visible: true }),
            !r ==> final(self)@ == old(self)@,
    {
        match self.find(id) {
            Some(_) => false,
            None => {
                self.cubes.push(Cube { id, cube_type, visible: true });
                proof {
                    assert forall|i: int, j: int|
                        0 <= i < self@.len() && 0 <= j < self@.len() && i != j implies self@[i].id
                        != self@[j].id by {
                        if i == old(self)@.len() as int {
                            assert(old(self)@[j].id != id);
                        } else if j == old(self)@.len() as int {
                            assert(old(self)@[i].id != id);
                        }
                    }
                }
                true
            },
        }
    }

    /// Removes every cube that is not scenery and returns their ids, for the
    /// caller to despawn.
    pub fn clear_game_cubes(&mut self) -> (r: Vec<EntityId>)
        requires
            old(self).wf(),
        ensures
            final(self).wf(),
            final(self)@ == scenery(old(self)@),
            r@ == game_cube_ids(old(self)@),
    {
        let mut kept: Vec<Cube> = Vec::new();
        let mut removed: Vec<EntityId> = Vec::new();
        let mut i: usize = 0;
        while i < self.cubes.len()
            invariant
                i <= self@.len(),
                kept@ == scenery(self@.take(i as int)),
                removed@ == game_cube_ids(self@.take(i as int)),
            decreases self@.len() - i,
        {
            let c = self.cubes[i];
            if c.cube_type == CubeType::Environment {
                kept.push(c);
            } else {
                removed.push(c.id);
            }
            proof {
                let next = self@.take(i + 1);
                assert(next.drop_last() =~= self@.take(i as int));
                assert(next.last() == c);
            }
            i = i + 1;
        }
        proof {
            assert(self@.take(self@.len() as int) =~= self@);
            lemma_scenery_unique(self@);
        }
        self.cubes = kept;
        removed
    }

    /// Removes every cube.
    pub fn clear(&mut self)
        ensures
            final(self)@ == Seq::<Cube>::empty(),
            final(self).wf(),
    {
        self.cubes = Vec::new();
    }

    /// Shows or hides each cube by its position, as `p` says.
    pub fn apply_visibility(&mut self, p: VisibilityPattern)
        requires
            old(self).wf(),
            pattern_valid(p),
        ensures
            final(self).wf(),
            final(self)@ == patterned(old(self)@, p),
            final(self)@.len() == old(self)@.len(),
            forall|i: int|
                0 <= i < old(self)@.len() ==> #[trigger] final(self)@[i] == with_visible(
                    old(self)@[i],
                    shown(p, i),
                ),
    {
        let ghost start = self@;
        let mut i: usize = 0;
        while i < self.cubes.len()
            invariant
                i <= self@.len(),
                self@.len() == start.len(),
                pattern_valid(p),
                forall|j: int| 0 <= j < i ==> #[trigger] self@[j] == with_visible(start[j], shown(p, j)),
                forall|j: int| i <= j < self@.len() ==> #[trigger] self@[j] == start[j],
            decreases self@.len() - i,
        {
            let on = match p {
                VisibilityPattern::AllHidden => false,
                VisibilityPattern::EveryNth(n) => (i as u64) % n == 0,
            };
            let c = self.cubes[i];
            self.cubes.set(i, Cube { visible: on, ..c });
            i = i + 1;
        }
        proof {
            assert forall|a: int, b: int|
                0 <= a < self@.len() && 0 <= b < self@.len() && a != b implies self@[a].id
                != self@[b].id by {
                assert(self@[a].id == start[a].id);
                assert(self@[b].id == start[b].id);
            }
            assert(self@ =~= patterned(start, p));
        }
    }

    /// Removes the cube at position `i`.
    fn remove_at(&mut self, i: usize) -> (r: Cube)
        requires
            old(self).wf(),
            i < old(self)@.len(),
        ensures
            final(self).wf(),
            final(self)@ == old(self)@.remove(i as int),
            r == old(self)@[i as int],
    {
        let r = self.cubes.remove(i);
        proof {
            assert forall|a: int, b: int|
                0 <= a < self@.len() && 0 <= b < self@.len() && a != b implies self@[a].id
                != self@[b].id by {
                let oa = if a < i { a } else { a + 1 };
                let ob = if b < i { b } else { b + 1 };
                assert(self@[a] == old(self)@[oa]);
                assert(self@[b] == old(self)@[ob]);
            }
        }
        r
    }
}

/// Handles the collision events of one frame in order. Each player/world
/// contact with a cube that is still present removes that cube, applies its
/// effect, and sets the body's vertical velocity to the actor's velocity, so
/// that the pickup overrides the current fall speed. A contact with a cube
/// already removed, by this batch or earlier, is skipped. Returns the ids of
/// the removed cubes, one sound cue each.
pub fn check_game_cube_collision(
    field: &mut CubeField,
    actor: &mut Actor,
    body: &mut ActorBody,
    events: &Vec<CollisionEvent>,
) -> (r: Vec<EntityId>)
    requires
        old(field).wf(),
        pickups_fit(*old(actor), events@.len() as int),
    ensures
        final(field).wf(),
        (PickupState { cubes: final(field)@, actor: *final(actor), body: *final(body) }, r@)
            == run_pickups(
            PickupState { cubes: old(field)@, actor: *old(actor), body: *old(body) },
            events@,
        ),
{
    let ghost init = PickupState { cubes: field@, actor: *actor, body: *body };
    let mut removed: Vec<EntityId> = Vec::new();
    let mut i: usize = 0;
    while i < events.len()
        invariant
            i <= events@.len(),
            field.wf(),
            pickups_fit(*actor, events@.len() - i),
            (PickupState { cubes: field@, actor: *actor, body: *body }, removed@) == run_pickups(
                init,
                events@.take(i as int),
            ),
        decreases events@.len() - i,
    {
        let ghost before = PickupState { cubes: field@, actor: *actor, body: *body };
        let ev = events[i];
        match ev.hazard_hit() {
            Some(e) => {
                match field.find(e) {
                    Some(k) => {
                        let c = field.remove_at(k);
                        apply_pickup(actor, c.cube_type);
                        body.vy = actor.velocity;
                        removed.push(e);
                    },
                    None => {},
                }
            },
            None => {},
        }
        proof {
            let next = events@.take(i + 1);
            assert(next.drop_last() =~= events@.take(i as int));
            assert(next.last() == ev);
            let step = spec_pickup(before, ev);
            assert(step.0 == PickupState { cubes: field@, actor: *actor, body: *body });
        }
        i = i + 1;
    }
    assert(events@.take(events@.len() as int) =~= events@);
    removed
}

} // verus!
