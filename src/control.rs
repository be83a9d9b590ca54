//! Keyboard control of the actor: pressed keys become a set of actions, and
//! the actions move the actor inside the tunnel's ring.

use vstd::prelude::*;
use crate::actor::ActorBody;
use crate::layers::{hazard_contact, CollisionEvent};

verus! {

/// What the player asks for in a frame.
#[derive(Clone, Copy, Debug, PartialEq, Eq, Structural)]
pub enum PlayerAction {
    Idle,
    Up,
    Down,
    Left,
    Right,
    Brake,
}

impl PlayerAction {
    pub open spec fn spec_bit(self) -> u32 {
        match self {
            PlayerAction::Idle => 1,
            PlayerAction::Up => 2,
            PlayerAction::Down => 4,
            PlayerAction::Left => 8,
            PlayerAction::Right => 16,
            PlayerAction::Brake => 32,
        }
    }

    /// The flag bit of this action.
    pub fn bit(self) -> (r: u32)
        ensures
            r == self.spec_bit(),
    {
        match self {
            PlayerAction::Idle => 1,
            PlayerAction::Up => 2,
            PlayerAction::Down => 4,
            PlayerAction::Left => 8,
            PlayerAction::Right => 16,
            PlayerAction::Brake => 32,
        }
    }
}

/// A set of actions, one bit each.
#[derive(Clone, Copy, Debug, PartialEq, Eq, Structural)]
pub struct PlayerActionFlags {
    pub bits: u32,
}

proof fn lemma_action_bits(a: PlayerAction, b: PlayerAction)
    ensures
        (a.spec_bit() & b.spec_bit() != 0) == (a == b),
        a.spec_bit() & b.spec_bit() == 0 || a.spec_bit() & b.spec_bit() == b.spec_bit(),
{
    let x = a.spec_bit();
    let y = b.spec_bit();
    assert(x == 1 || x == 2 || x == 4 || x == 8 || x == 16 || x == 32);
    assert(y == 1 || y == 2 || y == 4 || y == 8 || y == 16 || y == 32);
    assert((x == 1 || x == 2 || x == 4 || x == 8 || x == 16 || x == 32) && (y == 1 || y == 2 || y == 4
        || y == 8 || y == 16 || y == 32) ==> ((x & y != 0) == (x == y)) && (x & y == 0 || x & y == y))
        by (bit_vector);
}

proof fn lemma_or_single(g: u32, b: u32, c: u32)
    ensures
        ((g | b) & c == c) == ((g & c == c) || (b & c == c)) || !(c == 1 || c == 2 || c == 4 || c == 8
            || c == 16 || c == 32),
{
    assert(((g | b) & c == c) == ((g & c == c) || (b & c == c)) || !(c == 1 || c == 2 || c == 4 || c
        == 8 || c == 16 || c == 32)) by (bit_vector);
}

impl PlayerActionFlags {
    /// The action is in the set.
    pub open spec fn has(self, a: PlayerAction) -> bool {
        self.bits & a.spec_bit() == a.spec_bit()
    }

    /// The set that holds only `Idle`.
    pub fn idle() -> (r: PlayerActionFlags)
        ensures
            forall|a: PlayerAction| r.has(a) == (a == PlayerAction::Idle),
    {
        let r = PlayerActionFlags { bits: 1 };
        assert forall|a: PlayerAction| r.has(a) == (a == PlayerAction::Idle) by {
            lemma_action_bits(PlayerAction::Idle, a);
        }
        r
    }

    pub fn contains(&self, a: PlayerAction) -> (r: bool)
        ensures
            r == self.has(a),
    {
        self.bits & a.bit() == a.bit()
    }

    /// Adds an action to the set.
    pub fn insert(&mut self, a: PlayerAction)
        ensures
            forall|b: PlayerAction| final(self).has(b) == (old(self).has(b) || b == a),
    {
        let r = PlayerActionFlags { bits: self.bits | a.bit() };
        assert forall|b: PlayerAction| r.has(b) == (self.has(b) || b == a) by {
            lemma_or_single(self.bits, a.spec_bit(), b.spec_bit());
            lemma_action_bits(a, b);
        }
        *self = r;
    }
}

/// Keys that control the actor.
#[derive(Clone, Copy, Debug, PartialEq, Eq, Structural)]
pub enum Key {
    Left,
    Right,
    Up,
    Down,
    Space,
    Other,
}

/// The action that a key asks for.
pub open spec fn key_action(k: Key) -> Option<PlayerAction> {
    match k {
        Key::Left => Some(PlayerAction::Left),
        Key::Right => Some(PlayerAction::Right),
        Key::Up => Some(PlayerAction::Up),
        Key::Down => Some(PlayerAction::Down),
        Key::Space => Some(PlayerAction::Brake),
        Key::Other => None,
    }
}

/// The actions asked for by the pressed keys: `Idle`, and the action of
/// each pressed arrow key, with space for the brake.
pub fn actions_from_keys(keys: &Vec<Key>) -> (r: PlayerActionFlags)
    ensures
        forall|a: PlayerAction|
            r.has(a) == (a == PlayerAction::Idle || exists|i: int|
                0 <= i < keys@.len() && key_action(#[trigger] keys@[i]) == Some(a)),
{
    let mut flags = PlayerActionFlags::idle();
    let mut i: usize = 0;
    while i < keys.len()
        invariant
            i <= keys@.len(),
            forall|a: PlayerAction|
                flags.has(a) == (a == PlayerAction::Idle || exists|j: int|
                    0 <= j < i && key_action(#[trigger] keys@[j]) == Some(a)),
        decreases keys@.len() - i,
    {
        let k = keys[i];
        let ghost before = flags;
        match k {
            Key::Left => flags.insert(PlayerAction::Left),
            Key::Right => flags.insert(PlayerAction::Right),
            Key::Up => flags.insert(PlayerAction::Up),
            Key::Down => flags.insert(PlayerAction::Down),
            Key::Space => flags.insert(PlayerAction::Brake),
            Key::Other => {},
        }
        assert forall|a: PlayerAction|
            flags.has(a) == (a == PlayerAction::Idle || exists|j: int|
                0 <= j < i + 1 && key_action(#[trigger] keys@[j]) == Some(a)) by {
            if key_action(k) == Some(a) {
                assert(key_action(keys@[i as int]) == Some(a));
            }
            if exists|j: int| 0 <= j < i + 1 && key_action(#[trigger] keys@[j]) == Some(a) {
                let j = choose|j: int| 0 <= j < i + 1 && key_action(#[trigger] keys@[j]) == Some(a);
                if j < i {
                    assert(before.has(a));
                }
            }
        }
        i = i + 1;
    }
    flags
}

/// Sideways step of one action per frame: 0.3 units.
pub const STEP: i64 = 300;

/// Radius of the circle the actor must stay in: 7.5 units, one less than
/// the tunnel's ring.
pub const REACH: i64 = 7_500;

/// Vertical speed that one frame of braking takes away: 1 unit per second.
pub const BRAKE_STEP: i64 = 1_000;

/// The point lies in the circle the actor must stay in.
pub open spec fn within_reach(x: int, z: int) -> bool {
    x * x + z * z <= REACH * REACH
}

/// The position after trying a step: taken when it stays within reach.
pub open spec fn spec_step(x: int, z: int, dx: int, dz: int) -> (int, int) {
    if within_reach(x + dx, z + dz) {
        (x + dx, z + dz)
    } else {
        (x, z)
    }
}

/// The horizontal position after the moves of a frame, in the order up,
/// left, down, right.
pub open spec fn spec_moves(f: PlayerActionFlags, x: int, z: int) -> (int, int) {
    let p1 = if f.has(PlayerAction::Up) { spec_step(x, z, 0, -STEP as int) } else { (x, z) };
    let p2 = if f.has(PlayerAction::Left) { spec_step(p1.0, p1.1, -STEP as int, 0) } else { p1 };
    let p3 = if f.has(PlayerAction::Down) { spec_step(p2.0, p2.1, 0, STEP as int) } else { p2 };
    if f.has(PlayerAction::Right) { spec_step(p3.0, p3.1, STEP as int, 0) } else { p3 }
}

/// A coordinate that a step cannot take out of `i64`.
pub open spec fn coord_fits(v: int) -> bool {
    i64::MIN + STEP <= v <= i64::MAX - STEP
}

fn try_step(x: i64, z: i64, dx: i64, dz: i64) -> (r: (i64, i64))
    requires
        coord_fits(x as int),
        coord_fits(z as int),
        -STEP <= dx <= STEP,
        -STEP <= dz <= STEP,
    ensures
        (r.0 as int, r.1 as int) == spec_step(x as int, z as int, dx as int, dz as int),
        coord_fits(r.0 as int),
        coord_fits(r.1 as int),
{
    let nx = x + dx;
    let nz = z + dz;
    let near = -REACH <= nx && nx <= REACH && -REACH <= nz && nz <= REACH;
    if !near {
        assert(!within_reach(nx as int, nz as int)) by (nonlinear_arith)
            requires
                !(-7500 <= nx <= 7500 && -7500 <= nz <= 7500),
                REACH == 7500,
        ;
        return (x, z);
    }
    assert(0 <= nx * nx <= 7500 * 7500) by (nonlinear_arith)
        requires
            -7500 <= nx <= 7500,
    ;
    assert(0 <= nz * nz <= 7500 * 7500) by (nonlinear_arith)
        requires
            -7500 <= nz <= 7500,
    ;
    if nx * nx + nz * nz <= REACH * REACH {
        (nx, nz)
    } else {
        (x, z)
    }
}

/// Some event of `evs` is a contact between the player and the world.
pub open spec fn touches_world(evs: Seq<CollisionEvent>) -> bool {
    exists|i: int| 0 <= i < evs.len() && (#[trigger] hazard_contact(evs[i])).is_some()
}

/// The body after a frame of control.
pub open spec fn spec_control(action: PlayerActionFlags, body: ActorBody, evs: Seq<CollisionEvent>) -> ActorBody {
    let p = spec_moves(action, body.x as int, body.z as int);
    let vy = if action.has(PlayerAction::Brake) && body.vy < 0 {
        body.vy + BRAKE_STEP
    } else {
        body.vy as int
    };
    let stop = touches_world(evs);
    ActorBody {
        x: p.0 as i64,
        y: body.y,
        z: p.1 as i64,
        vx: if stop { 0 } else { body.vx },
        vy: if stop { 0 } else { vy as i64 },
        vz: if stop { 0 } else { body.vz },
    }
}

/// Applies a frame of control to the actor's body: each of up, left, down
/// and right moves it one step, when the step keeps it within reach; the
/// brake slows a fall by one unit per second; and a contact with the world
/// stops the body.
pub fn control_player(action: PlayerActionFlags, body: &mut ActorBody, events: &Vec<CollisionEvent>)
    requires
        coord_fits(old(body).x as int),
        coord_fits(old(body).z as int),
    ensures
        *final(body) == spec_control(action, *old(body), events@),
        (final(body).x as int, final(body).z as int) == spec_moves(action, old(body).x as int, old(body).z as int),
        touches_world(events@) ==> final(body).vx == 0 && final(body).vy == 0 && final(body).vz == 0,
{
    let mut p = (body.x, body.z);
    if action.contains(PlayerAction::Up) {
        p = try_step(p.0, p.1, 0, -STEP);
    }
    if action.contains(PlayerAction::Left) {
        p = try_step(p.0, p.1, -STEP, 0);
    }
    if action.contains(PlayerAction::Down) {
        p = try_step(p.0, p.1, 0, STEP);
    }
    if action.contains(PlayerAction::Right) {
        p = try_step(p.0, p.1, STEP, 0);
    }
    body.x = p.0;
    body.z = p.1;
    if action.contains(PlayerAction::Brake) {
        if body.vy < 0 {
            body.vy = body.vy + BRAKE_STEP;
        }
    }
    let mut stop = false;
    let mut i: usize = 0;
    while i < events.len()
        invariant
            i <= events@.len(),
            stop == exists|j: int| 0 <= j < i && (#[trigger] hazard_contact(events@[j])).is_some(),
        decreases events@.len() - i,
    {
        if events[i].hazard_hit().is_some() {
            stop = true;
        }
        i = i + 1;
    }
    if stop {
        body.vx = 0;
        body.vy = 0;
        body.vz = 0;
    }
}

} // verus!
