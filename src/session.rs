//! A falling-game session: the state that lives from entering the falling
//! screen to leaving it, and the order in which a frame updates it.

use vstd::prelude::*;
use crate::actor::{
    adjust_actor_stats, spec_tick, stats_step, tick_fits, Actor, ActorBody, StatsTick, START_HEALTH,
};
use crate::clock::{FixedClock, STATS_STEP_MICROS};
use crate::control::{control_player, coord_fits, spec_control, PlayerActionFlags, STEP};
use crate::cycle::{
    check_teleport_collision, frame_hits_teleport, scene_change, spec_dispatch, spec_teleport,
    stage_cubes, stage_done, FallingState, StageChange,
};
use crate::hazards::{
    check_game_cube_collision, pickups_fit, run_pickups, CubeField, PickupState, PICKUP_HEALTH,
    PICKUP_SPEED,
};
use crate::layers::{CollisionEvent, EntityId};
use crate::states::{SceneController, Transition};

verus! {

/// The state of one run of the falling game.
pub struct FallingSession {
    pub actor: Actor,
    pub state: FallingState,
    pub cubes: CubeField,
    /// The flash overlay is enabled.
    pub overlay: bool,
    /// Clock of the actor model's fixed ticks.
    pub clock: FixedClock,
}

/// What a frame of the session asks of the host.
pub struct FrameReport {
    /// A teleport contact put the actor back to the ceiling.
    pub teleported: bool,
    /// The stage change that the frame dispatched.
    pub stage: Option<StageChange>,
    /// Cubes picked up this frame, to despawn with a sound cue each.
    pub picked: Vec<EntityId>,
}

impl FallingSession {
    pub open spec fn wf(&self) -> bool {
        self.cubes.wf() && self.clock.wf()
    }

    /// A new session: a fresh actor at full health and at rest, cycle 0
    /// waiting to be dispatched, no cubes, the overlay off, and the fixed
    /// clock at a twentieth of a second with nothing accumulated.
    pub fn start() -> (r: FallingSession)
        ensures
            r.wf(),
            r.actor == (Actor { health: START_HEALTH, velocity: 0, scream_last_play: None }),
            r.state == (FallingState { cycle_number: 0, changed: true }),
            r.cubes@.len() == 0,
            !r.overlay,
            r.clock == (FixedClock { step: STATS_STEP_MICROS, accumulator: 0 }),
    {
        FallingSession {
            actor: Actor::new(),
            state: FallingState::new(),
            cubes: CubeField::new(),
            overlay: false,
            clock: FixedClock::new(STATS_STEP_MICROS),
        }
    }

    /// The frame's inputs keep every quantity within its integer type.
    pub open spec fn frame_fits(&self, body: ActorBody, n_events: int) -> bool {
        &&& self.state.cycle_number < u64::MAX
        &&& pickups_fit(self.actor, n_events)
        &&& coord_fits(body.x as int)
        &&& coord_fits(body.z as int)
    }

    /// Tells whether `frame` may be called with these inputs.
    pub fn can_run_frame(&self, body: &ActorBody, n_events: usize) -> (r: bool)
        ensures
            r == self.frame_fits(*body, n_events as int),
    {
        let n = n_events as i128;
        let v = self.actor.velocity as i128;
        let h = self.actor.health as i128;
        assert(0 <= n * (PICKUP_SPEED as i128) <= PICKUP_SPEED * 0x1_0000_0000_0000_0000) by (nonlinear_arith)
            requires
                0 <= n < 0x1_0000_0000_0000_0000,
                PICKUP_SPEED == 40_000,
        ;
        assert(0 <= n * (PICKUP_HEALTH as i128) <= PICKUP_HEALTH * 0x1_0000_0000_0000_0000) by (nonlinear_arith)
            requires
                0 <= n < 0x1_0000_0000_0000_0000,
                PICKUP_HEALTH == 20_000,
        ;
        let speed_room = n * (PICKUP_SPEED as i128);
        let health_room = n * (PICKUP_HEALTH as i128);
        assert(speed_room == PICKUP_SPEED * n && health_room == PICKUP_HEALTH * n) by (nonlinear_arith)
            requires
                speed_room == n * (PICKUP_SPEED as i128),
                health_room == n * (PICKUP_HEALTH as i128),
        ;
        let cycle_ok = self.state.cycle_number < u64::MAX;
        let velocity_ok = i64::MIN as i128 + speed_room <= v && v <= i64::MAX as i128 - speed_room;
        let health_ok = h <= i64::MAX as i128 - health_room;
        let x_ok = i64::MIN + STEP <= body.x && body.x <= i64::MAX - STEP;
        let z_ok = i64::MIN + STEP <= body.z && body.z <= i64::MAX - STEP;
        cycle_ok && velocity_ok && health_ok && x_ok && z_ok
    }

    /// One frame of the falling game, from the collision events that the
    /// physics engine reported: control moves the body and a world contact
    /// stops it; a teleport contact advances the cycle; the dispatcher sets up
    /// the stage of a new cycle; then each hazard struck is picked up.
    pub fn frame(
        &mut self,
        scene: &mut SceneController,
        body: &mut ActorBody,
        action: PlayerActionFlags,
        events: &Vec<CollisionEvent>,
        elapsed_ms: u64,
    ) -> (r: FrameReport)
        requires
            old(self).wf(),
            old(self).frame_fits(*old(body), events@.len() as int),
        ensures
            final(self).wf(),
            final(self).overlay == old(self).overlay,
            final(self).clock == old(self).clock,
            ({
                let b1 = spec_control(action, *old(body), events@);
                let t = spec_teleport(old(self).state, b1, r.teleported);
                let d = spec_dispatch(t.0);
                let cubes = if d.1 {
                    stage_cubes(t.0.cycle_number, old(self).cubes@)
                } else {
                    old(self).cubes@
                };
                &&& r.teleported == frame_hits_teleport(events@)
                &&& final(self).state == d.0
                &&& r.stage.is_some() == d.1
                &&& d.1 ==> stage_done(
                    t.0.cycle_number,
                    r.stage.unwrap(),
                    old(self).cubes@,
                    cubes,
                    *old(scene),
                    *final(scene),
                    elapsed_ms,
                )
                &&& !d.1 ==> *final(scene) == *old(scene)
                &&& (
                PickupState { cubes: final(self).cubes@, actor: final(self).actor, body: *final(body) },
                r.picked@) == run_pickups(
                    PickupState { cubes, actor: old(self).actor, body: t.1 },
                    events@,
                )
            }),
    {
        control_player(action, body, events);
        let teleported = check_teleport_collision(&mut self.state, body, events);
        let stage = scene_change(&mut self.state, &mut self.cubes, scene, elapsed_ms);
        let picked = check_game_cube_collision(&mut self.cubes, &mut self.actor, body, events);
        FrameReport { teleported, stage, picked }
    }

    /// One fixed tick of the actor model at measured vertical velocity
    /// `measured` (see `adjust_actor_stats`).
    pub fn fixed_tick(&mut self, scene: &mut SceneController, measured: i64, now: u64) -> (r: (
        StatsTick,
        Option<Transition>,
    ))
        requires
            old(self).wf(),
            tick_fits(old(self).actor, measured),
        ensures
            final(self).wf(),
            (final(self).actor, r.0) == spec_tick(old(self).actor, measured, now),
            (final(self).actor, final(scene).current, r.1.is_some()) == stats_step(
                old(self).actor,
                old(scene).current,
                measured,
                now,
            ),
            final(self).state == old(self).state,
            final(self).cubes@ == old(self).cubes@,
    {
        adjust_actor_stats(&mut self.actor, &mut self.overlay, scene, measured, now)
    }
}

} // verus!
