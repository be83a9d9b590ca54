//! The player's actor: health and smoothed fall velocity, integrated on a
//! fixed cadence from the speed that the physics engine measures.

use vstd::prelude::*;
use crate::states::{spec_request, AppState, SceneController, Transition};

verus! {

/// Thousandths of a world unit: one world unit (or unit per second) is
/// `UNIT` in every fixed-point quantity of the library.
pub const UNIT: i64 = 1000;

/// Health of a new actor: 100 units.
pub const START_HEALTH: i64 = 100_000;

/// Height at which the actor enters the tunnel: 3050 units.
pub const START_Y: i64 = 3_050_000;

/// Fall speed above which the actor takes damage: 100 units per second.
pub const SAFE_SPEED: i64 = 100_000;

/// Full playback rate of the falling cue, in thousandths.
pub const FULL_RATE: u64 = 1000;

/// Time that must have elapsed since the last scream before the next one:
/// 2 seconds, in milliseconds.
pub const SCREAM_COOLDOWN_MS: u64 = 2_000;

/// The player's actor.
#[derive(Clone, Copy, Debug, PartialEq, Eq, Structural)]
pub struct Actor {
    /// Health, in thousandths.
    pub health: i64,
    /// Smoothed vertical velocity, in thousandths of a unit per second.
    pub velocity: i64,
    /// When the last scream cue was played, in milliseconds of the session
    /// clock.
    pub scream_last_play: Option<u64>,
}

/// The actor's rigid body as the physics engine holds it: position and
/// linear velocity, in thousandths.
#[derive(Clone, Copy, Debug, PartialEq, Eq, Structural)]
pub struct ActorBody {
    pub x: i64,
    pub y: i64,
    pub z: i64,
    pub vx: i64,
    pub vy: i64,
    pub vz: i64,
}

/// What one fixed tick asks of the presentation.
#[derive(Clone, Copy, Debug, PartialEq, Eq, Structural)]
pub struct StatsTick {
    /// Playback rate of the falling cue, in thousandths.
    pub playback_rate: u64,
    /// The scream cue is to be played now.
    pub scream: bool,
    /// New setting of the flash overlay, or `None` to leave it as it is.
    pub overlay: Option<bool>,
}

pub open spec fn abs(x: int) -> int {
    if x < 0 {
        -x
    } else {
        x
    }
}

/// Playback rate in thousandths for a measured vertical speed: proportional
/// to the speed up to the safe speed, full above it.
pub open spec fn spec_playback_rate(measured: int) -> int {
    if abs(measured) <= SAFE_SPEED {
        abs(measured) / 100
    } else {
        FULL_RATE as int
    }
}

/// Health lost in one tick at a measured speed: a third of a hundredth of the
/// speed, when it exceeds the safe speed.
pub open spec fn spec_drain(measured: int) -> int {
    if abs(measured) > SAFE_SPEED {
        abs(measured) / 300
    } else {
        0
    }
}

/// The scream cooldown is over at `now`: no scream yet, or at least 2
/// seconds since the last one.
pub open spec fn cooldown_over(last: Option<u64>, now: u64) -> bool {
    match last {
        None => true,
        Some(t) => now >= t && now - t >= SCREAM_COOLDOWN_MS,
    }
}

/// One fixed tick of the actor model at measured vertical velocity
/// `measured`, at time `now` in milliseconds.
pub open spec fn spec_tick(a: Actor, measured: i64, now: u64) -> (Actor, StatsTick) {
    let health = a.health - spec_drain(measured as int);
    let velocity = (a.velocity + measured) / 2;
    let rate = spec_playback_rate(measured as int) as u64;
    if abs(measured as int) > SAFE_SPEED {
        if cooldown_over(a.scream_last_play, now) {
            if health < START_HEALTH {
                (
                    Actor { health: health as i64, velocity: velocity as i64, scream_last_play: Some(now) },
                    StatsTick { playback_rate: rate, scream: true, overlay: Some(true) },
                )
            } else {
                (
                    Actor { health: health as i64, velocity: velocity as i64, ..a },
                    StatsTick { playback_rate: rate, scream: false, overlay: Some(false) },
                )
            }
        } else {
            (
                Actor { health: health as i64, velocity: velocity as i64, ..a },
                StatsTick { playback_rate: rate, scream: false, overlay: None },
            )
        }
    } else {
        (
            Actor { velocity: velocity as i64, ..a },
            StatsTick { playback_rate: rate, scream: false, overlay: Some(false) },
        )
    }
}

/// The tick's health stays within `i64`.
pub open spec fn tick_fits(a: Actor, measured: i64) -> bool {
    a.health - spec_drain(measured as int) >= i64::MIN
}

impl Actor {
    /// A fresh actor: full health, at rest, never screamed.
    pub fn new() -> (r: Actor)
        ensures
            r.health == START_HEALTH,
            r.velocity == 0,
            r.scream_last_play.is_none(),
    {
        Actor { health: START_HEALTH, velocity: 0, scream_last_play: None }
    }

    /// Tells whether a tick at `measured` keeps health within `i64`.
    pub fn can_tick(&self, measured: i64) -> (r: bool)
        ensures
            r == tick_fits(*self, measured),
    {
        let m = measured as i128;
        let abs_m: i128 = if m < 0 { -m } else { m };
        let drain: i128 = if abs_m > SAFE_SPEED as i128 { abs_m / 300 } else { 0 };
        self.health as i128 - drain >= i64::MIN as i128
    }

    /// One fixed tick: the velocity becomes the mean of itself and the
    /// measured velocity (rounded down), health drains above the safe speed,
    /// and the scream cue fires when damage has been taken and the cooldown
    /// is over.
    pub fn fixed_tick(&mut self, measured: i64, now: u64) -> (r: StatsTick)
        requires
            tick_fits(*old(self), measured),
        ensures
            (*final(self), r) == spec_tick(*old(self), measured, now),
    {
        let m = measured as i128;
        let abs_m: i128 = if m < 0 { -m } else { m };
        let rate: u64 = if abs_m <= SAFE_SPEED as i128 { (abs_m / 100) as u64 } else { FULL_RATE };
        let sum = self.velocity as i128 + m;
        let half: i128 = if sum >= 0 { sum / 2 } else { -((-sum + 1) / 2) };
        assert(half == sum / 2);
        self.velocity = half as i64;
        if abs_m > SAFE_SPEED as i128 {
            self.health = (self.health as i128 - abs_m / 300) as i64;
            let over = match self.scream_last_play {
                None => true,
                Some(t) => now >= t && now - t >= SCREAM_COOLDOWN_MS,
            };
            if over {
                if self.health < START_HEALTH {
                    self.scream_last_play = Some(now);
                    StatsTick { playback_rate: rate, scream: true, overlay: Some(true) }
                } else {
                    StatsTick { playback_rate: rate, scream: false, overlay: Some(false) }
                }
            } else {
                StatsTick { playback_rate: rate, scream: false, overlay: None }
            }
        } else {
            StatsTick { playback_rate: rate, scream: false, overlay: Some(false) }
        }
    }
}

/// One fixed tick of the falling game over the actor and the active screen:
/// the actor's tick, then a request for the game-over screen once health is
/// spent. The flag tells whether that request caused a transition.
pub open spec fn stats_step(a: Actor, screen: AppState, measured: i64, now: u64) -> (Actor, AppState, bool) {
    let a2 = spec_tick(a, measured, now).0;
    if a2.health <= 0 {
        let (s2, t) = spec_request(screen, AppState::GameOver);
        (a2, s2, t.is_some())
    } else {
        (a2, screen, false)
    }
}

/// The actor and screen after a run of fixed ticks, each given by its
/// measured velocity and time, with the number of transitions to the
/// game-over screen that the run caused.
pub open spec fn run_stats(a: Actor, screen: AppState, ticks: Seq<(i64, u64)>) -> (Actor, AppState, nat)
    decreases ticks.len(),
{
    if ticks.len() == 0 {
        (a, screen, 0)
    } else {
        let prev = run_stats(a, screen, ticks.drop_last());
        let step = stats_step(prev.0, prev.1, ticks.last().0, ticks.last().1);
        (step.0, step.1, if step.2 { prev.2 + 1 } else { prev.2 })
    }
}

/// One fixed tick of the falling game: the actor's tick, the flash overlay
/// set as the tick asks, and a request for the game-over screen when health
/// has reached zero or less.
pub fn adjust_actor_stats(
    actor: &mut Actor,
    overlay: &mut bool,
    scene: &mut SceneController,
    measured: i64,
    now: u64,
) -> (r: (StatsTick, Option<Transition>))
    requires
        tick_fits(*old(actor), measured),
    ensures
        (*final(actor), r.0) == spec_tick(*old(actor), measured, now),
        *final(overlay) == match r.0.overlay {
            Some(b) => b,
            None => *old(overlay),
        },
        (*final(actor), final(scene).current, r.1.is_some()) == stats_step(
            *old(actor),
            old(scene).current,
            measured,
            now,
        ),
        r.1.is_some() ==> r.1 == Some(Transition { from: old(scene).current, to: AppState::GameOver }),
{
    let tick = actor.fixed_tick(measured, now);
    match tick.overlay {
        Some(b) => {
            *overlay = b;
        },
        None => {},
    }
    let t = if actor.health <= 0 {
        scene.request(AppState::GameOver)
    } else {
        None
    };
    (tick, t)
}

proof fn lemma_run_stats_prefix(a: Actor, screen: AppState, ticks: Seq<(i64, u64)>, k: int)
    requires
        0 <= k <= ticks.len(),
    ensures
        run_stats(a, screen, ticks.take(k)).2 <= run_stats(a, screen, ticks).2,
        run_stats(a, screen, ticks.take(k)).1 == AppState::GameOver ==> run_stats(a, screen, ticks).1
            == AppState::GameOver,
    decreases ticks.len(),
{
    if k < ticks.len() {
        assert(ticks.take(k) =~= ticks.drop_last().take(k));
        lemma_run_stats_prefix(a, screen, ticks.drop_last(), k);
    } else {
        assert(ticks.take(k) =~= ticks);
    }
}

/// Once the actor's health is spent the game-over screen is entered exactly
/// once: a run of fixed ticks causes at most one transition to it, causes
/// none when it is already active, and causes one when it starts elsewhere
/// and some tick of the run leaves health at zero or less.
pub proof fn lemma_game_over_once(a: Actor, screen: AppState, ticks: Seq<(i64, u64)>, k: int)
    requires
        0 <= k < ticks.len(),
    ensures
        run_stats(a, screen, ticks).2 <= 1,
        run_stats(a, screen, ticks).2 == 1 ==> run_stats(a, screen, ticks).1 == AppState::GameOver,
        screen == AppState::GameOver ==> run_stats(a, screen, ticks).2 == 0,
        screen != AppState::GameOver && run_stats(a, screen, ticks.take(k + 1)).0.health <= 0
            ==> run_stats(a, screen, ticks).2 == 1,
{
    lemma_run_stats_shape(a, screen, ticks);
    lemma_run_stats_shape(a, screen, ticks.take(k + 1));
    lemma_run_stats_prefix(a, screen, ticks, k + 1);
    let pre = ticks.take(k + 1);
    assert(pre.drop_last() =~= ticks.take(k));
}

/// Shape of a run: the count is 0 or 1; it is 0 from the game-over screen;
/// and from elsewhere it is 1 exactly when the run ends on the game-over
/// screen.
proof fn lemma_run_stats_shape(a: Actor, screen: AppState, ticks: Seq<(i64, u64)>)
    ensures
        run_stats(a, screen, ticks).2 <= 1,
        screen == AppState::GameOver ==> run_stats(a, screen, ticks).2 == 0
            && run_stats(a, screen, ticks).1 == AppState::GameOver,
        screen != AppState::GameOver ==> (run_stats(a, screen, ticks).2 == 1 <==> run_stats(
            a,
            screen,
            ticks,
        ).1 == AppState::GameOver),
        screen != AppState::GameOver ==> run_stats(a, screen, ticks).1 == screen || run_stats(
            a,
            screen,
            ticks,
        ).1 == AppState::GameOver,
    decreases ticks.len(),
{
    if ticks.len() > 0 {
        lemma_run_stats_shape(a, screen, ticks.drop_last());
    }
}

} // verus!
