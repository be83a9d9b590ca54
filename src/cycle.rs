//! The cycle engine: teleport contacts advance the cycle, and each change of
//! cycle reconfigures the level once.

use vstd::prelude::*;
use crate::actor::ActorBody;
use crate::hazards::{game_cube_ids, patterned, scenery, CubeField, VisibilityPattern};
use crate::layers::{teleport_contact, CollisionEvent, EntityId};
use crate::states::{spec_request, AppState, SceneController, Transition};

verus! {

/// Height the actor is put back to by a teleport: 3000 units.
pub const CEILING_Y: i64 = 3_000_000;

/// A teleport into a cycle below this one stops the actor's vertical motion.
pub const VELOCITY_RESET_LIMIT: u64 = 6;

/// The cycle at which the run is won.
pub const FINAL_CYCLE: u64 = 8;

/// The cycle counter of a falling-game session, with a flag that records a
/// change not yet handled by the stage dispatcher.
#[derive(Clone, Copy, Debug, PartialEq, Eq, Structural)]
pub struct FallingState {
    pub cycle_number: u64,
    pub changed: bool,
}

/// What the run ends with.
#[derive(Clone, Copy, Debug, PartialEq, Eq, Structural)]
pub struct GameStats {
    /// Whole seconds the run took.
    pub time: u64,
}

/// Background colours of the stages.
#[derive(Clone, Copy, Debug, PartialEq, Eq, Structural)]
pub enum Background {
    Black,
    White,
    DarkTeal,
    LightGray,
}

/// Music tracks of the falling game.
#[derive(Clone, Copy, Debug, PartialEq, Eq, Structural)]
pub enum Track {
    FirstDescent,
    SecondDescent,
}

/// The frame's events hold a player/teleport contact.
pub open spec fn frame_hits_teleport(evs: Seq<CollisionEvent>) -> bool {
    exists|i: int| 0 <= i < evs.len() && (#[trigger] teleport_contact(evs[i])).is_some()
}

/// The cycle state and body after a frame in which a teleport contact did
/// (`hit`) or did not occur: on a hit the cycle advances by one, the body is
/// put back to the ceiling, and its vertical velocity is zeroed when the new
/// cycle is below the reset limit.
pub open spec fn spec_teleport(st: FallingState, body: ActorBody, hit: bool) -> (FallingState, ActorBody) {
    if hit {
        let next = st.cycle_number + 1;
        (
            FallingState { cycle_number: next as u64, changed: true },
            ActorBody {
                y: CEILING_Y,
                vy: if next < VELOCITY_RESET_LIMIT { 0 } else { body.vy },
                ..body
            },
        )
    } else {
        (st, body)
    }
}

impl FallingState {
    /// The state at the start of a session: cycle 0, to be dispatched.
    pub fn new() -> (r: FallingState)
        ensures
            r.cycle_number == 0,
            r.changed,
    {
        FallingState { cycle_number: 0, changed: true }
    }
}

/// Handles the collision events of one frame: if any is a player/teleport
/// contact, in either order, the cycle advances by exactly one, the body is
/// put back to the ceiling, and its vertical velocity is zeroed when the new
/// cycle is below the reset limit. Returns whether that happened.
pub fn check_teleport_collision(
    state: &mut FallingState,
    body: &mut ActorBody,
    events: &Vec<CollisionEvent>,
) -> (r: bool)
    requires
        old(state).cycle_number < u64::MAX,
    ensures
        r == frame_hits_teleport(events@),
        (*final(state), *final(body)) == spec_teleport(*old(state), *old(body), r),
{
    let mut hit = false;
    let mut i: usize = 0;
    while i < events.len()
        invariant
            i <= events@.len(),
            hit == exists|j: int| 0 <= j < i && (#[trigger] teleport_contact(events@[j])).is_some(),
        decreases events@.len() - i,
    {
        if events[i].teleport_hit().is_some() {
            hit = true;
        }
        i = i + 1;
    }
    if hit {
        let next = state.cycle_number + 1;
        if next < VELOCITY_RESET_LIMIT {
            body.vy = 0;
        }
        body.y = CEILING_Y;
        state.cycle_number = next;
        state.changed = true;
    }
    hit
}

/// Number of frames of `frames` that hold a teleport contact.
pub open spec fn teleport_frames(frames: Seq<Seq<CollisionEvent>>) -> nat
    decreases frames.len(),
{
    if frames.len() == 0 {
        0
    } else {
        teleport_frames(frames.drop_last()) + if frame_hits_teleport(frames.last()) {
            1nat
        } else {
            0nat
        }
    }
}

/// The cycle state and body after a run of frames.
pub open spec fn run_teleports(st: FallingState, body: ActorBody, frames: Seq<Seq<CollisionEvent>>) -> (
    FallingState,
    ActorBody,
)
    decreases frames.len(),
{
    if frames.len() == 0 {
        (st, body)
    } else {
        let prev = run_teleports(st, body, frames.drop_last());
        spec_teleport(prev.0, prev.1, frame_hits_teleport(frames.last()))
    }
}

/// Over any run of frames the cycle number grows by exactly one for each
/// frame with a teleport contact, and it never decreases from one frame to
/// the next.
pub proof fn lemma_cycle_counts_teleports(
    st: FallingState,
    body: ActorBody,
    frames: Seq<Seq<CollisionEvent>>,
)
    requires
        st.cycle_number + frames.len() <= u64::MAX,
    ensures
        run_teleports(st, body, frames).0.cycle_number == st.cycle_number + teleport_frames(frames),
        forall|k: int|
            0 <= k < frames.len() ==> #[trigger] run_teleports(st, body, frames.take(k)).0.cycle_number
                <= run_teleports(st, body, frames.take(k + 1)).0.cycle_number,
    decreases frames.len(),
{
    if frames.len() > 0 {
        lemma_cycle_counts_teleports(st, body, frames.drop_last());
        lemma_teleport_frames_bound(frames.drop_last());
        assert forall|k: int| 0 <= k < frames.len() implies #[trigger] run_teleports(
            st,
            body,
            frames.take(k),
        ).0.cycle_number <= run_teleports(st, body, frames.take(k + 1)).0.cycle_number by {
            let pre = frames.take(k + 1);
            assert(pre.drop_last() =~= frames.take(k));
            lemma_cycle_counts_teleports(st, body, frames.take(k));
            lemma_teleport_frames_bound(frames.take(k));
        }
    }
}

proof fn lemma_teleport_frames_bound(frames: Seq<Seq<CollisionEvent>>)
    ensures
        teleport_frames(frames) <= frames.len(),
    decreases frames.len(),
{
    if frames.len() > 0 {
        lemma_teleport_frames_bound(frames.drop_last());
    }
}

/// Background of the stage that begins at cycle `c`, if it sets one.
pub open spec fn stage_background(c: u64) -> Option<Background> {
    if c == 0 {
        Some(Background::Black)
    } else if c == 2 {
        Some(Background::White)
    } else if c == 4 {
        Some(Background::DarkTeal)
    } else if c == 6 {
        Some(Background::LightGray)
    } else {
        None
    }
}

/// The stage that begins at cycle `c` replaces the hazards with a new batch.
pub open spec fn stage_respawns(c: u64) -> bool {
    c == 2 || c == 4 || c == 6
}

/// Which of the surviving cubes the stage that begins at cycle `c` shows.
pub open spec fn stage_visibility(c: u64) -> Option<VisibilityPattern> {
    if c == 2 {
        Some(VisibilityPattern::AllHidden)
    } else if c == 4 {
        Some(VisibilityPattern::EveryNth(5))
    } else if c == 6 {
        Some(VisibilityPattern::EveryNth(7))
    } else {
        None
    }
}

/// The track that the stage that begins at cycle `c` switches to.
pub open spec fn stage_music(c: u64) -> Option<Track> {
    if c == 4 {
        Some(Track::SecondDescent)
    } else {
        None
    }
}

/// What the stage dispatcher did for one change of cycle. The caller sets
/// the background, despawns the listed cubes, spawns a new batch of hazards
/// when asked, switches the music, and runs the screen transition.
pub struct StageChange {
    pub background: Option<Background>,
    pub despawned: Vec<EntityId>,
    pub respawn_hazards: bool,
    pub visibility: Option<VisibilityPattern>,
    pub music: Option<Track>,
    pub stats: Option<GameStats>,
    pub transition: Option<Transition>,
}

/// The cubes left by the stage that begins at cycle `c`.
pub open spec fn stage_cubes(c: u64, cubes: Seq<crate::hazards::Cube>) -> Seq<crate::hazards::Cube> {
    match stage_visibility(c) {
        Some(p) => patterned(scenery(cubes), p),
        None => cubes,
    }
}

/// `ch` is what the dispatcher did for the stage that begins at cycle `c`,
/// taking the cubes and the screen from `cubes0` and `scene0` to `cubes1`
/// and `scene1`.
pub open spec fn stage_done(
    c: u64,
    ch: StageChange,
    cubes0: Seq<crate::hazards::Cube>,
    cubes1: Seq<crate::hazards::Cube>,
    scene0: SceneController,
    scene1: SceneController,
    elapsed_ms: u64,
) -> bool {
    &&& ch.background == stage_background(c)
    &&& ch.respawn_hazards == stage_respawns(c)
    &&& ch.visibility == stage_visibility(c)
    &&& ch.music == stage_music(c)
    &&& cubes1 == stage_cubes(c, cubes0)
    &&& ch.despawned@ == if stage_respawns(c) {
        game_cube_ids(cubes0)
    } else {
        Seq::empty()
    }
    &&& c == FINAL_CYCLE ==> ch.stats == Some(GameStats { time: elapsed_ms / 1000 }) && (
    scene1.current, ch.transition) == spec_request(scene0.current, AppState::GameEnd)
    &&& c != FINAL_CYCLE ==> ch.stats.is_none() && ch.transition.is_none() && scene1 == scene0
}

/// Reconfigures the level when the cycle has changed since the last call,
/// and does nothing otherwise. On a change: cycle 0 sets a black background;
/// cycles 2, 4 and 6 remove every cube that is not scenery, ask for a new
/// batch, set their background, and show the scenery cubes by their
/// pattern (none at 2, every fifth at 4 with the second track, every seventh
/// at 6); cycle 8 records the elapsed whole seconds and asks for the game-end
/// screen.
pub fn scene_change(
    state: &mut FallingState,
    field: &mut CubeField,
    scene: &mut SceneController,
    elapsed_ms: u64,
) -> (r: Option<StageChange>)
    requires
        old(field).wf(),
    ensures
        final(field).wf(),
        (*final(state), r.is_some()) == spec_dispatch(*old(state)),
        !old(state).changed ==> final(field)@ == old(field)@ && *final(scene) == *old(scene),
        old(state).changed ==> stage_done(
            old(state).cycle_number,
            r.unwrap(),
            old(field)@,
            final(field)@,
            *old(scene),
            *final(scene),
            elapsed_ms,
        ),
{
    if !state.changed {
        return None;
    }
    state.changed = false;
    let c = state.cycle_number;
    let mut change = StageChange {
        background: None,
        despawned: Vec::new(),
        respawn_hazards: false,
        visibility: None,
        music: None,
        stats: None,
        transition: None,
    };
    if c == 0 {
        change.background = Some(Background::Black);
    } else if c == 2 || c == 4 || c == 6 {
        change.despawned = field.clear_game_cubes();
        change.respawn_hazards = true;
        let p = if c == 2 {
            change.background = Some(Background::White);
            VisibilityPattern::AllHidden
        } else if c == 4 {
            change.background = Some(Background::DarkTeal);
            change.music = Some(Track::SecondDescent);
            VisibilityPattern::EveryNth(5)
        } else {
            change.background = Some(Background::LightGray);
            VisibilityPattern::EveryNth(7)
        };
        field.apply_visibility(p);
        change.visibility = Some(p);
    } else if c == FINAL_CYCLE {
        change.stats = Some(GameStats { time: elapsed_ms / 1000 });
        change.transition = scene.request(AppState::GameEnd);
    }
    Some(change)
}

/// The dispatcher on a cycle state: the state afterwards, and whether it
/// acted.
pub open spec fn spec_dispatch(st: FallingState) -> (FallingState, bool) {
    (FallingState { changed: false, ..st }, st.changed)
}

/// Number of `true` entries of `s`.
pub open spec fn count_true(s: Seq<bool>) -> nat
    decreases s.len(),
{
    if s.len() == 0 {
        0
    } else {
        count_true(s.drop_last()) + if s.last() {
            1nat
        } else {
            0nat
        }
    }
}

/// Frames that each handle their teleport contacts (`hits`) and then run the
/// dispatcher: the cycle state afterwards and the number of times the
/// dispatcher acted.
pub open spec fn run_dispatch(st: FallingState, hits: Seq<bool>) -> (FallingState, nat)
    decreases hits.len(),
{
    if hits.len() == 0 {
        (st, 0)
    } else {
        let prev = run_dispatch(st, hits.drop_last());
        let body = ActorBody { x: 0, y: 0, z: 0, vx: 0, vy: 0, vz: 0 };
        let d = spec_dispatch(spec_teleport(prev.0, body, hits.last()).0);
        (d.0, prev.1 + if d.1 {
            1nat
        } else {
            0nat
        })
    }
}

/// The dispatcher is edge-triggered: from a state whose last change has been
/// handled, it acts exactly once for each frame with a teleport contact, so
/// no stage is set up twice for one change of cycle.
pub proof fn lemma_dispatch_once(st: FallingState, hits: Seq<bool>)
    requires
        !st.changed,
    ensures
        run_dispatch(st, hits).1 == count_true(hits),
        !run_dispatch(st, hits).0.changed,
    decreases hits.len(),
{
    if hits.len() > 0 {
        lemma_dispatch_once(st, hits.drop_last());
    }
}

/// The cycle state after `k` more runs of the dispatcher with no teleport in
/// between, and the number of those runs that acted.
pub open spec fn dispatch_repeatedly(st: FallingState, k: nat) -> (FallingState, nat)
    decreases k,
{
    if k == 0 {
        (st, 0)
    } else {
        let prev = dispatch_repeatedly(st, (k - 1) as nat);
        let d = spec_dispatch(prev.0);
        (d.0, prev.1 + if d.1 {
            1nat
        } else {
            0nat
        })
    }
}

/// A stage is set up once per change of cycle: after the dispatcher has
/// handled a change, any number of further runs without a new change act
/// on nothing and leave the state as it is (and `scene_change` then leaves
/// the cubes and the screen alone).
pub proof fn lemma_dispatch_idle(st: FallingState, k: nat)
    ensures
        dispatch_repeatedly(spec_dispatch(st).0, k) == (spec_dispatch(st).0, 0nat),
    decreases k,
{
    if k > 0 {
        lemma_dispatch_idle(st, (k - 1) as nat);
    }
}

} // verus!
