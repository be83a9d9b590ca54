use cult_of_biboran::actor::{adjust_actor_stats, Actor, ActorBody, START_HEALTH};
use cult_of_biboran::cycle::{
    check_teleport_collision, scene_change, Background, FallingState, GameStats, Track, CEILING_Y,
};
use cult_of_biboran::hazards::{
    apply_pickup, check_game_cube_collision, CubeField, CubeType, VisibilityPattern,
};
use cult_of_biboran::layers::{CollisionEvent, CollisionLayers, Layer};
use cult_of_biboran::session::FallingSession;
use cult_of_biboran::states::{AppState, SceneController, Transition};

const PLAYER: u64 = 1;
const TELEPORT: u64 = 2;

fn player_layers() -> CollisionLayers {
    CollisionLayers::none()
        .with_group(Layer::Player)
        .with_mask(Layer::World)
        .with_mask(Layer::Teleport)
}

fn hazard_layers() -> CollisionLayers {
    CollisionLayers::none().with_group(Layer::World).with_mask(Layer::Player)
}

fn teleport_layers() -> CollisionLayers {
    CollisionLayers::new(Layer::Teleport, Layer::Player)
}

fn teleport_event() -> CollisionEvent {
    CollisionEvent {
        entity_1: PLAYER,
        layers_1: player_layers(),
        entity_2: TELEPORT,
        layers_2: teleport_layers(),
    }
}

fn hazard_event(id: u64) -> CollisionEvent {
    CollisionEvent {
        entity_1: id,
        layers_1: hazard_layers(),
        entity_2: PLAYER,
        layers_2: player_layers(),
    }
}

fn body_at_rest() -> ActorBody {
    ActorBody { x: 0, y: 1_500_000, z: 0, vx: 0, vy: 0, vz: 0 }
}

#[test]
fn teleport_collisions_count_one_each() {
    let mut st = FallingState::new();
    let mut body = body_at_rest();
    let mut last = st.cycle_number;
    for frame in 0..12u64 {
        let events = if frame % 2 == 0 { vec![teleport_event(), teleport_event()] } else { vec![] };
        let hit = check_teleport_collision(&mut st, &mut body, &events);
        assert_eq!(hit, frame % 2 == 0);
        assert!(st.cycle_number >= last);
        last = st.cycle_number;
    }
    assert_eq!(st.cycle_number, 6);
}

#[test]
fn teleport_below_limit_stops_the_body() {
    let mut st = FallingState { cycle_number: 2, changed: false };
    let mut body = ActorBody { x: 10, y: 20, z: 30, vx: 1, vy: -90_000, vz: 2 };
    assert!(check_teleport_collision(&mut st, &mut body, &vec![teleport_event()]));
    assert_eq!(st, FallingState { cycle_number: 3, changed: true });
    assert_eq!(body, ActorBody { x: 10, y: CEILING_Y, z: 30, vx: 1, vy: 0, vz: 2 });
}

#[test]
fn no_teleport_leaves_state() {
    let mut st = FallingState { cycle_number: 3, changed: false };
    let mut body = body_at_rest();
    assert!(!check_teleport_collision(&mut st, &mut body, &vec![hazard_event(9)]));
    assert_eq!(st, FallingState { cycle_number: 3, changed: false });
    assert_eq!(body, body_at_rest());
}

#[test]
fn teleport_from_five_keeps_velocity_and_shows_every_seventh() {
    let mut st = FallingState { cycle_number: 5, changed: false };
    let mut body = ActorBody { x: 0, y: 400, z: 0, vx: 0, vy: -120_000, vz: 0 };
    assert!(check_teleport_collision(&mut st, &mut body, &vec![teleport_event()]));
    assert_eq!(st.cycle_number, 6);
    assert_eq!(body.y, CEILING_Y);
    assert_eq!(body.vy, -120_000);

    let mut field = CubeField::new();
    for id in 100..115u64 {
        field.spawn(id, CubeType::Environment);
    }
    field.spawn(500, CubeType::Brake);
    let mut scene = SceneController::new(AppState::FallingGame);
    let change = scene_change(&mut st, &mut field, &mut scene, 0).unwrap();
    assert_eq!(change.visibility, Some(VisibilityPattern::EveryNth(7)));
    assert_eq!(change.background, Some(Background::LightGray));
    assert!(change.respawn_hazards);
    assert_eq!(change.despawned, vec![500]);
    assert_eq!(field.len(), 15);
    for (i, c) in field.cubes.iter().enumerate() {
        assert_eq!(c.visible, i % 7 == 0);
    }
    assert!(scene_change(&mut st, &mut field, &mut scene, 0).is_none());
}

#[test]
fn scene_requests_are_idempotent() {
    let mut scene = SceneController::new(AppState::MainMenu);
    let first = scene.request(AppState::FallingGame);
    assert_eq!(
        first,
        Some(Transition { from: AppState::MainMenu, to: AppState::FallingGame })
    );
    let second = scene.request(AppState::FallingGame);
    assert_eq!(second, None);
    assert_eq!(scene.current(), AppState::FallingGame);
}

#[test]
fn pickups_change_stats_by_kind() {
    let base = Actor { health: 50_000, velocity: -80_000, scream_last_play: None };
    let mut a = base;
    apply_pickup(&mut a, CubeType::Brake);
    assert_eq!((a.health, a.velocity), (50_000, -40_000));
    let mut a = base;
    apply_pickup(&mut a, CubeType::Health);
    assert_eq!((a.health, a.velocity), (70_000, -80_000));
    let mut a = base;
    apply_pickup(&mut a, CubeType::Speed);
    assert_eq!((a.health, a.velocity), (50_000, -120_000));
    let mut a = base;
    apply_pickup(&mut a, CubeType::Environment);
    assert_eq!(a, base);
}

#[test]
fn hazard_is_picked_up_once_per_batch() {
    let mut field = CubeField::new();
    assert!(field.spawn(10, CubeType::Brake));
    assert!(field.spawn(11, CubeType::Health));
    assert!(!field.spawn(10, CubeType::Speed));
    let mut actor = Actor::new();
    let mut body = ActorBody { vy: -150_000, ..body_at_rest() };
    let events = vec![hazard_event(10), hazard_event(10), hazard_event(10)];
    let picked = check_game_cube_collision(&mut field, &mut actor, &mut body, &events);
    assert_eq!(picked, vec![10]);
    assert_eq!(actor.velocity, 40_000);
    assert_eq!(actor.health, START_HEALTH);
    assert_eq!(body.vy, 40_000);
    assert_eq!(field.len(), 1);
    assert_eq!(field.kind_of(10), None);
    assert_eq!(field.kind_of(11), Some(CubeType::Health));

    let again = check_game_cube_collision(&mut field, &mut actor, &mut body, &vec![hazard_event(10)]);
    assert!(again.is_empty());
    assert_eq!(actor.velocity, 40_000);
}

#[test]
fn several_hazards_in_one_batch_each_apply() {
    let mut field = CubeField::new();
    field.spawn(20, CubeType::Speed);
    field.spawn(21, CubeType::Health);
    field.spawn(22, CubeType::Speed);
    let mut actor = Actor { health: 10_000, velocity: 0, scream_last_play: None };
    let mut body = body_at_rest();
    let events = vec![hazard_event(22), teleport_event(), hazard_event(21), hazard_event(99)];
    let picked = check_game_cube_collision(&mut field, &mut actor, &mut body, &events);
    assert_eq!(picked, vec![22, 21]);
    assert_eq!(actor.velocity, -40_000);
    assert_eq!(actor.health, 30_000);
    assert_eq!(body.vy, -40_000);
    assert_eq!(field.len(), 1);
}

#[test]
fn game_over_fires_once() {
    let mut actor = Actor { health: 600, velocity: -200_000, scream_last_play: None };
    let mut overlay = false;
    let mut scene = SceneController::new(AppState::FallingGame);
    let mut fired = 0;
    for tick in 0..5u64 {
        let (_, t) = adjust_actor_stats(&mut actor, &mut overlay, &mut scene, -300_000, tick * 50);
        if let Some(t) = t {
            assert_eq!(t, Transition { from: AppState::FallingGame, to: AppState::GameOver });
            fired += 1;
        }
    }
    assert!(actor.health <= 0);
    assert_eq!(fired, 1);
    assert_eq!(scene.current(), AppState::GameOver);
}

#[test]
fn sustained_fall_scenario() {
    let mut session = FallingSession::start();
    assert_eq!(session.actor.health, 100_000);
    assert_eq!(session.actor.velocity, 0);
    assert_eq!(session.state.cycle_number, 0);
    let mut scene = SceneController::new(AppState::FallingGame);
    let ticks = session.clock.advance(100_000);
    assert_eq!(ticks, 2);
    let (first, _) = session.fixed_tick(&mut scene, 150_000, 0);
    assert_eq!(session.actor.velocity, 75_000);
    assert_eq!(session.actor.health, 99_500);
    assert!(first.scream);
    assert!(session.overlay);
    let (second, _) = session.fixed_tick(&mut scene, 150_000, 50);
    assert_eq!(session.actor.velocity, 112_500);
    assert_eq!(session.actor.health, 99_000);
    assert!(!second.scream);
    assert_eq!(second.playback_rate, 1000);
    assert_eq!(scene.current(), AppState::FallingGame);
}

#[test]
fn slow_fall_does_not_drain() {
    let mut actor = Actor { health: 90_000, velocity: -10_001, scream_last_play: Some(7) };
    let tick = actor.fixed_tick(-50_000, 100_000);
    assert_eq!(actor.health, 90_000);
    assert_eq!(actor.velocity, -30_001);
    assert_eq!(tick.playback_rate, 500);
    assert!(!tick.scream);
    assert_eq!(tick.overlay, Some(false));
    assert_eq!(actor.scream_last_play, Some(7));
}

#[test]
fn scream_waits_for_cooldown() {
    let mut actor = Actor { health: 50_000, velocity: 0, scream_last_play: Some(1_000) };
    let t = actor.fixed_tick(-120_000, 2_999);
    assert!(!t.scream);
    assert_eq!(t.overlay, None);
    assert_eq!(actor.health, 49_600);
    assert_eq!(actor.scream_last_play, Some(1_000));
    let t = actor.fixed_tick(-120_000, 3_000);
    assert!(t.scream);
    assert_eq!(t.overlay, Some(true));
    assert_eq!(actor.scream_last_play, Some(3_000));
}

#[test]
fn scream_after_two_and_a_half_seconds() {
    let mut actor = Actor { health: 50_000, velocity: 0, scream_last_play: Some(10_000) };
    let t = actor.fixed_tick(-120_000, 12_500);
    assert!(t.scream);
    assert_eq!(t.overlay, Some(true));
}

#[test]
fn undamaged_fast_fall_turns_overlay_off() {
    let mut actor = Actor { health: 200_000, velocity: 0, scream_last_play: None };
    let t = actor.fixed_tick(300_000, 0);
    assert_eq!(actor.health, 199_000);
    assert!(!t.scream);
    assert_eq!(t.overlay, Some(false));
}

#[test]
fn stage_dispatch_by_cycle() {
    let mut field = CubeField::new();
    field.spawn(1, CubeType::Environment);
    field.spawn(2, CubeType::Speed);
    field.spawn(3, CubeType::Environment);
    let mut scene = SceneController::new(AppState::FallingGame);

    let mut st = FallingState::new();
    let c = scene_change(&mut st, &mut field, &mut scene, 0).unwrap();
    assert_eq!(c.background, Some(Background::Black));
    assert!(!c.respawn_hazards);
    assert_eq!(field.len(), 3);

    let mut st = FallingState { cycle_number: 2, changed: true };
    let c = scene_change(&mut st, &mut field, &mut scene, 0).unwrap();
    assert_eq!(c.background, Some(Background::White));
    assert_eq!(c.despawned, vec![2]);
    assert!(field.cubes.iter().all(|c| !c.visible));

    field.spawn(4, CubeType::Brake);
    let mut st = FallingState { cycle_number: 4, changed: true };
    let c = scene_change(&mut st, &mut field, &mut scene, 0).unwrap();
    assert_eq!(c.background, Some(Background::DarkTeal));
    assert_eq!(c.music, Some(Track::SecondDescent));
    assert_eq!(c.visibility, Some(VisibilityPattern::EveryNth(5)));
    assert_eq!(c.despawned, vec![4]);
    assert_eq!(field.cubes.iter().map(|c| c.visible).collect::<Vec<_>>(), vec![true, false]);

    let mut st = FallingState { cycle_number: 7, changed: true };
    let c = scene_change(&mut st, &mut field, &mut scene, 0).unwrap();
    assert_eq!(c.background, None);
    assert!(c.transition.is_none());

    let mut st = FallingState { cycle_number: 8, changed: true };
    let c = scene_change(&mut st, &mut field, &mut scene, 93_456).unwrap();
    assert_eq!(c.stats, Some(GameStats { time: 93 }));
    assert_eq!(c.transition, Some(Transition { from: AppState::FallingGame, to: AppState::GameEnd }));
    assert_eq!(scene.current(), AppState::GameEnd);
}

#[test]
fn session_frame_runs_in_order() {
    let mut session = FallingSession::start();
    session.cubes.spawn(30, CubeType::Environment);
    session.cubes.spawn(31, CubeType::Health);
    let mut scene = SceneController::new(AppState::FallingGame);
    let mut body = ActorBody { x: 0, y: 2_000_000, z: 0, vx: 0, vy: -50_000, vz: 0 };
    let action = cult_of_biboran::control::PlayerActionFlags::idle();
    let events = vec![teleport_event(), hazard_event(31)];
    assert!(session.can_run_frame(&body, events.len()));
    let report = session.frame(&mut scene, &mut body, action, &events, 0);
    assert!(report.teleported);
    assert_eq!(session.state, FallingState { cycle_number: 1, changed: false });
    assert_eq!(report.stage.map(|s| s.background), Some(None));
    assert_eq!(report.picked, vec![31]);
    assert_eq!(session.actor.health, START_HEALTH + 20_000);
    assert_eq!(body.y, CEILING_Y);
    assert_eq!(body.vy, 0);

    let report = session.frame(&mut scene, &mut body, action, &vec![], 0);
    assert!(!report.teleported && report.stage.is_none() && report.picked.is_empty());
    assert!(!session.can_run_frame(&ActorBody { x: i64::MAX, ..body }, 0));
}

#[test]
fn tick_bounds_are_checked() {
    let a = Actor { health: i64::MIN + 100, velocity: 0, scream_last_play: None };
    assert!(!a.can_tick(-300_000));
    assert!(a.can_tick(-50_000));
    assert!(Actor::new().can_tick(i64::MIN));
}
