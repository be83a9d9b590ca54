use cult_of_biboran::actor::ActorBody;
use cult_of_biboran::clock::FixedClock;
use cult_of_biboran::control::{actions_from_keys, control_player, Key, PlayerAction, PlayerActionFlags};
use cult_of_biboran::hazards::CubeType;
use cult_of_biboran::layers::{CollisionEvent, CollisionLayers, Layer};
use cult_of_biboran::presentation::{
    button_response, cutscene_slide, cutscene_step, environment_turns, flash_decision, floor_turn,
    hud_readout, outlines_drawn, pick_flash, ring_partner, show_flash, ButtonColor, CutsceneAction,
    CutsceneSettings, Flash, FlashWord, Interaction, MenuCue,
};
use cult_of_biboran::spawning::{
    floor_direction, kind_from_roll, level_height, plan_from_rolls, plan_game_spheres,
};

fn contact(l1: CollisionLayers, l2: CollisionLayers) -> CollisionEvent {
    CollisionEvent { entity_1: 7, layers_1: l1, entity_2: 8, layers_2: l2 }
}

#[test]
fn layer_sets_hold_what_was_added() {
    let l = CollisionLayers::none().with_group(Layer::World).with_mask(Layer::Player);
    assert!(l.contains_group(Layer::World));
    assert!(!l.contains_group(Layer::Player));
    assert!(!l.contains_group(Layer::Teleport));
    assert!(l.contains_mask(Layer::Player));
    assert!(!l.contains_mask(Layer::World));
    let n = CollisionLayers::new(Layer::Teleport, Layer::Player);
    assert!(n.contains_group(Layer::Teleport));
    assert!(!n.contains_group(Layer::World));
    assert!(n.contains_mask(Layer::Player));
}

#[test]
fn classification_ignores_order() {
    let player = CollisionLayers::new(Layer::Player, Layer::World);
    let world = CollisionLayers::new(Layer::World, Layer::Player);
    let tele = CollisionLayers::new(Layer::Teleport, Layer::Player);
    let e = contact(player, world);
    assert_eq!(e.hazard_hit(), Some(8));
    assert_eq!(e.swapped().hazard_hit(), Some(8));
    assert_eq!(e.teleport_hit(), None);
    let t = contact(tele, player);
    assert_eq!(t.teleport_hit(), Some(7));
    assert_eq!(t.swapped().teleport_hit(), Some(7));
    assert_eq!(t.hazard_hit(), None);
}

#[test]
fn mixed_layers_are_not_contacts() {
    let both = CollisionLayers::none().with_group(Layer::Player).with_group(Layer::World);
    let world = CollisionLayers::new(Layer::World, Layer::Player);
    assert_eq!(contact(both, world).hazard_hit(), None);
    assert_eq!(contact(world, world).hazard_hit(), None);
    let none = CollisionLayers::none();
    assert_eq!(contact(none, none).teleport_hit(), None);
}

#[test]
fn keys_become_actions() {
    let f = actions_from_keys(&vec![Key::Left, Key::Space, Key::Other]);
    assert!(f.contains(PlayerAction::Idle));
    assert!(f.contains(PlayerAction::Left));
    assert!(f.contains(PlayerAction::Brake));
    assert!(!f.contains(PlayerAction::Right));
    assert!(!f.contains(PlayerAction::Up));
    let idle = actions_from_keys(&vec![]);
    assert_eq!(idle, PlayerActionFlags::idle());
}

#[test]
fn movement_stays_within_reach() {
    let mut f = PlayerActionFlags::idle();
    f.insert(PlayerAction::Right);
    f.insert(PlayerAction::Up);
    let mut body = ActorBody { x: 7_400, y: 0, z: 0, vx: 0, vy: 0, vz: 0 };
    control_player(f, &mut body, &vec![]);
    assert_eq!((body.x, body.z), (7_400, -300));
    let mut body = ActorBody { x: 0, y: 0, z: 0, vx: 0, vy: 0, vz: 0 };
    control_player(f, &mut body, &vec![]);
    assert_eq!((body.x, body.z), (300, -300));
}

#[test]
fn brake_and_world_contact() {
    let mut f = PlayerActionFlags::idle();
    f.insert(PlayerAction::Brake);
    let mut body = ActorBody { x: 0, y: 0, z: 0, vx: 5, vy: -20_000, vz: 6 };
    control_player(f, &mut body, &vec![]);
    assert_eq!(body.vy, -19_000);
    let mut rising = ActorBody { vy: 3_000, ..body };
    control_player(f, &mut rising, &vec![]);
    assert_eq!(rising.vy, 3_000);
    let hit = contact(
        CollisionLayers::new(Layer::Player, Layer::World),
        CollisionLayers::new(Layer::World, Layer::Player),
    );
    control_player(f, &mut body, &vec![hit]);
    assert_eq!((body.vx, body.vy, body.vz), (0, 0, 0));
}

#[test]
fn fixed_clock_carries_remainder() {
    let mut c = FixedClock::new(50_000);
    assert_eq!(c.advance(16_000), 0);
    assert_eq!(c.advance(40_000), 1);
    assert_eq!(c.accumulator, 6_000);
    assert_eq!(c.advance(144_000), 3);
    assert_eq!(c.accumulator, 0);
}

#[test]
fn hazard_batches_are_spaced_and_never_scenery() {
    let plan = plan_game_spheres();
    assert_eq!(plan.len(), 100);
    for (i, h) in plan.iter().enumerate() {
        assert_eq!(h.level, 3 * i as u64);
        assert_ne!(h.cube_type, CubeType::Environment);
    }
}

#[test]
fn rolls_map_to_kinds() {
    assert_eq!(kind_from_roll(0), CubeType::Brake);
    assert_eq!(kind_from_roll(1), CubeType::Health);
    assert_eq!(kind_from_roll(2), CubeType::Speed);
    assert_eq!(kind_from_roll(3), CubeType::Environment);
    assert_eq!(level_height(299), 2_990_000);
    assert_eq!(floor_direction(6), 0);
    assert_eq!(floor_direction(7), 1);
}

#[test]
fn flash_table() {
    assert_eq!(pick_flash(2), Flash::Word(FlashWord::AnshaAbdul));
    assert_eq!(pick_flash(0), Flash::Word(FlashWord::Vodka));
    assert_eq!(pick_flash(4), Flash::Word(FlashWord::Vodka));
    assert_eq!(pick_flash(6), Flash::Word(FlashWord::Cigarettes));
    assert_eq!(pick_flash(7), Flash::Word(FlashWord::Drink));
    assert_eq!(pick_flash(10), Flash::Word(FlashWord::Smoke));
    assert_eq!(pick_flash(11), Flash::Image(1));
    assert_eq!(pick_flash(15), Flash::Image(2));
    assert_eq!(pick_flash(16), Flash::Image(3));
    assert_eq!(pick_flash(19), Flash::Image(4));
    assert_eq!(FlashWord::Cigarettes.text(), "CIGARETTES");
}

#[test]
fn flash_needs_enabled_empty_overlay_and_luck() {
    assert_eq!(flash_decision(false, 0, 0, 2), None);
    assert_eq!(flash_decision(true, 1, 0, 2), None);
    assert_eq!(flash_decision(true, 0, 2, 2), None);
    assert_eq!(flash_decision(true, 0, 1, 2), Some(Flash::Word(FlashWord::AnshaAbdul)));
    assert_eq!(show_flash(false, 0), None);
    assert_eq!(show_flash(true, 3), None);
}

#[test]
fn cutscene_runs_five_slides() {
    let mut s = CutsceneSettings { next_stage: 0 };
    assert_eq!(cutscene_step(&mut s, 0), CutsceneAction::Show(0));
    assert_eq!(cutscene_step(&mut s, 4_999), CutsceneAction::Wait);
    assert_eq!(s.next_stage, 1);
    for i in 1..5u8 {
        assert_eq!(cutscene_step(&mut s, 5_000), CutsceneAction::Show(i));
    }
    assert_eq!(cutscene_step(&mut s, 5_000), CutsceneAction::Finish);
    assert_eq!(cutscene_slide(4).1, "images/story/5.png");
}

#[test]
fn buttons_respond() {
    let c = button_response(Interaction::Clicked);
    assert_eq!((c.color, c.cue, c.start_game), (ButtonColor::Pressed, Some(MenuCue::Click), true));
    let h = button_response(Interaction::Hovered);
    assert_eq!((h.color, h.cue, h.start_game), (ButtonColor::Hovered, Some(MenuCue::Hover), false));
    let n = button_response(Interaction::Idle);
    assert_eq!((n.color, n.cue, n.start_game), (ButtonColor::Normal, None, false));
}

#[test]
fn tunnel_animation() {
    assert_eq!(ring_partner(0), 4);
    assert_eq!(ring_partner(7), 0);
    assert_eq!(ring_partner(10), 3);
    assert!(environment_turns(0) && environment_turns(4) && !environment_turns(6));
    assert_eq!(floor_turn(0, 1), 1);
    assert_eq!(floor_turn(0, 0), -1);
    assert_eq!(floor_turn(4, 1), -1);
    assert!(outlines_drawn(2) && outlines_drawn(6) && !outlines_drawn(4));
}

#[test]
fn hud_figures() {
    let r = hud_readout(-112_500, 99_999, 61_900);
    assert_eq!((r.speed, r.health, r.elapsed_secs), (112, 99, 61));
    let r = hud_readout(2_700, -1_500, 0);
    assert_eq!((r.speed, r.health), (-2, -1));
}

#[test]
fn batch_follows_the_draws() {
    let rolls: Vec<u32> = (0..100u32).map(|i| i % 3).collect();
    let plan = plan_from_rolls(&rolls);
    assert_eq!(plan.len(), 100);
    assert_eq!(plan[0].cube_type, CubeType::Brake);
    assert_eq!(plan[1].cube_type, CubeType::Health);
    assert_eq!(plan[2].cube_type, CubeType::Speed);
    assert_eq!(plan[99].level, 297);
    assert_eq!(plan[99].cube_type, CubeType::Brake);
    assert_eq!(level_height(1_000), 10_000_000);
}

#[test]
fn slides_and_words_read_as_written() {
    assert_eq!(cutscene_slide(0).1, "images/story/1.png");
    assert_eq!(cutscene_slide(3).0, "And sayeth Abdulov\nI am the Law");
    assert_eq!(FlashWord::AnshaAbdul.text(), "ANSHA ABDUL");
    assert_eq!(FlashWord::Smoke.text(), "SMOKE");
}
