//! Decisions of the cosmetic screens: the subliminal flash overlay, the
//! cutscene slideshow, the menu buttons, the tunnel's animation and the HUD.

use vstd::prelude::*;
use crate::random::roll_below;

verus! {

/// The words that the flash overlay can show.
#[derive(Clone, Copy, Debug, PartialEq, Eq, Structural)]
pub enum FlashWord {
    AnshaAbdul,
    Vodka,
    Cigarettes,
    Drink,
    Smoke,
}

impl FlashWord {
    /// The text shown for the word.
    pub fn text(self) -> (r: &'static str)
        ensures
            r@ == match self {
                FlashWord::AnshaAbdul => "ANSHA ABDUL"@,
                FlashWord::Vodka => "VODKA"@,
                FlashWord::Cigarettes => "CIGARETTES"@,
                FlashWord::Drink => "DRINK"@,
                FlashWord::Smoke => "SMOKE"@,
            },
    {
        match self {
            FlashWord::AnshaAbdul => "ANSHA ABDUL",
            FlashWord::Vodka => "VODKA",
            FlashWord::Cigarettes => "CIGARETTES",
            FlashWord::Drink => "DRINK",
            FlashWord::Smoke => "SMOKE",
        }
    }
}

/// One flash of the overlay: a word, or one of the four flashback images
/// (numbered from 1).
#[derive(Clone, Copy, Debug, PartialEq, Eq, Structural)]
pub enum Flash {
    Word(FlashWord),
    Image(u8),
}

/// Chance, out of `FLASH_ODDS`, that an enabled overlay flashes in a step.
pub const FLASH_CHANCE: u32 = 2;

pub const FLASH_ODDS: u32 = 10;

/// Number of values of the draw that picks a flash.
pub const FLASH_KINDS: u32 = 20;

/// The flash picked by a draw from `0..20`: 2 gives the name, 0 to 4
/// otherwise vodka, 5 and 6 cigarettes, 7 and 8 drink, 9 and 10 smoke; 11 to
/// 13 the first image, 14 and 15 the second, 16 and 17 the third, the rest
/// the fourth.
pub open spec fn spec_pick_flash(roll: u32) -> Flash {
    if roll <= 10 {
        if roll == 2 {
            Flash::Word(FlashWord::AnshaAbdul)
        } else if roll <= 4 {
            Flash::Word(FlashWord::Vodka)
        } else if roll <= 6 {
            Flash::Word(FlashWord::Cigarettes)
        } else if roll <= 8 {
            Flash::Word(FlashWord::Drink)
        } else {
            Flash::Word(FlashWord::Smoke)
        }
    } else if roll <= 13 {
        Flash::Image(1)
    } else if roll <= 15 {
        Flash::Image(2)
    } else if roll <= 17 {
        Flash::Image(3)
    } else {
        Flash::Image(4)
    }
}

pub fn pick_flash(roll: u32) -> (r: Flash)
    ensures
        r == spec_pick_flash(roll),
{
    if roll <= 10 {
        if roll == 2 {
            Flash::Word(FlashWord::AnshaAbdul)
        } else if roll <= 4 {
            Flash::Word(FlashWord::Vodka)
        } else if roll <= 6 {
            Flash::Word(FlashWord::Cigarettes)
        } else if roll <= 8 {
            Flash::Word(FlashWord::Drink)
        } else {
            Flash::Word(FlashWord::Smoke)
        }
    } else if roll <= 13 {
        Flash::Image(1)
    } else if roll <= 15 {
        Flash::Image(2)
    } else if roll <= 17 {
        Flash::Image(3)
    } else {
        Flash::Image(4)
    }
}

/// The flash, if any, for one step of the overlay, given the two draws: none
/// when the overlay is disabled, when a flash is still on screen, or when
/// the first draw (from `0..10`) is above 1; otherwise the flash that the
/// second draw picks.
pub open spec fn spec_flash_decision(enabled: bool, on_screen: usize, chance: u32, pick: u32) -> Option<Flash> {
    if !enabled || on_screen > 0 || chance >= FLASH_CHANCE {
        None
    } else {
        Some(spec_pick_flash(pick))
    }
}

pub fn flash_decision(enabled: bool, on_screen: usize, chance: u32, pick: u32) -> (r: Option<Flash>)
    ensures
        r == spec_flash_decision(enabled, on_screen, chance, pick),
{
    if !enabled || on_screen > 0 || chance >= FLASH_CHANCE {
        None
    } else {
        Some(pick_flash(pick))
    }
}

/// One step of the overlay with fresh draws. Whatever the draws, there is no
/// flash when the overlay is disabled or a flash is still on screen, and any
/// flash is one that some draw picks.
pub fn show_flash(enabled: bool, on_screen: usize) -> (r: Option<Flash>)
    ensures
        !enabled || on_screen > 0 ==> r.is_none(),
        r.is_some() ==> exists|pick: u32| pick < FLASH_KINDS && r == Some(spec_pick_flash(pick)),
        exists|chance: u32, pick: u32|
            chance < FLASH_ODDS && pick < FLASH_KINDS && r == spec_flash_decision(
                enabled,
                on_screen,
                chance,
                pick,
            ),
{
    if !enabled || on_screen > 0 {
        assert(None::<Flash> == spec_flash_decision(enabled, on_screen, 0, 0));
        return None;
    }
    let chance = roll_below(FLASH_ODDS);
    if chance >= FLASH_CHANCE {
        assert(None::<Flash> == spec_flash_decision(enabled, on_screen, chance, 0));
        return None;
    }
    let pick = roll_below(FLASH_KINDS);
    flash_decision(enabled, on_screen, chance, pick)
}

/// Number of slides of the cutscene.
pub const SLIDES: u8 = 5;

/// How long a slide stays, in milliseconds.
pub const SLIDE_MILLIS: u64 = 5_000;

/// Progress of the cutscene: the number of the next slide, 0 before the
/// first.
#[derive(Clone, Copy, Debug, PartialEq, Eq, Structural)]
pub struct CutsceneSettings {
    pub next_stage: u8,
}

/// What the cutscene does in a frame.
#[derive(Clone, Copy, Debug, PartialEq, Eq, Structural)]
pub enum CutsceneAction {
    /// Keep the current slide and let its time run.
    Wait,
    /// Restart the slide timer and show the slide at this index.
    Show(u8),
    /// The slides are over: start the falling game.
    Finish,
}

/// One frame of the cutscene, `elapsed` milliseconds into the current slide:
/// the first slide comes at once, each next one after five seconds, and
/// after the last the game starts.
pub fn cutscene_step(settings: &mut CutsceneSettings, elapsed: u64) -> (r: CutsceneAction)
    requires
        old(settings).next_stage <= SLIDES,
    ensures
        elapsed < SLIDE_MILLIS && old(settings).next_stage != 0 ==> r == CutsceneAction::Wait
            && *final(settings) == *old(settings),
        !(elapsed < SLIDE_MILLIS && old(settings).next_stage != 0) ==> final(settings).next_stage
            == old(settings).next_stage + 1 && r == if old(settings).next_stage == SLIDES {
            CutsceneAction::Finish
        } else {
            CutsceneAction::Show(old(settings).next_stage)
        },
{
    if elapsed < SLIDE_MILLIS && settings.next_stage != 0 {
        return CutsceneAction::Wait;
    }
    settings.next_stage = settings.next_stage + 1;
    if settings.next_stage == SLIDES + 1 {
        CutsceneAction::Finish
    } else {
        CutsceneAction::Show(settings.next_stage - 1)
    }
}

/// The caption and image of a slide.
pub fn cutscene_slide(index: u8) -> (r: (&'static str, &'static str))
    requires
        index < SLIDES,
    ensures
        index == 0 ==> r.0@ == "And there was God, and there was Satan,\n and there were humans\n, and there were non-humans\n, and there was\n Alexander Gavrilovich Abdulov."@
            && r.1@ == "images/story/1.png"@,
        index == 1 ==> r.0@ == "And there were humans\nAnd there were unhumans"@ && r.1@ == "images/story/2.png"@,
        index == 2 ==> r.0@ == "And there was\nAlexander\nGavrilovich\nAbdulov"@ && r.1@ == "images/story/3.png"@,
        index == 3 ==> r.0@ == "And sayeth Abdulov\nI am the Law"@ && r.1@ == "images/story/4.png"@,
        index == 4 ==> r.0@ == "He slayed God and Satan\nto become GodSatan\nall in one"@ && r.1@ == "images/story/5.png"@,
{
    if index == 0 {
        (
            "And there was God, and there was Satan,\n and there were humans\n, and there were non-humans\n, and there was\n Alexander Gavrilovich Abdulov.",
            "images/story/1.png",
        )
    } else if index == 1 {
        ("And there were humans\nAnd there were unhumans", "images/story/2.png")
    } else if index == 2 {
        ("And there was\nAlexander\nGavrilovich\nAbdulov", "images/story/3.png")
    } else if index == 3 {
        ("And sayeth Abdulov\nI am the Law", "images/story/4.png")
    } else {
        ("He slayed God and Satan\nto become GodSatan\nall in one", "images/story/5.png")
    }
}

/// State of a button under the pointer.
#[derive(Clone, Copy, Debug, PartialEq, Eq, Structural)]
pub enum Interaction {
    Clicked,
    Hovered,
    Idle,
}

/// Colours of a menu button.
#[derive(Clone, Copy, Debug, PartialEq, Eq, Structural)]
pub enum ButtonColor {
    Normal,
    Hovered,
    Pressed,
}

/// Sound cues of the menus.
#[derive(Clone, Copy, Debug, PartialEq, Eq, Structural)]
pub enum MenuCue {
    Click,
    Hover,
}

/// What a change of a button's interaction asks for.
#[derive(Clone, Copy, Debug, PartialEq, Eq, Structural)]
pub struct ButtonResponse {
    pub color: ButtonColor,
    pub cue: Option<MenuCue>,
    /// The game is to start.
    pub start_game: bool,
}

/// A click plays the click cue, shows the pressed colour and starts the
/// game; hovering plays the hover cue and shows the hovered colour; leaving
/// restores the normal colour.
pub fn button_response(i: Interaction) -> (r: ButtonResponse)
    ensures
        r.start_game == (i == Interaction::Clicked),
        i == Interaction::Clicked ==> r.color == ButtonColor::Pressed && r.cue == Some(MenuCue::Click),
        i == Interaction::Hovered ==> r.color == ButtonColor::Hovered && r.cue == Some(MenuCue::Hover),
        i == Interaction::Idle ==> r.color == ButtonColor::Normal && r.cue.is_none(),
{
    match i {
        Interaction::Clicked => ButtonResponse {
            color: ButtonColor::Pressed,
            cue: Some(MenuCue::Click),
            start_game: true,
        },
        Interaction::Hovered => ButtonResponse {
            color: ButtonColor::Hovered,
            cue: Some(MenuCue::Hover),
            start_game: false,
        },
        Interaction::Idle => ButtonResponse { color: ButtonColor::Normal, cue: None, start_game: false },
    }
}

/// Number of cube pairs on a ring.
pub const RING_CUBES: usize = 11;

/// The cube that the line from cube `i` of a ring goes to: four places on,
/// around the ring.
pub fn ring_partner(i: usize) -> (r: usize)
    requires
        i < RING_CUBES,
    ensures
        r == (i + 4) % (RING_CUBES as int),
        r < RING_CUBES,
{
    if i + 4 < RING_CUBES {
        i + 4
    } else {
        i + 4 - RING_CUBES
    }
}

/// The tunnel turns during cycles 0, 2 and 4.
pub fn environment_turns(cycle: u64) -> (r: bool)
    ensures
        r == (cycle == 0 || cycle == 2 || cycle == 4),
{
    cycle == 0 || cycle == 2 || cycle == 4
}

/// Turning sense of a floor ring: every ring turns backwards during cycle 4;
/// otherwise rings of direction 0 turn backwards and the others forwards.
pub fn floor_turn(cycle: u64, direction: u8) -> (r: i8)
    ensures
        r == if cycle == 4 || direction == 0 {
            -1i8
        } else {
            1i8
        },
{
    if cycle == 4 || direction == 0 {
        -1
    } else {
        1
    }
}

/// The rings are outlined during cycles 2 and 6.
pub fn outlines_drawn(cycle: u64) -> (r: bool)
    ensures
        r == (cycle == 2 || cycle == 6),
{
    cycle == 2 || cycle == 6
}

/// `x` divided by `d`, rounded toward zero.
pub open spec fn div_toward_zero(x: int, d: int) -> int {
    if x >= 0 {
        x / d
    } else {
        -((-x) / d)
    }
}

/// Figures of the HUD.
#[derive(Clone, Copy, Debug, PartialEq, Eq, Structural)]
pub struct HudReadout {
    /// Fall speed in whole units per second, positive when falling.
    pub speed: i64,
    /// Health in whole units.
    pub health: i64,
    /// Whole seconds since the run began.
    pub elapsed_secs: u64,
}

/// The HUD's figures for a body vertical velocity and a health, both in
/// thousandths, and a run time in milliseconds: whole units, rounded toward
/// zero, with the speed's sign turned so that a fall reads positive.
pub fn hud_readout(vy: i64, health: i64, elapsed_ms: u64) -> (r: HudReadout)
    ensures
        r.speed == -div_toward_zero(vy as int, 1000),
        r.health == div_toward_zero(health as int, 1000),
        r.elapsed_secs == elapsed_ms / 1000,
{
    let v = vy as i128;
    let h = health as i128;
    let whole_v: i128 = if v >= 0 { v / 1000 } else { -((-v) / 1000) };
    let whole_h: i128 = if h >= 0 { h / 1000 } else { -((-h) / 1000) };
    HudReadout { speed: (-whole_v) as i64, health: whole_h as i64, elapsed_secs: elapsed_ms / 1000 }
}

} // verus!
