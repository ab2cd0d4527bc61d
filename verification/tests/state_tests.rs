use nightfire::light::color::Color;
use nightfire::light::coord::{Coordinate, Quadrant};
use nightfire::light::state::{ClockAction, MaskSamples, Mode, State, StateAction};

fn samples() -> MaskSamples {
    MaskSamples { white: 0, pos: 255, flash: 255, pulse: 255, rainbow: Color::new(10, 20, 30) }
}

fn tl() -> Coordinate {
    Coordinate(-100, 100)
}

#[test]
fn fresh_state_shows_manual_colors() {
    let s = State::new();
    assert_eq!(s.get_active_mode(), Mode::ManualMode);
    assert!(!s.is_off());
    assert_eq!(s.get_value_mask_pos(), Coordinate(0, 0));
    assert_eq!(s.get_color(&tl(), &samples()), Color::red());
    assert_eq!(s.get_color(&Coordinate(100, -100), &samples()), Color::green());
}

#[test]
fn modes_pick_the_source() {
    let mut s = State::new();
    s.set_active_mode(Mode::RainbowMode);
    assert_eq!(s.get_color(&tl(), &samples()), Color::new(10, 20, 30));
    s.set_active_mode(Mode::OffMode);
    assert!(s.is_off());
    assert_eq!(s.get_color(&tl(), &samples()), Color::black());
    // the white flash shows even when off
    let mut flash = samples();
    flash.white = 255;
    assert_eq!(s.get_color(&tl(), &flash), Color::white());
}

#[test]
fn music_mask_and_intensity() {
    let mut s = State::new();
    s.set_intensity(51);
    // red at 51/255
    assert_eq!(s.get_color(&tl(), &samples()), Color::new(51, 0, 0));
    s.switch_music_mode();
    assert_eq!(s.get_color(&tl(), &samples()), Color::red());
    s.switch_music_mode();
    s.set_intensity(0);
    assert_eq!(s.get_color(&tl(), &samples()), Color::black());
}

#[test]
fn flash_mode_uses_the_flash_samples() {
    let mut s = State::new();
    s.switch_flash_mode();
    s.set_value_mask_base(0);
    let mut smp = samples();
    smp.pos = 0;
    smp.flash = 0;
    assert_eq!(s.get_color(&tl(), &smp), Color::black());
    smp.flash = 102;
    assert_eq!(s.get_color(&tl(), &smp), Color::new(102, 0, 0));
    s.switch_flash_mode();
    assert_eq!(s.get_color(&tl(), &smp), Color::red());
}

#[test]
fn pulse_and_invert() {
    let mut s = State::new();
    s.switch_pulse_mode();
    let mut smp = samples();
    smp.pulse = 0;
    assert_eq!(s.get_color(&tl(), &smp), Color::black());
    s.set_invert_factor(255);
    // fully inverted: the color of the inverted mask
    assert_eq!(s.get_color(&tl(), &smp), Color::red());
}

#[test]
fn manual_colors_are_kept_in_the_state() {
    let mut s = State::new();
    s.manual_mode().set_color(Quadrant::TL, Color::white());
    assert_eq!(s.get_color(&tl(), &samples()), Color::white());
    s.manual_mode().rotate_cw();
    assert_eq!(s.get_color(&Coordinate(100, 100), &samples()), Color::white());
    s.set_value_mask_pos(Coordinate(3, 4));
    assert_eq!(s.get_value_mask_pos(), Coordinate(3, 4));
    s.register_activity(5);
}

#[test]
fn apply_changes_what_the_operation_names() {
    let mut s = State::new();
    assert_eq!(s.apply(StateAction::SetActiveMode(Mode::RainbowMode), 5), None);
    assert_eq!(s.get_active_mode(), Mode::RainbowMode);
    assert_eq!(s.apply(StateAction::SetActiveMode(Mode::ManualMode), 6), None);
    assert_eq!(s.apply(StateAction::RotateCw, 7), None);
    // blue comes up from the bottom left
    assert_eq!(s.get_color(&tl(), &samples()), Color::blue());
    assert_eq!(s.apply(StateAction::SetQuadrant(Quadrant::TL, Color::white()), 8), None);
    assert_eq!(s.get_color(&tl(), &samples()), Color::white());
    assert_eq!(s.apply(StateAction::SetValueMaskPos(Coordinate(3, 4)), 9), None);
    assert_eq!(s.get_value_mask_pos(), Coordinate(3, 4));
    // switched on, the music mask at intensity 0 darkens everything
    s.set_intensity(0);
    assert_eq!(s.get_color(&tl(), &samples()), Color::black());
    assert_eq!(s.apply(StateAction::SwitchMusicMode, 10), None);
    assert_eq!(s.get_color(&tl(), &samples()), Color::white());
}

#[test]
fn apply_hands_back_the_clock_driven_operations() {
    let mut s = State::new();
    assert_eq!(s.apply(StateAction::WhiteFlash, 1), Some(ClockAction::WhiteFlash));
    assert_eq!(s.apply(StateAction::FlashTopLeft, 1), Some(ClockAction::Flash(Quadrant::TL)));
    assert_eq!(s.apply(StateAction::FlashTopRight, 1), Some(ClockAction::Flash(Quadrant::TR)));
    assert_eq!(s.apply(StateAction::FlashBotLeft, 1), Some(ClockAction::Flash(Quadrant::BL)));
    assert_eq!(s.apply(StateAction::FlashBotRight, 1), Some(ClockAction::Flash(Quadrant::BR)));
    // the lights themselves are unchanged
    assert_eq!(s.get_color(&tl(), &samples()), Color::red());
}

#[test]
fn apply_all_applies_in_order_and_collects_clock_actions() {
    let mut s = State::new();
    let actions = vec![
        StateAction::RotateCw,
        StateAction::FlashBotRight,
        StateAction::SetQuadrant(Quadrant::TL, Color::white()),
        StateAction::WhiteFlash,
        StateAction::SetValueMaskPos(Coordinate(7, 8)),
        StateAction::FlashTopLeft,
    ];
    let clock = s.apply_all(&actions, 3);
    assert_eq!(
        clock,
        vec![ClockAction::Flash(Quadrant::BR), ClockAction::WhiteFlash, ClockAction::Flash(Quadrant::TL)]
    );
    // the quadrant was set after the rotation
    assert_eq!(s.get_color(&tl(), &samples()), Color::white());
    // bottom right got the old top right color (yellow) from the rotation
    assert_eq!(s.get_color(&Coordinate(100, -100), &samples()), Color::new(255, 255, 0));
    assert_eq!(s.get_value_mask_pos(), Coordinate(7, 8));
    assert_eq!(s.apply_all(&vec![], 4), vec![]);
}
