use nightfire::ir::signal::Signal;
use nightfire::light::cmap::{ColorMap, ManualMode};
use nightfire::light::color::Color;
use nightfire::light::coord::{Coordinate, Quadrant};
use nightfire::light::state::{Mode, StateAction};
use nightfire::mode::double_blob::{blob_controller_actions, blob_signal_action, BlobAction, BlobSignalAction, Palette};
use nightfire::mode::manual::{
    audio_decay_faster, audio_decay_slower, controller_actions, manual_signal_action, ManualSignalAction,
};
use nightfire::mode::mode_switcher::{ModeName, ModeSwitcher};
use nightfire::mode::{handle_signal, signal_action, SignalAction};
use nightfire::sixaxis::controller::{Controller, ControllerValues};

fn solid(c: Color) -> ManualMode {
    let mut m = ManualMode::new();
    m.set_all(c);
    m
}

fn switcher() -> ModeSwitcher<ManualMode> {
    ModeSwitcher::new(
        ModeName::Manual1,
        solid(Color::new(1, 0, 0)),
        solid(Color::new(2, 0, 0)),
        solid(Color::new(3, 0, 0)),
        solid(Color::new(4, 0, 0)),
        solid(Color::new(5, 0, 0)),
        solid(Color::new(6, 0, 0)),
    )
}

fn centered() -> [u8; 20] {
    let mut buf = [0u8; 20];
    buf[6] = 127;
    buf[7] = 128;
    buf[8] = 128;
    buf[9] = 127;
    buf
}

#[test]
fn switcher_selects_and_switches_off() {
    let p = Coordinate(10, 10);
    let mut s = switcher();
    assert_eq!(s.get_color(&p), Color::new(2, 0, 0));
    s.activate_mode(ModeName::HighLow);
    assert_eq!(s.get_color(&p), Color::new(6, 0, 0));
    s.switch_on_off();
    assert_eq!(s.get_color(&p), Color::black());
    s.switch_on_off();
    assert_eq!(s.get_color(&p), Color::new(6, 0, 0));
    s.current_mode().set_all(Color::white());
    assert_eq!(s.get_color(&p), Color::white());
    s.activate_mode(ModeName::Auto);
    assert_eq!(s.get_color(&p), Color::new(1, 0, 0));
    assert_eq!(s.visible_mode().map(|m| m.get_color(&p)), Some(Color::new(1, 0, 0)));
    s.switch_on_off();
    assert!(s.visible_mode().is_none());
}

#[test]
fn remote_signals_for_the_switcher() {
    assert_eq!(signal_action(Signal::Diy1), SignalAction::Activate(ModeName::Manual1));
    assert_eq!(signal_action(Signal::Diy2), SignalAction::Activate(ModeName::Manual2));
    assert_eq!(signal_action(Signal::Diy3), SignalAction::Activate(ModeName::Auto));
    assert_eq!(signal_action(Signal::Diy4), SignalAction::Activate(ModeName::DoubleBlob));
    assert_eq!(signal_action(Signal::Diy5), SignalAction::Activate(ModeName::HighLow));
    assert_eq!(signal_action(Signal::Diy6), SignalAction::Activate(ModeName::Manual3));
    assert_eq!(signal_action(Signal::Power), SignalAction::SwitchOnOff);
    assert_eq!(signal_action(Signal::Red), SignalAction::Forward);
    let p = Coordinate(10, 10);
    let mut s = switcher();
    assert!(!handle_signal(&mut s, Signal::Diy4));
    assert_eq!(s.get_color(&p), Color::new(5, 0, 0));
    assert!(!handle_signal(&mut s, Signal::Power));
    assert_eq!(s.get_color(&p), Color::black());
    assert!(handle_signal(&mut s, Signal::Quick));
    assert_eq!(s.get_color(&p), Color::black());
    assert!(!handle_signal(&mut s, Signal::Power));
    assert_eq!(s.get_color(&p), Color::new(5, 0, 0));
}

#[test]
fn controller_mode_selection() {
    let mut buf = centered();
    buf[4] = 1; // PS
    buf[2] = 0b0101_0000; // Up and Down
    let c = Controller::new(ControllerValues::new(buf));
    assert_eq!(
        controller_actions(&c, Mode::OffMode, None),
        vec![StateAction::RegisterActivity, StateAction::SetActiveMode(Mode::ManualMode)]
    );
    buf[2] = 0b1000_0000; // Left
    let c = Controller::new(ControllerValues::new(buf));
    assert_eq!(
        controller_actions(&c, Mode::OffMode, None),
        vec![StateAction::RegisterActivity, StateAction::SetActiveMode(Mode::RainbowMode)]
    );
}

#[test]
fn controller_idle_update() {
    let c = Controller::new(ControllerValues::new(centered()));
    assert_eq!(
        controller_actions(&c, Mode::ManualMode, None),
        vec![
            StateAction::SetValueMaskBase(0),
            StateAction::SetValueMaskPos(Coordinate(-1, -1)),
            StateAction::SetInvertFactor(0),
        ]
    );
}

#[test]
fn controller_full_update() {
    let mut c = Controller::new(ControllerValues::new(centered()));
    let mut buf = centered();
    buf[2] = 0b0000_1001; // Start, Select
    buf[3] = 0b0100_0100; // Cross, L1
    buf[18] = 100;
    buf[6] = 0; // left stick far left
    c.update(ControllerValues::new(buf));
    let w = Color::white();
    assert_eq!(
        controller_actions(&c, Mode::ManualMode, Some(w)),
        vec![
            StateAction::RegisterActivity,
            StateAction::SwitchMusicMode,
            StateAction::SetValueMaskBase(100),
            StateAction::SetValueMaskPos(Coordinate(-255, -1)),
            StateAction::SetInvertFactor(0),
            StateAction::SwitchPulseMode,
            StateAction::RotateCw,
            StateAction::FlashTopLeft,
            StateAction::FlashBotRight,
            StateAction::SetMajorDiag(w),
            StateAction::SetQuadrant(Quadrant::BL, w),
        ]
    );
    // outside manual mode no color is set
    let actions = controller_actions(&c, Mode::RainbowMode, Some(w));
    assert_eq!(actions.len(), 9);
    assert_eq!(actions[8], StateAction::FlashBotRight);
}

#[test]
fn remote_signals_in_manual_mode() {
    assert_eq!(manual_signal_action(Signal::PlayPause), Some(ManualSignalAction::SwitchPulseMode));
    assert_eq!(manual_signal_action(Signal::Quick), Some(ManualSignalAction::DecayFaster));
    assert_eq!(manual_signal_action(Signal::Slow), Some(ManualSignalAction::DecaySlower));
    assert_eq!(manual_signal_action(Signal::Auto), Some(ManualSignalAction::SwitchAutoRotate));
    assert_eq!(manual_signal_action(Signal::Red), Some(ManualSignalAction::SetAllHue(0)));
    assert_eq!(manual_signal_action(Signal::Orange3), Some(ManualSignalAction::SetAllHue(37)));
    assert_eq!(manual_signal_action(Signal::Blue2), Some(ManualSignalAction::SetAllHue(-140)));
    assert_eq!(manual_signal_action(Signal::Pink), Some(ManualSignalAction::SetAllHue(-30)));
    assert_eq!(manual_signal_action(Signal::Jump3), Some(ManualSignalAction::ShuffleColors(20)));
    assert_eq!(manual_signal_action(Signal::Jump7), Some(ManualSignalAction::ShuffleColors(50)));
    assert_eq!(manual_signal_action(Signal::White), None);
    assert_eq!(manual_signal_action(Signal::Power), None);
}

#[test]
fn audio_decay_steps() {
    assert_eq!(audio_decay_faster(1), 0);
    assert_eq!(audio_decay_faster(2), 0);
    assert_eq!(audio_decay_slower(1, 3), 3);
    assert_eq!(audio_decay_slower(3, 3), 4);
}

#[test]
fn double_blob_controller() {
    let mut buf = centered();
    buf[18] = 77;
    buf[2] = 0b1001_0000; // Left, Up
    buf[3] = 0b0000_1000; // R1
    let c = Controller::new(ControllerValues::new(buf));
    assert_eq!(
        blob_controller_actions(&c),
        vec![
            BlobAction::SetTriggerValue(77),
            BlobAction::SetLeftBlobPos(Coordinate(-1, -1)),
            BlobAction::SetRightBlobPos(Coordinate(1, 1)),
            BlobAction::FlashLeft,
            BlobAction::FlashTop,
            BlobAction::FlashDiag2,
        ]
    );
}

#[test]
fn double_blob_palettes() {
    assert_eq!(
        Palette::new_sunglow().get_colors(),
        (Color::new(32, 138, 174), Color::new(253, 202, 64), Color::new(156, 255, 250), Color::new(249, 87, 56))
    );
    assert_eq!(
        Palette::new_screaming().get_colors(),
        (Color::new(255, 0, 102), Color::new(48, 122, 207), Color::new(252, 165, 3), Color::new(128, 255, 114))
    );
    assert_eq!(blob_signal_action(Signal::Quick), Some(BlobSignalAction::Faster));
    assert_eq!(blob_signal_action(Signal::Slow), Some(BlobSignalAction::Slower));
    assert_eq!(blob_signal_action(Signal::Blue), Some(BlobSignalAction::SetPalette(Palette::new_sunglow())));
    assert_eq!(blob_signal_action(Signal::Red), Some(BlobSignalAction::SetPalette(Palette::new_screaming())));
    assert_eq!(blob_signal_action(Signal::Green), None);
}
