//! The decisions of the default (manual) mode: what controller input
//! and remote signals do to the light state.
use vstd::prelude::*;
use crate::ir::signal::Signal;
use crate::light::color::{Color, PinValue};
use crate::light::coord::{Coordinate, Quadrant};
use crate::light::state::{Mode, State, StateAction};
use crate::sixaxis::controller::{Axis, Button, Controller};

verus! {

/// One action where the condition holds, none otherwise.
pub open spec fn when(cond: bool, a: StateAction) -> Seq<StateAction> {
    if cond {
        seq![a]
    } else {
        seq![]
    }
}

/// Two actions where the condition holds, none otherwise.
pub open spec fn when2(cond: bool, a: StateAction, b: StateAction) -> Seq<StateAction> {
    if cond {
        seq![a, b]
    } else {
        seq![]
    }
}

/// The quadrant that the left stick points to, once it is pushed
/// further than three quarters.
pub open spec fn quad_spec(c: Controller) -> Option<Quadrant> {
    if c.left_pos_spec().length_exceeds_spec(3, 4) {
        Some(Quadrant::of(c.left_pos_spec()))
    } else {
        None
    }
}

/// The right stick pushed further than three quarters picks a color by
/// its angle.
pub open spec fn wants_stick_color_spec(c: Controller) -> bool {
    c.right_pos_spec().length_exceeds_spec(3, 4)
}

/// Where a color picked with the stick goes: the diagonals, sides and
/// quadrants that the held buttons and the left stick select.
pub open spec fn color_actions_spec(c: Controller, color: Color) -> Seq<StateAction> {
    let v = c.curr();
    when(v.pressed(Button::L1), StateAction::SetMajorDiag(color))
        + when(v.pressed(Button::R1), StateAction::SetMinorDiag(color))
        + when(v.pressed(Button::Up), StateAction::SetTop(color))
        + when(v.pressed(Button::Down), StateAction::SetBottom(color))
        + when(v.pressed(Button::Left), StateAction::SetLeft(color))
        + when(v.pressed(Button::Right), StateAction::SetRight(color))
        + match quad_spec(c) {
            Some(q) => seq![StateAction::SetQuadrant(q, color)],
            None => seq![],
        }
}

/// With PS held, the d-pad selects the light mode: up manual, down
/// off, left rainbow.
pub open spec fn mode_selection_spec(c: Controller) -> Seq<StateAction> {
    let v = c.curr();
    if v.pressed(Button::Up) {
        seq![StateAction::SetActiveMode(Mode::ManualMode)]
    } else if v.pressed(Button::Down) {
        seq![StateAction::SetActiveMode(Mode::OffMode)]
    } else if v.pressed(Button::Left) {
        seq![StateAction::SetActiveMode(Mode::RainbowMode)]
    } else {
        seq![]
    }
}

/// Without PS, first: the music, pulse and flash switches, the masks
/// that follow the triggers and the left stick, the white flash and the
/// rotations.
pub open spec fn switch_actions_spec(c: Controller) -> Seq<StateAction> {
    let v = c.curr();
    when(c.was_pressed_spec(Button::Start), StateAction::SwitchMusicMode)
        + seq![
        StateAction::SetValueMaskBase(v.axis(Axis::L3)),
        StateAction::SetValueMaskPos(c.left_pos_spec()),
        StateAction::SetInvertFactor(v.axis(Axis::R3)),
    ]
        + when(c.was_pressed_spec(Button::Select), StateAction::SwitchPulseMode)
        + when(c.was_pressed_spec(Button::Square), StateAction::SwitchFlashMode)
        + when(v.pressed(Button::Triangle), StateAction::WhiteFlash)
        + when(c.was_pressed_spec(Button::Cross), StateAction::RotateCw)
        + when(c.was_pressed_spec(Button::Circle), StateAction::RotateCcw)
}

/// Without PS, then: the quadrant flashes that the shoulder buttons
/// and the d-pad trigger.
pub open spec fn flash_actions_spec(c: Controller) -> Seq<StateAction> {
    let v = c.curr();
    when2(v.pressed(Button::L1), StateAction::FlashTopLeft, StateAction::FlashBotRight)
        + when2(v.pressed(Button::R1), StateAction::FlashTopRight, StateAction::FlashBotLeft)
        + when2(v.pressed(Button::Up), StateAction::FlashTopLeft, StateAction::FlashTopRight)
        + when2(v.pressed(Button::Down), StateAction::FlashBotLeft, StateAction::FlashBotRight)
        + when2(v.pressed(Button::Left), StateAction::FlashTopLeft, StateAction::FlashBotLeft)
        + when2(v.pressed(Button::Right), StateAction::FlashTopRight, StateAction::FlashBotRight)
}

/// Without PS, last: in manual mode, the color that the right stick
/// picks.
pub open spec fn stick_color_actions_spec(c: Controller, mode: Mode, stick_color: Option<Color>) -> Seq<StateAction> {
    match (mode, stick_color) {
        (Mode::ManualMode, Some(color)) => color_actions_spec(c, color),
        _ => seq![],
    }
}

/// Without PS: switches, masks, flashes and, in manual mode, color
/// setting.
pub open spec fn regular_actions_spec(c: Controller, mode: Mode, stick_color: Option<Color>) -> Seq<StateAction> {
    switch_actions_spec(c) + flash_actions_spec(c) + stick_color_actions_spec(c, mode, stick_color)
}

/// All that one controller update does to the light state: activity is
/// registered on any input; then either the mode selection (PS held)
/// or the regular controls.
pub open spec fn controller_actions_spec(c: Controller, mode: Mode, stick_color: Option<Color>) -> Seq<StateAction> {
    when(c.has_any_input_spec(), StateAction::RegisterActivity) + if c.curr().pressed(Button::PS) {
        mode_selection_spec(c)
    } else {
        regular_actions_spec(c, mode, stick_color)
    }
}

/// What the standalone state updater does on a controller update: it
/// registers activity on every update, then acts like the default mode.
pub open spec fn update_state_actions_spec(c: Controller, mode: Mode, stick_color: Option<Color>) -> Seq<StateAction> {
    seq![StateAction::RegisterActivity] + if c.curr().pressed(Button::PS) {
        mode_selection_spec(c)
    } else {
        regular_actions_spec(c, mode, stick_color)
    }
}

fn push_when(v: &mut Vec<StateAction>, cond: bool, a: StateAction)
    ensures
        final(v)@ == old(v)@ + when(cond, a),
{
    if cond {
        v.push(a);
    }
    assert(final(v)@ =~= old(v)@ + when(cond, a));
}

fn push_when2(v: &mut Vec<StateAction>, cond: bool, a: StateAction, b: StateAction)
    ensures
        final(v)@ == old(v)@ + when2(cond, a, b),
{
    if cond {
        v.push(a);
        v.push(b);
    }
    assert(final(v)@ =~= old(v)@ + when2(cond, a, b));
}

/// A fresh vector with the actions of `when`.
fn start_when(cond: bool, a: StateAction) -> (v: Vec<StateAction>)
    ensures
        v@ == when(cond, a),
{
    let mut v: Vec<StateAction> = Vec::new();
    if cond {
        v.push(a);
    }
    assert(v@ =~= when(cond, a));
    v
}

/// Helper function that returns a quadrant (top left, bottom right,
/// ...) based on the position of the left joystick.
pub fn get_quad_from_controller(controller: &Controller) -> (q: Option<Quadrant>)
    ensures
        q == quad_spec(*controller),
{
    let pos = controller.left_pos();
    if pos.length_exceeds(3, 4) {
        Some(Quadrant::from_coordinate(&pos))
    } else {
        None
    }
}

/// Whether the right stick is pushed far enough to pick a color by its
/// angle.
pub fn wants_stick_color(controller: &Controller) -> (r: bool)
    ensures
        r == wants_stick_color_spec(*controller),
{
    controller.right_pos().length_exceeds(3, 4)
}

fn color_actions(controller: &Controller, color: Color) -> (v: Vec<StateAction>)
    ensures
        v@ == color_actions_spec(*controller, color),
{
    let mut v = start_when(controller.is_pressed(Button::L1), StateAction::SetMajorDiag(color));
    push_when(&mut v, controller.is_pressed(Button::R1), StateAction::SetMinorDiag(color));
    push_when(&mut v, controller.is_pressed(Button::Up), StateAction::SetTop(color));
    push_when(&mut v, controller.is_pressed(Button::Down), StateAction::SetBottom(color));
    push_when(&mut v, controller.is_pressed(Button::Left), StateAction::SetLeft(color));
    push_when(&mut v, controller.is_pressed(Button::Right), StateAction::SetRight(color));
    let ghost before = v@;
    match get_quad_from_controller(controller) {
        Some(quad) => v.push(StateAction::SetQuadrant(quad, color)),
        None => {},
    }
    assert(v@ =~= before + match quad_spec(*controller) {
        Some(q) => seq![StateAction::SetQuadrant(q, color)],
        None => seq![],
    });
    v
}

fn mode_selection(controller: &Controller) -> (v: Vec<StateAction>)
    ensures
        v@ == mode_selection_spec(*controller),
{
    let mut v: Vec<StateAction> = Vec::new();
    if controller.is_pressed(Button::Up) {
        v.push(StateAction::SetActiveMode(Mode::ManualMode));
    } else if controller.is_pressed(Button::Down) {
        v.push(StateAction::SetActiveMode(Mode::OffMode));
    } else if controller.is_pressed(Button::Left) {
        v.push(StateAction::SetActiveMode(Mode::RainbowMode));
    }
    assert(v@ =~= mode_selection_spec(*controller));
    v
}

fn switch_actions(controller: &Controller) -> (v: Vec<StateAction>)
    ensures
        v@ == switch_actions_spec(*controller),
{
    // activate/deactivate music mode with the start button
    let mut v = start_when(controller.was_pressed(Button::Start), StateAction::SwitchMusicMode);
    // overall brightness mask
    let mut masks = vec![
        StateAction::SetValueMaskBase(controller.left_trigger()),
        StateAction::SetValueMaskPos(controller.left_pos()),
        StateAction::SetInvertFactor(controller.right_trigger()),
    ];
    v.append(&mut masks);
    // pulse mode
    push_when(&mut v, controller.was_pressed(Button::Select), StateAction::SwitchPulseMode);
    push_when(&mut v, controller.was_pressed(Button::Square), StateAction::SwitchFlashMode);
    push_when(&mut v, controller.is_pressed(Button::Triangle), StateAction::WhiteFlash);
    // rotation
    push_when(&mut v, controller.was_pressed(Button::Cross), StateAction::RotateCw);
    push_when(&mut v, controller.was_pressed(Button::Circle), StateAction::RotateCcw);
    v
}

fn flash_actions(controller: &Controller) -> (v: Vec<StateAction>)
    ensures
        v@ == flash_actions_spec(*controller),
{
    let mut v: Vec<StateAction> = Vec::new();
    push_when2(&mut v, controller.is_pressed(Button::L1), StateAction::FlashTopLeft, StateAction::FlashBotRight);
    assert(v@ =~= when2(controller.curr().pressed(Button::L1), StateAction::FlashTopLeft, StateAction::FlashBotRight));
    push_when2(&mut v, controller.is_pressed(Button::R1), StateAction::FlashTopRight, StateAction::FlashBotLeft);
    push_when2(&mut v, controller.is_pressed(Button::Up), StateAction::FlashTopLeft, StateAction::FlashTopRight);
    push_when2(&mut v, controller.is_pressed(Button::Down), StateAction::FlashBotLeft, StateAction::FlashBotRight);
    push_when2(&mut v, controller.is_pressed(Button::Left), StateAction::FlashTopLeft, StateAction::FlashBotLeft);
    push_when2(&mut v, controller.is_pressed(Button::Right), StateAction::FlashTopRight, StateAction::FlashBotRight);
    v
}

fn regular_actions(controller: &Controller, active_mode: Mode, stick_color: Option<Color>) -> (v: Vec<StateAction>)
    ensures
        v@ == regular_actions_spec(*controller, active_mode, stick_color),
{
    let mut v = switch_actions(controller);
    let mut flashes = flash_actions(controller);
    v.append(&mut flashes);
    // decide if a color should be set
    let mut colors: Vec<StateAction> = match active_mode {
        Mode::ManualMode => match stick_color {
            Some(color) => color_actions(controller, color),
            None => Vec::new(),
        },
        _ => Vec::new(),
    };
    assert(colors@ =~= stick_color_actions_spec(*controller, active_mode, stick_color));
    v.append(&mut colors);
    v
}

/// The operations that one controller update applies to the light
/// state, in order.  `active_mode` is the light mode at the time of the
/// update; `stick_color` is the color that the right stick picks (see
/// `wants_stick_color`), computed by the caller from its angle.
pub fn controller_actions(controller: &Controller, active_mode: Mode, stick_color: Option<Color>) -> (v: Vec<StateAction>)
    ensures
        v@ == controller_actions_spec(*controller, active_mode, stick_color),
{
    // register activity
    let mut v = start_when(controller.has_any_input(), StateAction::RegisterActivity);
    let mut rest = if controller.is_pressed(Button::PS) {
        // select mode
        mode_selection(controller)
    } else {
        regular_actions(controller, active_mode, stick_color)
    };
    v.append(&mut rest);
    v
}

/// The operations that the standalone state updater applies to the
/// light state on one controller update, in order: activity is
/// registered on every update, whatever the input.
pub fn update_state_actions(controller: &Controller, active_mode: Mode, stick_color: Option<Color>) -> (v: Vec<StateAction>)
    ensures
        v@ == update_state_actions_spec(*controller, active_mode, stick_color),
{
    let mut v = vec![StateAction::RegisterActivity];
    let mut rest = if controller.is_pressed(Button::PS) {
        mode_selection(controller)
    } else {
        regular_actions(controller, active_mode, stick_color)
    };
    v.append(&mut rest);
    v
}

/// The default mode registers activity only where there is input;
/// otherwise it acts exactly like the standalone state updater.
pub proof fn lemma_default_mode_and_updater(c: Controller, mode: Mode, stick_color: Option<Color>)
    ensures
        c.has_any_input_spec() ==> controller_actions_spec(c, mode, stick_color) == update_state_actions_spec(c, mode, stick_color),
        !c.has_any_input_spec() ==> update_state_actions_spec(c, mode, stick_color) == seq![StateAction::RegisterActivity]
            + controller_actions_spec(c, mode, stick_color),
{
    let rest = if c.curr().pressed(Button::PS) {
        mode_selection_spec(c)
    } else {
        regular_actions_spec(c, mode, stick_color)
    };
    if !c.has_any_input_spec() {
        assert(Seq::<StateAction>::empty() + rest =~= rest);
    }
}

/// No operation of the sequence changes the light mode.
#[verifier::opaque]
pub open spec fn keeps_mode(s: Seq<StateAction>) -> bool {
    forall|i: int| 0 <= i < s.len() ==> !(#[trigger] s[i] is SetActiveMode)
}

proof fn lemma_keeps_mode_concat(a: Seq<StateAction>, b: Seq<StateAction>)
    requires
        keeps_mode(a),
        keeps_mode(b),
    ensures
        keeps_mode(a + b),
{
    reveal(keeps_mode);
    assert forall|i: int| 0 <= i < (a + b).len() implies !(#[trigger] (a + b)[i] is SetActiveMode) by {
        if i < a.len() {
            assert((a + b)[i] == a[i]);
        } else {
            assert((a + b)[i] == b[i - a.len()]);
        }
    }
}

proof fn lemma_when_keeps_mode(cond: bool, a: StateAction, b: StateAction)
    requires
        !(a is SetActiveMode),
        !(b is SetActiveMode),
    ensures
        keeps_mode(when(cond, a)),
        keeps_mode(when2(cond, a, b)),
        keeps_mode(seq![a, b]),
        keeps_mode(Seq::<StateAction>::empty()),
{
    reveal(keeps_mode);
}

proof fn lemma_color_actions_keep_mode(c: Controller, color: Color)
    ensures
        keeps_mode(color_actions_spec(c, color)),
{
    let v = c.curr();
    let s1 = when(v.pressed(Button::L1), StateAction::SetMajorDiag(color));
    let s2 = when(v.pressed(Button::R1), StateAction::SetMinorDiag(color));
    let s3 = when(v.pressed(Button::Up), StateAction::SetTop(color));
    let s4 = when(v.pressed(Button::Down), StateAction::SetBottom(color));
    let s5 = when(v.pressed(Button::Left), StateAction::SetLeft(color));
    let s6 = when(v.pressed(Button::Right), StateAction::SetRight(color));
    let s7: Seq<StateAction> = match quad_spec(c) {
        Some(q) => seq![StateAction::SetQuadrant(q, color)],
        None => seq![],
    };
    let q = StateAction::SetTop(color);
    lemma_when_keeps_mode(v.pressed(Button::L1), StateAction::SetMajorDiag(color), q);
    lemma_when_keeps_mode(v.pressed(Button::R1), StateAction::SetMinorDiag(color), q);
    lemma_when_keeps_mode(v.pressed(Button::Up), StateAction::SetTop(color), q);
    lemma_when_keeps_mode(v.pressed(Button::Down), StateAction::SetBottom(color), q);
    lemma_when_keeps_mode(v.pressed(Button::Left), StateAction::SetLeft(color), q);
    lemma_when_keeps_mode(v.pressed(Button::Right), StateAction::SetRight(color), q);
    if let Some(quad) = quad_spec(c) {
        lemma_when_keeps_mode(true, StateAction::SetQuadrant(quad, color), q);
        assert(s7 == when(true, StateAction::SetQuadrant(quad, color)));
    }
    let a2 = s1 + s2;
    lemma_keeps_mode_concat(s1, s2);
    let a3 = a2 + s3;
    lemma_keeps_mode_concat(a2, s3);
    let a4 = a3 + s4;
    lemma_keeps_mode_concat(a3, s4);
    let a5 = a4 + s5;
    lemma_keeps_mode_concat(a4, s5);
    let a6 = a5 + s6;
    lemma_keeps_mode_concat(a5, s6);
    lemma_keeps_mode_concat(a6, s7);
}

proof fn lemma_switch_actions_keep_mode(c: Controller)
    ensures
        keeps_mode(switch_actions_spec(c)),
{
    let v = c.curr();
    let m1 = StateAction::SetValueMaskBase(v.axis(Axis::L3));
    let m2 = StateAction::SetValueMaskPos(c.left_pos_spec());
    let m3 = StateAction::SetInvertFactor(v.axis(Axis::R3));
    let w = StateAction::WhiteFlash;
    let s1 = when(c.was_pressed_spec(Button::Start), StateAction::SwitchMusicMode);
    let s2 = seq![m1, m2, m3];
    let s3 = when(c.was_pressed_spec(Button::Select), StateAction::SwitchPulseMode);
    let s4 = when(c.was_pressed_spec(Button::Square), StateAction::SwitchFlashMode);
    let s5 = when(v.pressed(Button::Triangle), StateAction::WhiteFlash);
    let s6 = when(c.was_pressed_spec(Button::Cross), StateAction::RotateCw);
    let s7 = when(c.was_pressed_spec(Button::Circle), StateAction::RotateCcw);
    lemma_when_keeps_mode(c.was_pressed_spec(Button::Start), StateAction::SwitchMusicMode, w);
    lemma_when_keeps_mode(true, m1, m2);
    lemma_when_keeps_mode(true, m3, w);
    lemma_keeps_mode_concat(seq![m1, m2], seq![m3]);
    assert(seq![m1, m2] + seq![m3] =~= s2);
    lemma_when_keeps_mode(c.was_pressed_spec(Button::Select), StateAction::SwitchPulseMode, w);
    lemma_when_keeps_mode(c.was_pressed_spec(Button::Square), StateAction::SwitchFlashMode, w);
    lemma_when_keeps_mode(v.pressed(Button::Triangle), w, w);
    lemma_when_keeps_mode(c.was_pressed_spec(Button::Cross), StateAction::RotateCw, w);
    lemma_when_keeps_mode(c.was_pressed_spec(Button::Circle), StateAction::RotateCcw, w);
    lemma_keeps_mode_concat(s1, s2);
    lemma_keeps_mode_concat(s1 + s2, s3);
    lemma_keeps_mode_concat(s1 + s2 + s3, s4);
    lemma_keeps_mode_concat(s1 + s2 + s3 + s4, s5);
    lemma_keeps_mode_concat(s1 + s2 + s3 + s4 + s5, s6);
    lemma_keeps_mode_concat(s1 + s2 + s3 + s4 + s5 + s6, s7);
}

proof fn lemma_flash_actions_keep_mode(c: Controller)
    ensures
        keeps_mode(flash_actions_spec(c)),
{
    let v = c.curr();
    let s1 = when2(v.pressed(Button::L1), StateAction::FlashTopLeft, StateAction::FlashBotRight);
    let s2 = when2(v.pressed(Button::R1), StateAction::FlashTopRight, StateAction::FlashBotLeft);
    let s3 = when2(v.pressed(Button::Up), StateAction::FlashTopLeft, StateAction::FlashTopRight);
    let s4 = when2(v.pressed(Button::Down), StateAction::FlashBotLeft, StateAction::FlashBotRight);
    let s5 = when2(v.pressed(Button::Left), StateAction::FlashTopLeft, StateAction::FlashBotLeft);
    let s6 = when2(v.pressed(Button::Right), StateAction::FlashTopRight, StateAction::FlashBotRight);
    lemma_when_keeps_mode(v.pressed(Button::L1), StateAction::FlashTopLeft, StateAction::FlashBotRight);
    lemma_when_keeps_mode(v.pressed(Button::R1), StateAction::FlashTopRight, StateAction::FlashBotLeft);
    lemma_when_keeps_mode(v.pressed(Button::Up), StateAction::FlashTopLeft, StateAction::FlashTopRight);
    lemma_when_keeps_mode(v.pressed(Button::Down), StateAction::FlashBotLeft, StateAction::FlashBotRight);
    lemma_when_keeps_mode(v.pressed(Button::Left), StateAction::FlashTopLeft, StateAction::FlashBotLeft);
    lemma_when_keeps_mode(v.pressed(Button::Right), StateAction::FlashTopRight, StateAction::FlashBotRight);
    lemma_keeps_mode_concat(s1, s2);
    lemma_keeps_mode_concat(s1 + s2, s3);
    lemma_keeps_mode_concat(s1 + s2 + s3, s4);
    lemma_keeps_mode_concat(s1 + s2 + s3 + s4, s5);
    lemma_keeps_mode_concat(s1 + s2 + s3 + s4 + s5, s6);
}

proof fn lemma_regular_actions_keep_mode(c: Controller, mode: Mode, stick_color: Option<Color>)
    ensures
        keeps_mode(regular_actions_spec(c, mode, stick_color)),
{
    lemma_switch_actions_keep_mode(c);
    lemma_flash_actions_keep_mode(c);
    if let (Mode::ManualMode, Some(color)) = (mode, stick_color) {
        lemma_color_actions_keep_mode(c, color);
    } else {
        lemma_when_keeps_mode(false, StateAction::WhiteFlash, StateAction::WhiteFlash);
        assert(stick_color_actions_spec(c, mode, stick_color) =~= Seq::<StateAction>::empty());
    }
    lemma_keeps_mode_concat(switch_actions_spec(c), flash_actions_spec(c));
    lemma_keeps_mode_concat(switch_actions_spec(c) + flash_actions_spec(c), stick_color_actions_spec(c, mode, stick_color));
}

/// The light mode changes only while PS is held: then the update does
/// nothing but register activity and select the mode; without PS no
/// operation of the update changes the light mode.
pub proof fn lemma_ps_selects_mode_only(c: Controller, mode: Mode, stick_color: Option<Color>)
    ensures
        c.curr().pressed(Button::PS) ==> controller_actions_spec(c, mode, stick_color)
            == when(c.has_any_input_spec(), StateAction::RegisterActivity) + mode_selection_spec(c),
        c.curr().pressed(Button::PS) ==> mode_selection_spec(c).len() <= 1,
        !c.curr().pressed(Button::PS) ==> keeps_mode(controller_actions_spec(c, mode, stick_color)),
{
    if !c.curr().pressed(Button::PS) {
        lemma_regular_actions_keep_mode(c, mode, stick_color);
        lemma_when_keeps_mode(c.has_any_input_spec(), StateAction::RegisterActivity, StateAction::WhiteFlash);
        lemma_keeps_mode_concat(when(c.has_any_input_spec(), StateAction::RegisterActivity), regular_actions_spec(c, mode, stick_color));
    }
}

/// With PS held, the d-pad picks the light mode, Up before Down before
/// Left: Up shows the manual colors, Down switches the lights off and
/// Left shows the rainbow.  Pressing PS counts as input, so the update
/// registers activity first, and it does nothing else.
pub proof fn lemma_ps_with_direction(c: Controller, mode: Mode, stick_color: Option<Color>)
    requires
        c.curr().pressed(Button::PS),
    ensures
        c.curr().pressed(Button::Up) ==> controller_actions_spec(c, mode, stick_color)
            == seq![StateAction::RegisterActivity, StateAction::SetActiveMode(Mode::ManualMode)],
        !c.curr().pressed(Button::Up) && c.curr().pressed(Button::Down) ==> controller_actions_spec(c, mode, stick_color)
            == seq![StateAction::RegisterActivity, StateAction::SetActiveMode(Mode::OffMode)],
        !c.curr().pressed(Button::Up) && !c.curr().pressed(Button::Down) && c.curr().pressed(Button::Left)
            ==> controller_actions_spec(c, mode, stick_color)
            == seq![StateAction::RegisterActivity, StateAction::SetActiveMode(Mode::RainbowMode)],
        !c.curr().pressed(Button::Up) && !c.curr().pressed(Button::Down) && !c.curr().pressed(Button::Left)
            ==> controller_actions_spec(c, mode, stick_color) == seq![StateAction::RegisterActivity],
{
    assert(c.has_any_input_spec()) by {
        assert(c.curr().pressed(Button::PS));
    }
    let acts = controller_actions_spec(c, mode, stick_color);
    assert(acts =~= seq![StateAction::RegisterActivity] + mode_selection_spec(c));
}

/// PS and Down together switch the lights off: whatever the light state
/// was, after all operations of such an update it is in the off mode,
/// at the time of the update it was active, and the colors and masks
/// are untouched.
pub proof fn lemma_ps_down_switches_off(
    c: Controller,
    mode: Mode,
    stick_color: Option<Color>,
    s: State,
    after: State,
    now: u64,
)
    requires
        c.curr().pressed(Button::PS),
        c.curr().pressed(Button::Down),
        !c.curr().pressed(Button::Up),
        s.applied_all(controller_actions_spec(c, mode, stick_color), now, &after),
    ensures
        after.mode() == Mode::OffMode,
        after.manual() == s.manual(),
        after.tracker().last_active() == now,
        after.solid().active() == s.solid().active(),
        after.solid().inner().val() == s.solid().inner().val(),
        after.music().active() == s.music().active(),
        after.music().inner() == s.music().inner(),
        after.invert_factor() == s.invert_factor(),
{
    lemma_ps_with_direction(c, mode, stick_color);
    let acts = controller_actions_spec(c, mode, stick_color);
    let states = choose|states: Seq<State>| #[trigger] s.runs_through(acts, now, states) && states.last() == after;
    assert(states[0].applied(acts[0], now, &states[1]));
    assert(states[1].applied(acts[1], now, &states[2]));
}

/// What a remote signal does in the default mode.
#[derive(Clone, Copy, Debug, PartialEq, Eq, Structural)]
pub enum ManualSignalAction {
    SwitchPulseMode,
    DecayFaster,
    DecaySlower,
    SwitchAutoRotate,
    /// Set all quadrants to the fully saturated, fully bright color of
    /// this hue (in degrees).
    SetAllHue(i16),
    /// Shuffle the colors with this strength.
    ShuffleColors(u8),
}

pub open spec fn manual_signal_action_spec(signal: Signal) -> Option<ManualSignalAction> {
    match signal {
        Signal::PlayPause => Some(ManualSignalAction::SwitchPulseMode),
        Signal::Quick => Some(ManualSignalAction::DecayFaster),
        Signal::Slow => Some(ManualSignalAction::DecaySlower),
        Signal::Auto => Some(ManualSignalAction::SwitchAutoRotate),
        Signal::Red => Some(ManualSignalAction::SetAllHue(0i16)),
        Signal::Orange1 => Some(ManualSignalAction::SetAllHue(12i16)),
        Signal::Orange2 => Some(ManualSignalAction::SetAllHue(25i16)),
        Signal::Orange3 => Some(ManualSignalAction::SetAllHue(37i16)),
        Signal::Yellow => Some(ManualSignalAction::SetAllHue(50i16)),
        Signal::Green => Some(ManualSignalAction::SetAllHue(120i16)),
        Signal::GrassGreen => Some(ManualSignalAction::SetAllHue(115i16)),
        Signal::Turquise => Some(ManualSignalAction::SetAllHue(132i16)),
        Signal::Petrol => Some(ManualSignalAction::SetAllHue(150i16)),
        Signal::DarkPetrol => Some(ManualSignalAction::SetAllHue(160i16)),
        Signal::Blue => Some(ManualSignalAction::SetAllHue(-120i16)),
        Signal::Blue2 => Some(ManualSignalAction::SetAllHue(-140i16)),
        Signal::Violet => Some(ManualSignalAction::SetAllHue(-90i16)),
        Signal::LightViolet => Some(ManualSignalAction::SetAllHue(-60i16)),
        Signal::Pink => Some(ManualSignalAction::SetAllHue(-30i16)),
        Signal::Jump3 => Some(ManualSignalAction::ShuffleColors(20u8)),
        Signal::Jump7 => Some(ManualSignalAction::ShuffleColors(50u8)),
        _ => None,
    }
}

/// The hue, in degrees on the color wheel from 0 up to 360, that a
/// remote button sets all quadrants to, if it is a color button.
pub open spec fn button_hue(signal: Signal) -> Option<int> {
    match manual_signal_action_spec(signal) {
        Some(ManualSignalAction::SetAllHue(h)) => Some((h as int) % 360),
        _ => None,
    }
}

/// Each color button of the remote sets the hue of the color printed
/// on it: the red, green and blue buttons give the hues of the three
/// primaries (0, 120 and 240 degrees), the oranges and the yellow lie
/// between red and green, the greens, turquoise and petrols between
/// green and blue, the second blue on the blue side of cyan, and the
/// violets and the pink between blue and red.  No two color buttons
/// set the same hue, and the color buttons are exactly the ones that
/// set a hue.
pub proof fn lemma_color_buttons(signal: Signal, other: Signal)
    ensures
        button_hue(Signal::Red) == Some(0int),
        button_hue(Signal::Green) == Some(120int),
        button_hue(Signal::Blue) == Some(240int),
        signal == Signal::Orange1 || signal == Signal::Orange2 || signal == Signal::Orange3
            ==> 0 < button_hue(signal).unwrap() < 45,
        signal == Signal::Yellow ==> 45 <= button_hue(signal).unwrap() <= 65,
        signal == Signal::GrassGreen || signal == Signal::Turquise || signal == Signal::Petrol
            || signal == Signal::DarkPetrol ==> 90 <= button_hue(signal).unwrap() <= 180,
        signal == Signal::Blue2 ==> 180 < button_hue(signal).unwrap() < 270,
        signal == Signal::Violet || signal == Signal::LightViolet || signal == Signal::Pink
            ==> 240 < button_hue(signal).unwrap() < 360,
        button_hue(signal) is Some && button_hue(other) is Some && signal != other ==> button_hue(signal)
            != button_hue(other),
        button_hue(signal) is Some <==> (signal == Signal::Red || signal == Signal::Orange1 || signal == Signal::Orange2
            || signal == Signal::Orange3 || signal == Signal::Yellow || signal == Signal::Green
            || signal == Signal::GrassGreen || signal == Signal::Turquise || signal == Signal::Petrol
            || signal == Signal::DarkPetrol || signal == Signal::Blue || signal == Signal::Blue2
            || signal == Signal::Violet || signal == Signal::LightViolet || signal == Signal::Pink),
{
}

/// Decides what a remote signal does in the default mode: play/pause
/// switches the pulse mode, quick and slow change the audio decay,
/// auto switches automatic rotation, the color buttons set all
/// quadrants to one hue and the jump buttons shuffle the colors.
pub fn manual_signal_action(signal: Signal) -> (a: Option<ManualSignalAction>)
    ensures
        a == manual_signal_action_spec(signal),
{
    match signal {
        Signal::PlayPause => Some(ManualSignalAction::SwitchPulseMode),
        Signal::Quick => Some(ManualSignalAction::DecayFaster),
        Signal::Slow => Some(ManualSignalAction::DecaySlower),
        Signal::Auto => Some(ManualSignalAction::SwitchAutoRotate),
        Signal::Red => Some(ManualSignalAction::SetAllHue(0)),
        Signal::Orange1 => Some(ManualSignalAction::SetAllHue(12)),
        Signal::Orange2 => Some(ManualSignalAction::SetAllHue(25)),
        Signal::Orange3 => Some(ManualSignalAction::SetAllHue(37)),
        Signal::Yellow => Some(ManualSignalAction::SetAllHue(50)),
        Signal::Green => Some(ManualSignalAction::SetAllHue(120)),
        Signal::GrassGreen => Some(ManualSignalAction::SetAllHue(115)),
        Signal::Turquise => Some(ManualSignalAction::SetAllHue(132)),
        Signal::Petrol => Some(ManualSignalAction::SetAllHue(150)),
        Signal::DarkPetrol => Some(ManualSignalAction::SetAllHue(160)),
        Signal::Blue => Some(ManualSignalAction::SetAllHue(-120)),
        Signal::Blue2 => Some(ManualSignalAction::SetAllHue(-140)),
        Signal::Violet => Some(ManualSignalAction::SetAllHue(-90)),
        Signal::LightViolet => Some(ManualSignalAction::SetAllHue(-60)),
        Signal::Pink => Some(ManualSignalAction::SetAllHue(-30)),
        Signal::Jump3 => Some(ManualSignalAction::ShuffleColors(20)),
        Signal::Jump7 => Some(ManualSignalAction::ShuffleColors(50)),
        _ => None,
    }
}

/// The index of the intensity that drives the music mask after "decay
/// faster": one step down, then capped with `min(0)`, which always
/// gives 0.  At index 0 the step down underflows, which is not
/// accepted.
pub fn audio_decay_faster(speed_no: usize) -> (r: usize)
    requires
        speed_no >= 1,
    ensures
        r == 0,
{
    let s = speed_no - 1;
    if s <= 0 {
        s
    } else {
        0
    }
}

/// The index of the intensity that drives the music mask after "decay
/// slower": one step up, then raised with `max(n_speeds)`, which gives
/// at least `n_speeds`.
pub fn audio_decay_slower(speed_no: usize, n_speeds: usize) -> (r: usize)
    requires
        speed_no < usize::MAX,
    ensures
        r == if speed_no + 1 > n_speeds {
            speed_no + 1
        } else {
            n_speeds as int
        },
{
    let s = speed_no + 1;
    if s > n_speeds {
        s
    } else {
        n_speeds
    }
}

} // verus!
