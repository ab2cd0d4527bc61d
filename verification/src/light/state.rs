//! The light state of the default mode: which color source is active
//! and the masks over it.  The masks whose values follow the clock (the
//! white flash, the quadrant flashes, the random pulse) and the one
//! that follows a stick position are sampled by the caller at the time
//! of drawing and handed in as `MaskSamples`.
use vstd::prelude::*;
use crate::inactivity::InactivityTracker;
use crate::light::cmap::{ColorMap, ManualMode};
use crate::light::color::{lemma_mix_channel_between, mix_channel, mix_spec, Color, PinValue, PIN_MAX};
use crate::light::coord::{Coordinate, Quadrant};
use crate::light::mask::{ActivatableMask, Mask, SolidMask};

verus! {

/// The overall mode.  There are a couple of high level modes.  Should
/// the lights be off?  Should they show a constant setting?  Should
/// they cycle through the rainbow?
#[derive(Clone, Copy, Debug, PartialEq, Eq, Structural)]
pub enum Mode {
    OffMode,
    ManualMode,
    RainbowMode,
}

/// An operation on the light state.  The default mode decides a
/// sequence of them for each controller update.
#[derive(Clone, Copy, Debug, PartialEq, Eq, Structural)]
pub enum StateAction {
    RegisterActivity,
    SetActiveMode(Mode),
    SwitchMusicMode,
    SetValueMaskBase(PinValue),
    SetValueMaskPos(Coordinate),
    SetInvertFactor(PinValue),
    SwitchPulseMode,
    SwitchFlashMode,
    WhiteFlash,
    RotateCw,
    RotateCcw,
    FlashTopLeft,
    FlashTopRight,
    FlashBotLeft,
    FlashBotRight,
    SetMajorDiag(Color),
    SetMinorDiag(Color),
    SetTop(Color),
    SetBottom(Color),
    SetLeft(Color),
    SetRight(Color),
    SetQuadrant(Quadrant, Color),
}

/// What is left to do after an operation on the light state: the
/// masks that follow the clock are restarted by whoever keeps the clock.
#[derive(Clone, Copy, Debug, PartialEq, Eq, Structural)]
pub enum ClockAction {
    /// Restart the white flash layer and the flash of all quadrants.
    WhiteFlash,
    /// Restart the flash of one quadrant.
    Flash(Quadrant),
}

/// The clock driven part of an operation, if it has one.
pub open spec fn clock_action_of(action: StateAction) -> Option<ClockAction> {
    match action {
        StateAction::WhiteFlash => Some(ClockAction::WhiteFlash),
        StateAction::FlashTopLeft => Some(ClockAction::Flash(Quadrant::TL)),
        StateAction::FlashTopRight => Some(ClockAction::Flash(Quadrant::TR)),
        StateAction::FlashBotLeft => Some(ClockAction::Flash(Quadrant::BL)),
        StateAction::FlashBotRight => Some(ClockAction::Flash(Quadrant::BR)),
        _ => None,
    }
}

/// The clock driven parts of a sequence of operations, in order.
pub open spec fn clock_actions_of(actions: Seq<StateAction>) -> Seq<ClockAction>
    decreases actions.len(),
{
    if actions.len() == 0 {
        seq![]
    } else {
        clock_actions_of(actions.drop_last()) + match clock_action_of(actions.last()) {
            Some(c) => seq![c],
            None => seq![],
        }
    }
}

/// A manual color map with one quadrant set to a color.
pub open spec fn with_quadrant(m: ManualMode, quad: Quadrant, c: Color) -> ManualMode {
    match quad {
        Quadrant::TL => ManualMode { tl_color: c, ..m },
        Quadrant::TR => ManualMode { tr_color: c, ..m },
        Quadrant::BL => ManualMode { bl_color: c, ..m },
        Quadrant::BR => ManualMode { br_color: c, ..m },
    }
}

/// The manual colors after an operation.
pub open spec fn manual_after(m: ManualMode, action: StateAction) -> ManualMode {
    match action {
        StateAction::RotateCw => m.rotated_cw(),
        StateAction::RotateCcw => m.rotated_ccw(),
        StateAction::SetMajorDiag(c) => ManualMode { tl_color: c, br_color: c, ..m },
        StateAction::SetMinorDiag(c) => ManualMode { tr_color: c, bl_color: c, ..m },
        StateAction::SetTop(c) => ManualMode { tl_color: c, tr_color: c, ..m },
        StateAction::SetBottom(c) => ManualMode { bl_color: c, br_color: c, ..m },
        StateAction::SetLeft(c) => ManualMode { tl_color: c, bl_color: c, ..m },
        StateAction::SetRight(c) => ManualMode { tr_color: c, br_color: c, ..m },
        StateAction::SetQuadrant(q, c) => with_quadrant(m, q, c),
        _ => m,
    }
}

/// The values of the clock driven masks and of the position mask at
/// one position and one point in time, and the current rainbow color.
#[derive(Clone, Copy, Debug, PartialEq, Eq, Structural)]
pub struct MaskSamples {
    /// The white flash layer.
    pub white: PinValue,
    /// The mask around the stick position.
    pub pos: PinValue,
    /// The quadrant flashes.
    pub flash: PinValue,
    /// The random pulse.
    pub pulse: PinValue,
    /// The color of the rainbow source.
    pub rainbow: Color,
}

/// A color darkened by a mask value: black at 0, the color at 1.
pub open spec fn masked(color: Color, v: PinValue) -> Color {
    mix_spec(Color { red: 0, green: 0, blue: 0 }, color, v)
}

/// The product of two mask values.
pub open spec fn times(a: PinValue, b: PinValue) -> PinValue {
    (a * b / (PIN_MAX as int)) as PinValue
}

pub struct State {
    // color source
    manual_color: ManualMode,
    active_mode: Mode,
    // masks
    /// overall mask
    solid_mask: ActivatableMask<SolidMask>,
    /// whether the position mask is applied
    pos_mask_active: bool,
    /// the position of the position mask
    value_mask_pos: Coordinate,
    /// whether the flash mask is applied
    flash_mask_active: bool,
    /// The music masks gets brightness from the music
    pub music_mask: ActivatableMask<SolidMask>,
    /// whether the pulse mask is applied
    pulse_mask_active: bool,
    /// Mask inverting
    invert: PinValue,
    inactivity: InactivityTracker,
}

impl State {
    pub closed spec fn manual(&self) -> ManualMode {
        self.manual_color
    }

    pub closed spec fn mode(&self) -> Mode {
        self.active_mode
    }

    pub closed spec fn solid(&self) -> ActivatableMask<SolidMask> {
        self.solid_mask
    }

    pub closed spec fn music(&self) -> ActivatableMask<SolidMask> {
        self.music_mask
    }

    pub closed spec fn pos_active(&self) -> bool {
        self.pos_mask_active
    }

    pub closed spec fn mask_pos(&self) -> Coordinate {
        self.value_mask_pos
    }

    pub closed spec fn flash_active(&self) -> bool {
        self.flash_mask_active
    }

    pub closed spec fn pulse_active(&self) -> bool {
        self.pulse_mask_active
    }

    pub closed spec fn invert_factor(&self) -> PinValue {
        self.invert
    }

    pub closed spec fn tracker(&self) -> InactivityTracker {
        self.inactivity
    }

    /// All that the state holds but the manual colors and the active
    /// mode stays as in `other`.
    pub open spec fn same_masks(&self, other: &State) -> bool {
        &&& self.solid() == other.solid()
        &&& self.music() == other.music()
        &&& self.pos_active() == other.pos_active()
        &&& self.mask_pos() == other.mask_pos()
        &&& self.flash_active() == other.flash_active()
        &&& self.pulse_active() == other.pulse_active()
        &&& self.invert_factor() == other.invert_factor()
        &&& self.tracker() == other.tracker()
    }

    /// `after` is this state after `action`, applied at time `now`: the
    /// operation changes what it names and nothing else.
    pub open spec fn applied(&self, action: StateAction, now: u64, after: &State) -> bool {
        let flash_switch = action is SwitchFlashMode;
        &&& after.manual() == manual_after(self.manual(), action)
        &&& after.mode() == (match action {
            StateAction::SetActiveMode(m) => m,
            _ => self.mode(),
        })
        &&& after.solid().active() == (self.solid().active() != flash_switch)
        &&& after.solid().inner().val() == (match action {
            StateAction::SetValueMaskBase(v) => v,
            _ => self.solid().inner().val(),
        })
        &&& after.music().active() == (self.music().active() != (action is SwitchMusicMode))
        &&& after.music().inner() == self.music().inner()
        &&& after.pos_active() == (self.pos_active() != flash_switch)
        &&& after.mask_pos() == (match action {
            StateAction::SetValueMaskPos(p) => p,
            _ => self.mask_pos(),
        })
        &&& after.flash_active() == (self.flash_active() != flash_switch)
        &&& after.pulse_active() == (self.pulse_active() != (action is SwitchPulseMode))
        &&& after.invert_factor() == (match action {
            StateAction::SetInvertFactor(v) => v,
            _ => self.invert_factor(),
        })
        &&& after.tracker().last_active() == (match action {
            StateAction::RegisterActivity => now,
            _ => self.tracker().last_active(),
        })
        &&& after.tracker().wait() == self.tracker().wait()
    }

    /// `states` runs from this state through `actions`, applied in
    /// order at time `now`: each state is the one before it after one
    /// more operation.
    pub open spec fn runs_through(&self, actions: Seq<StateAction>, now: u64, states: Seq<State>) -> bool {
        &&& states.len() == actions.len() + 1
        &&& states[0] == *self
        &&& forall|i: int| 0 <= i < actions.len() ==> #[trigger] states[i].applied(actions[i], now, &states[i + 1])
    }

    /// `after` is this state after all of `actions`, applied in order at
    /// time `now`.
    pub open spec fn applied_all(&self, actions: Seq<StateAction>, now: u64, after: &State) -> bool {
        exists|states: Seq<State>|
            #[trigger] self.runs_through(actions, now, states) && states.last() == *after
    }

    /// The color of the active source at a position.
    pub open spec fn basecolor(&self, pos: Coordinate, rainbow: Color) -> Color {
        match self.mode() {
            Mode::OffMode => Color { red: 0, green: 0, blue: 0 },
            Mode::ManualMode => self.manual().color_at(pos),
            Mode::RainbowMode => rainbow,
        }
    }

    /// The combined mask value: the sum of the overall, position and
    /// flash masks (capped at 1), scaled by the music and pulse masks.
    pub open spec fn mask_value(&self, pos: Coordinate, samples: MaskSamples) -> PinValue {
        let solid = self.solid().value_at(pos);
        let p = if self.pos_active() { samples.pos } else { PIN_MAX };
        let f = if self.flash_active() { samples.flash } else { PIN_MAX };
        let sum = if solid + p + f > PIN_MAX { PIN_MAX } else { (solid + p + f) as PinValue };
        let pulse = if self.pulse_active() { samples.pulse } else { PIN_MAX };
        times(times(sum, self.music().value_at(pos)), pulse)
    }

    /// The color of the lights at a position: the source color under
    /// the white flash layer, darkened by the mask value and mixed with
    /// its inverted masking by the invert factor.
    pub open spec fn color_at_with(&self, pos: Coordinate, samples: MaskSamples) -> Color {
        let white = Color { red: 255, green: 255, blue: 255 };
        let c = mix_spec(white, self.basecolor(pos, samples.rainbow), (PIN_MAX - samples.white) as u8);
        let v = self.mask_value(pos, samples);
        mix_spec(masked(c, v), masked(c, (PIN_MAX - v) as u8), self.invert_factor())
    }

    /// Manual colors, no masks but the music mask switched on, no
    /// inverting, never active.
    pub fn new() -> (s: State)
        ensures
            s.manual() == (ManualMode {
                tl_color: Color { red: 255, green: 0, blue: 0 },
                tr_color: Color { red: 255, green: 255, blue: 0 },
                bl_color: Color { red: 0, green: 0, blue: 255 },
                br_color: Color { red: 0, green: 255, blue: 0 },
            }),
            s.mode() == Mode::ManualMode,
            !s.solid().active(),
            s.solid().inner().val() == PIN_MAX,
            s.music().active(),
            s.music().inner().val() == PIN_MAX,
            !s.pos_active(),
            s.mask_pos() == Coordinate(0, 0),
            !s.flash_active(),
            !s.pulse_active(),
            s.invert_factor() == 0,
            s.tracker().last_active() == 0,
    {
        State {
            manual_color: ManualMode::new(),
            active_mode: Mode::ManualMode,
            solid_mask: ActivatableMask::new(SolidMask::new(), false),
            pos_mask_active: false,
            value_mask_pos: Coordinate(0, 0),
            flash_mask_active: false,
            music_mask: ActivatableMask::new(SolidMask::new(), true),
            pulse_mask_active: false,
            invert: 0,
            inactivity: InactivityTracker::new(),
        }
    }

    /// The manual colors, to change them.
    pub fn manual_mode(&mut self) -> (m: &mut ManualMode)
        ensures
            *m == old(self).manual(),
            final(self).manual() == *final(m),
            final(self).mode() == old(self).mode(),
            final(self).same_masks(old(self)),
    {
        &mut self.manual_color
    }

    pub fn set_active_mode(&mut self, mode: Mode)
        ensures
            final(self).mode() == mode,
            final(self).manual() == old(self).manual(),
            final(self).same_masks(old(self)),
    {
        self.active_mode = mode;
    }

    pub fn get_active_mode(&self) -> (m: Mode)
        ensures
            m == self.mode(),
    {
        self.active_mode
    }

    /// Sets the value of the overall mask.
    pub fn set_value_mask_base(&mut self, value: PinValue)
        ensures
            final(self).solid().inner().val() == value,
            final(self).solid().active() == old(self).solid().active(),
            final(self).manual() == old(self).manual(),
            final(self).mode() == old(self).mode(),
            final(self).music() == old(self).music(),
            final(self).pos_active() == old(self).pos_active(),
            final(self).mask_pos() == old(self).mask_pos(),
            final(self).flash_active() == old(self).flash_active(),
            final(self).pulse_active() == old(self).pulse_active(),
            final(self).invert_factor() == old(self).invert_factor(),
            final(self).tracker() == old(self).tracker(),
    {
        self.solid_mask.inner_mut().set_val(value);
    }

    /// Moves the position mask.
    pub fn set_value_mask_pos(&mut self, pos: Coordinate)
        ensures
            final(self).mask_pos() == pos,
            final(self).manual() == old(self).manual(),
            final(self).mode() == old(self).mode(),
            final(self).solid() == old(self).solid(),
            final(self).music() == old(self).music(),
            final(self).pos_active() == old(self).pos_active(),
            final(self).flash_active() == old(self).flash_active(),
            final(self).pulse_active() == old(self).pulse_active(),
            final(self).invert_factor() == old(self).invert_factor(),
            final(self).tracker() == old(self).tracker(),
    {
        self.value_mask_pos = pos;
    }

    pub fn switch_music_mode(&mut self)
        ensures
            final(self).music().active() == !old(self).music().active(),
            final(self).music().inner() == old(self).music().inner(),
            final(self).manual() == old(self).manual(),
            final(self).mode() == old(self).mode(),
            final(self).solid() == old(self).solid(),
            final(self).pos_active() == old(self).pos_active(),
            final(self).mask_pos() == old(self).mask_pos(),
            final(self).flash_active() == old(self).flash_active(),
            final(self).pulse_active() == old(self).pulse_active(),
            final(self).invert_factor() == old(self).invert_factor(),
            final(self).tracker() == old(self).tracker(),
    {
        self.music_mask.switch_active();
    }

    pub fn switch_pulse_mode(&mut self)
        ensures
            final(self).pulse_active() == !old(self).pulse_active(),
            final(self).manual() == old(self).manual(),
            final(self).mode() == old(self).mode(),
            final(self).solid() == old(self).solid(),
            final(self).music() == old(self).music(),
            final(self).pos_active() == old(self).pos_active(),
            final(self).mask_pos() == old(self).mask_pos(),
            final(self).flash_active() == old(self).flash_active(),
            final(self).invert_factor() == old(self).invert_factor(),
            final(self).tracker() == old(self).tracker(),
    {
        self.pulse_mask_active = !self.pulse_mask_active;
    }

    pub fn set_invert_factor(&mut self, invert: PinValue)
        ensures
            final(self).invert_factor() == invert,
            final(self).manual() == old(self).manual(),
            final(self).mode() == old(self).mode(),
            final(self).solid() == old(self).solid(),
            final(self).music() == old(self).music(),
            final(self).pos_active() == old(self).pos_active(),
            final(self).mask_pos() == old(self).mask_pos(),
            final(self).flash_active() == old(self).flash_active(),
            final(self).pulse_active() == old(self).pulse_active(),
            final(self).tracker() == old(self).tracker(),
    {
        self.invert = invert;
    }

    /// Switches between the flash masks and the overall and position
    /// masks.
    pub fn switch_flash_mode(&mut self)
        ensures
            final(self).flash_active() == !old(self).flash_active(),
            final(self).solid().active() == !old(self).solid().active(),
            final(self).solid().inner() == old(self).solid().inner(),
            final(self).pos_active() == !old(self).pos_active(),
            final(self).manual() == old(self).manual(),
            final(self).mode() == old(self).mode(),
            final(self).music() == old(self).music(),
            final(self).mask_pos() == old(self).mask_pos(),
            final(self).pulse_active() == old(self).pulse_active(),
            final(self).invert_factor() == old(self).invert_factor(),
            final(self).tracker() == old(self).tracker(),
    {
        self.flash_mask_active = !self.flash_mask_active;
        self.solid_mask.switch_active();
        self.pos_mask_active = !self.pos_mask_active;
    }

    /// Sets the brightness that the music gives.
    pub fn set_intensity(&mut self, intensity: PinValue)
        ensures
            final(self).music().inner().val() == intensity,
            final(self).music().active() == old(self).music().active(),
            final(self).manual() == old(self).manual(),
            final(self).mode() == old(self).mode(),
            final(self).solid() == old(self).solid(),
            final(self).pos_active() == old(self).pos_active(),
            final(self).mask_pos() == old(self).mask_pos(),
            final(self).flash_active() == old(self).flash_active(),
            final(self).pulse_active() == old(self).pulse_active(),
            final(self).invert_factor() == old(self).invert_factor(),
            final(self).tracker() == old(self).tracker(),
    {
        self.music_mask.inner_mut().set_val(intensity);
    }

    /// Registers controller activity at time `now`, in nanoseconds
    /// since the Unix epoch.
    pub fn register_activity(&mut self, now: u64)
        ensures
            final(self).tracker().last_active() == now,
            final(self).tracker().wait() == old(self).tracker().wait(),
            final(self).manual() == old(self).manual(),
            final(self).mode() == old(self).mode(),
            final(self).solid() == old(self).solid(),
            final(self).music() == old(self).music(),
            final(self).pos_active() == old(self).pos_active(),
            final(self).mask_pos() == old(self).mask_pos(),
            final(self).flash_active() == old(self).flash_active(),
            final(self).pulse_active() == old(self).pulse_active(),
            final(self).invert_factor() == old(self).invert_factor(),
    {
        self.inactivity.register_activity(now);
    }

    /// Applies one operation at time `now`.  The operations on the masks
    /// that follow the clock are handed back to the caller, who keeps
    /// the clock.
    pub fn apply(&mut self, action: StateAction, now: u64) -> (r: Option<ClockAction>)
        ensures
            old(self).applied(action, now, final(self)),
            r == clock_action_of(action),
    {
        match action {
            StateAction::RegisterActivity => self.register_activity(now),
            StateAction::SetActiveMode(mode) => self.set_active_mode(mode),
            StateAction::SwitchMusicMode => self.switch_music_mode(),
            StateAction::SetValueMaskBase(v) => self.set_value_mask_base(v),
            StateAction::SetValueMaskPos(pos) => self.set_value_mask_pos(pos),
            StateAction::SetInvertFactor(v) => self.set_invert_factor(v),
            StateAction::SwitchPulseMode => self.switch_pulse_mode(),
            StateAction::SwitchFlashMode => self.switch_flash_mode(),
            StateAction::WhiteFlash => return Some(ClockAction::WhiteFlash),
            StateAction::FlashTopLeft => return Some(ClockAction::Flash(Quadrant::TL)),
            StateAction::FlashTopRight => return Some(ClockAction::Flash(Quadrant::TR)),
            StateAction::FlashBotLeft => return Some(ClockAction::Flash(Quadrant::BL)),
            StateAction::FlashBotRight => return Some(ClockAction::Flash(Quadrant::BR)),
            StateAction::RotateCw => self.manual_color.rotate_cw(),
            StateAction::RotateCcw => self.manual_color.rotate_ccw(),
            StateAction::SetMajorDiag(c) => self.manual_color.set_major_diag(c),
            StateAction::SetMinorDiag(c) => self.manual_color.set_minor_diag(c),
            StateAction::SetTop(c) => self.manual_color.set_top(c),
            StateAction::SetBottom(c) => self.manual_color.set_bottom(c),
            StateAction::SetLeft(c) => self.manual_color.set_left(c),
            StateAction::SetRight(c) => self.manual_color.set_right(c),
            StateAction::SetQuadrant(q, c) => {
                self.manual_color.set_color(q, c);
                proof {
                    assert(self.manual_color.quadrant_color(Quadrant::TL) == with_quadrant(old(self).manual_color, q, c).tl_color);
                    assert(self.manual_color.quadrant_color(Quadrant::TR) == with_quadrant(old(self).manual_color, q, c).tr_color);
                    assert(self.manual_color.quadrant_color(Quadrant::BL) == with_quadrant(old(self).manual_color, q, c).bl_color);
                    assert(self.manual_color.quadrant_color(Quadrant::BR) == with_quadrant(old(self).manual_color, q, c).br_color);
                }
            },
        }
        None
    }

    /// Applies a sequence of operations in order at time `now`, and hands
    /// back their clock driven parts in the same order.
    pub fn apply_all(&mut self, actions: &Vec<StateAction>, now: u64) -> (r: Vec<ClockAction>)
        ensures
            old(self).applied_all(actions@, now, final(self)),
            r@ == clock_actions_of(actions@),
    {
        let ghost start = *self;
        let ghost mut states: Seq<State> = seq![start];
        let mut r: Vec<ClockAction> = Vec::new();
        let mut i: usize = 0;
        assert(actions@.subrange(0, 0) =~= Seq::<StateAction>::empty());
        while i < actions.len()
            invariant
                0 <= i <= actions@.len(),
                start.runs_through(actions@.subrange(0, i as int), now, states),
                states.last() == *self,
                r@ == clock_actions_of(actions@.subrange(0, i as int)),
            decreases actions@.len() - i,
        {
            let a = actions[i];
            match self.apply(a, now) {
                Some(c) => r.push(c),
                None => {},
            }
            proof {
                let prefix = actions@.subrange(0, i + 1);
                let old_states = states;
                states = states.push(*self);
                assert(prefix.drop_last() =~= actions@.subrange(0, i as int));
                assert(prefix.last() == a);
                assert forall|j: int| 0 <= j < prefix.len() implies #[trigger] states[j].applied(prefix[j], now, &states[j + 1]) by {
                    if j < i {
                        assert(prefix[j] == actions@.subrange(0, i as int)[j]);
                        assert(old_states[j].applied(actions@.subrange(0, i as int)[j], now, &old_states[j + 1]));
                    }
                }
                assert(start.runs_through(prefix, now, states));
                assert(r@ =~= clock_actions_of(prefix));
            }
            i = i + 1;
        }
        assert(actions@.subrange(0, actions@.len() as int) =~= actions@);
        r
    }

    /// The position of the position mask.
    pub fn get_value_mask_pos(&self) -> (p: Coordinate)
        ensures
            p == self.mask_pos(),
    {
        self.value_mask_pos
    }

    pub fn is_off(&self) -> (r: bool)
        ensures
            r == (self.mode() == Mode::OffMode),
    {
        match self.active_mode {
            Mode::OffMode => true,
            _ => false,
        }
    }

    fn get_basecolor(&self, pos: &Coordinate, rainbow: Color) -> (c: Color)
        ensures
            c == self.basecolor(*pos, rainbow),
    {
        match self.active_mode {
            Mode::OffMode => Color::black(),
            Mode::ManualMode => self.manual_color.get_color(pos),
            Mode::RainbowMode => rainbow,
        }
    }

    fn times_exec(a: PinValue, b: PinValue) -> (r: PinValue)
        ensures
            r == times(a, b),
    {
        proof {
            assert(0 <= a * b <= 255 * 255) by (nonlinear_arith)
                requires 0 <= a <= 255, 0 <= b <= 255;
            assert(a * b / 255 <= 255) by (nonlinear_arith)
                requires 0 <= a * b <= 255 * 255;
        }
        ((a as u32) * (b as u32) / 255) as u8
    }

    /// The color of the lights at a position, given the samples of the
    /// clock driven masks.
    pub fn get_color(&self, pos: &Coordinate, samples: &MaskSamples) -> (c: Color)
        ensures
            c == self.color_at_with(*pos, *samples),
    {
        let white = Color::white();
        let base = self.get_basecolor(pos, samples.rainbow);
        let color = white.mix(&base, PIN_MAX - samples.white);
        // masks
        let solid = self.solid_mask.get_value(pos);
        let p = if self.pos_mask_active { samples.pos } else { PIN_MAX };
        let f = if self.flash_mask_active { samples.flash } else { PIN_MAX };
        let sum: u32 = (solid as u32) + (p as u32) + (f as u32);
        let v: u8 = if sum > 255 { PIN_MAX } else { sum as u8 };
        let v = Self::times_exec(v, self.music_mask.get_value(pos));
        let pulse = if self.pulse_mask_active { samples.pulse } else { PIN_MAX };
        let v = Self::times_exec(v, pulse);
        // inverting
        let black = Color::black();
        let on = black.mix(&color, v);
        let off = black.mix(&color, PIN_MAX - v);
        on.mix(&off, self.invert)
    }
}

/// Without inverting, a fully open mask shows the color under the white
/// layer unchanged, and a closed mask gives black.
pub proof fn lemma_mask_extremes_in_state(s: State, pos: Coordinate, samples: MaskSamples)
    requires
        s.invert_factor() == 0,
    ensures
        s.mask_value(pos, samples) == PIN_MAX ==> s.color_at_with(pos, samples) == mix_spec(
            Color { red: 255, green: 255, blue: 255 },
            s.basecolor(pos, samples.rainbow),
            (PIN_MAX - samples.white) as u8,
        ),
        s.mask_value(pos, samples) == 0 ==> s.color_at_with(pos, samples) == (Color { red: 0, green: 0, blue: 0 }),
{
}

/// The lights stay black in the off mode as long as the white flash is
/// not shown, whatever the masks.
pub proof fn lemma_off_is_dark(s: State, pos: Coordinate, samples: MaskSamples)
    requires
        s.mode() == Mode::OffMode,
        samples.white == 0,
    ensures
        s.color_at_with(pos, samples) == (Color { red: 0, green: 0, blue: 0 }),
{
    let v = s.mask_value(pos, samples);
    lemma_mix_channel_between(0, 0, v);
    lemma_mix_channel_between(0, 0, (PIN_MAX - v) as u8);
    lemma_mix_channel_between(0, 0, s.invert_factor());
}

/// Turning the manual colors counter-clockwise through `apply`: every
/// quadrant takes the color of its clockwise neighbour (top left from
/// top right, top right from bottom right, bottom right from bottom
/// left, bottom left from top left); clockwise it is the other way
/// round.  Either turn undoes the other.
pub proof fn lemma_apply_rotations(s: State, s1: State, s2: State, now: u64, later: u64)
    ensures
        s.applied(StateAction::RotateCcw, now, &s1) ==> {
            &&& s1.manual().quadrant_color(Quadrant::TL) == s.manual().quadrant_color(Quadrant::TR)
            &&& s1.manual().quadrant_color(Quadrant::TR) == s.manual().quadrant_color(Quadrant::BR)
            &&& s1.manual().quadrant_color(Quadrant::BR) == s.manual().quadrant_color(Quadrant::BL)
            &&& s1.manual().quadrant_color(Quadrant::BL) == s.manual().quadrant_color(Quadrant::TL)
            &&& s1.mode() == s.mode()
        },
        s.applied(StateAction::RotateCw, now, &s1) ==> {
            &&& s1.manual().quadrant_color(Quadrant::TR) == s.manual().quadrant_color(Quadrant::TL)
            &&& s1.manual().quadrant_color(Quadrant::BR) == s.manual().quadrant_color(Quadrant::TR)
            &&& s1.manual().quadrant_color(Quadrant::BL) == s.manual().quadrant_color(Quadrant::BR)
            &&& s1.manual().quadrant_color(Quadrant::TL) == s.manual().quadrant_color(Quadrant::BL)
            &&& s1.mode() == s.mode()
        },
        s.applied(StateAction::RotateCw, now, &s1) && s1.applied(StateAction::RotateCcw, later, &s2) ==> s2.manual()
            == s.manual(),
        s.applied(StateAction::RotateCcw, now, &s1) && s1.applied(StateAction::RotateCw, later, &s2) ==> s2.manual()
            == s.manual(),
{
}

/// How the masks combine: with no inverting, the music mask fully open,
/// the pulse off and no white flash, each channel of the lights is the
/// source channel scaled by the sum of the overall, position and flash
/// mask values, where that sum is capped at 1 (a mask that is switched
/// off counts as fully open).
pub proof fn lemma_masks_add_up(s: State, pos: Coordinate, samples: MaskSamples)
    requires
        s.invert_factor() == 0,
        s.music().value_at(pos) == PIN_MAX,
        !s.pulse_active(),
        samples.white == 0,
    ensures
        ({
            let solid: int = if s.solid().active() { s.solid().inner().val() as int } else { 255 };
            let p: int = if s.pos_active() { samples.pos as int } else { 255 };
            let f: int = if s.flash_active() { samples.flash as int } else { 255 };
            let total: int = if solid + p + f > 255 { 255 } else { solid + p + f };
            let base = s.basecolor(pos, samples.rainbow);
            let c = s.color_at_with(pos, samples);
            &&& c.red == base.red * total / 255
            &&& c.green == base.green * total / 255
            &&& c.blue == base.blue * total / 255
        }),
{
    let base = s.basecolor(pos, samples.rainbow);
    let white = Color { red: 255, green: 255, blue: 255 };
    lemma_mix_full(white.red, base.red);
    lemma_mix_full(white.green, base.green);
    lemma_mix_full(white.blue, base.blue);
    let c = mix_spec(white, base, (PIN_MAX - samples.white) as u8);
    assert(c == base);
    let v = s.mask_value(pos, samples);
    let solid = s.solid().value_at(pos);
    let p = if s.pos_active() { samples.pos } else { PIN_MAX };
    let f = if s.flash_active() { samples.flash } else { PIN_MAX };
    let sum = if solid + p + f > PIN_MAX { PIN_MAX } else { (solid + p + f) as PinValue };
    lemma_times_full(sum);
    lemma_times_full(times(sum, PIN_MAX));
    assert(v == sum);
    let black = Color { red: 0, green: 0, blue: 0 };
    let on = masked(c, v);
    let off = masked(c, (PIN_MAX - v) as u8);
    lemma_mix_none(on.red, off.red);
    lemma_mix_none(on.green, off.green);
    lemma_mix_none(on.blue, off.blue);
    lemma_mix_from_black(c.red, v);
    lemma_mix_from_black(c.green, v);
    lemma_mix_from_black(c.blue, v);
}

/// Mixing at factor 0 keeps the first channel.
proof fn lemma_mix_none(a: u8, b: u8)
    ensures
        mix_channel(a, b, 0) == a,
{
    assert((a * 255 + b * 0) / 255 == a) by (nonlinear_arith);
}

/// Mixing at full factor gives the second channel.
proof fn lemma_mix_full(a: u8, b: u8)
    ensures
        mix_channel(a, b, PIN_MAX) == b,
{
    assert((a * 0 + b * 255) / 255 == b) by (nonlinear_arith);
}

/// Mixing up from black scales the channel by the factor.
proof fn lemma_mix_from_black(b: u8, factor: u8)
    ensures
        mix_channel(0, b, factor) == b * factor / 255,
{
    assert(0 <= b * factor <= 255 * 255) by (nonlinear_arith)
        requires 0 <= b <= 255, 0 <= factor <= 255;
    assert(0 * (255 - factor) + b * factor == b * factor);
    assert(b * factor / 255 <= 255) by (nonlinear_arith)
        requires 0 <= b * factor <= 255 * 255;
}

/// Scaling by a fully open mask keeps the value.
proof fn lemma_times_full(a: PinValue)
    ensures
        times(a, PIN_MAX) == a,
{
    assert(a * 255 / 255 == a) by (nonlinear_arith);
}

} // verus!
