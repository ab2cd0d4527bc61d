use vstd::prelude::*;
use crate::light::color::PinValue;
use crate::light::coord::{Coordinate, UNIT};

verus! {

/// The buttons of the controller.
#[derive(Clone, Copy, Debug, PartialEq, Eq, Structural)]
pub enum Button {
    PS,
    Start,
    Select,
    Up,
    Down,
    Left,
    Right,
    L1,
    L2,
    L3,
    R1,
    R2,
    R3,
    Triangle,
    Circle,
    Cross,
    Square,
}

impl Button {
    /// The byte of the raw controller state that holds the button, and
    /// the bit within that byte.
    pub open spec fn byte_and_bit(self) -> (usize, u8) {
        match self {
            Button::PS => (4, 0),
            Button::Start => (2, 3),
            Button::Select => (2, 0),
            Button::Up => (2, 4),
            Button::Down => (2, 6),
            Button::Left => (2, 7),
            Button::Right => (2, 5),
            Button::L1 => (3, 2),
            Button::L2 => (3, 0),
            Button::L3 => (2, 1),
            Button::R1 => (3, 3),
            Button::R2 => (3, 1),
            Button::R3 => (2, 2),
            Button::Triangle => (3, 4),
            Button::Circle => (3, 5),
            Button::Cross => (3, 6),
            Button::Square => (3, 7),
        }
    }

    fn val(&self) -> (v: (usize, u8))
        ensures
            v == self.byte_and_bit(),
            v.0 < 20,
            v.1 < 8,
    {
        match *self {
            Button::PS => (4, 0),
            Button::Start => (2, 3),
            Button::Select => (2, 0),
            Button::Up => (2, 4),
            Button::Down => (2, 6),
            Button::Left => (2, 7),
            Button::Right => (2, 5),
            Button::L1 => (3, 2),
            Button::L2 => (3, 0),
            Button::L3 => (2, 1),
            Button::R1 => (3, 3),
            Button::R2 => (3, 1),
            Button::R3 => (2, 2),
            Button::Triangle => (3, 4),
            Button::Circle => (3, 5),
            Button::Cross => (3, 6),
            Button::Square => (3, 7),
        }
    }
}

/// The axes of the controller: the two sticks and the two analog
/// triggers.
#[derive(Clone, Copy, Debug, PartialEq, Eq, Structural)]
pub enum Axis {
    LX,
    LY,
    L3,
    RX,
    RY,
    R3,
}

impl Axis {
    /// The byte of the raw controller state that holds the axis.
    pub open spec fn byte(self) -> usize {
        match self {
            Axis::LX => 6,
            Axis::LY => 7,
            Axis::L3 => 18,
            Axis::RX => 8,
            Axis::RY => 9,
            Axis::R3 => 19,
        }
    }

    fn val(&self) -> (v: usize)
        ensures
            v == self.byte(),
            v < 20,
    {
        match *self {
            Axis::LX => 6,
            Axis::LY => 7,
            Axis::L3 => 18,
            Axis::RX => 8,
            Axis::RY => 9,
            Axis::R3 => 19,
        }
    }
}

/// Bit `n` of a byte, counted from the least significant bit.
pub open spec fn bit_of(input: u8, n: u8) -> bool {
    (input >> n) & 1u8 == 1u8
}

/// Gets the bit at position `n`.  Bits are numbered from 0 (least
/// significant) to 31 (most significant); a byte has no bits set from
/// position 8 on, and positions from 32 on read as unset too.
fn get_bit_at(input: u8, n: u8) -> (r: bool)
    ensures
        r == (n < 8 && bit_of(input, n)),
{
    if n < 8 {
        let r = input & (1u8 << n) != 0;
        assert(r == bit_of(input, n)) by (bit_vector)
            requires
                n < 8,
                r == (input & (1u8 << n) != 0),
        ;
        r
    } else {
        false
    }
}

/// This type represents the raw byte representation of the controller
/// state, taken from the HIDAPI.
pub type RawCVals = [u8; 20];

/// A basic abstraction over the byte representation of the controller
/// state.  Allows accessing the state with the Button and Axis enums.
#[derive(Clone, Copy)]
pub struct ControllerValues {
    pub buf: RawCVals,
}

impl ControllerValues {
    /// Whether a button is held down in this state.
    pub open spec fn pressed(self, btn: Button) -> bool {
        bit_of(self.buf@[btn.byte_and_bit().0 as int], btn.byte_and_bit().1)
    }

    /// The value of an axis in this state.
    pub open spec fn axis(self, ax: Axis) -> u8 {
        self.buf@[ax.byte() as int]
    }

    /// No button pressed, all axes at 0.
    pub fn new_empty() -> (v: ControllerValues)
        ensures
            forall|i: int| 0 <= i < 20 ==> v.buf@[i] == 0,
    {
        ControllerValues::new([0u8; 20])
    }

    pub fn new(buf: RawCVals) -> (v: ControllerValues)
        ensures
            v.buf@ == buf@,
    {
        ControllerValues { buf: buf }
    }

    /// The state carried in a message blob, which must hold exactly 20
    /// bytes.
    pub fn from_blob(blob: &Vec<u8>) -> (r: Option<ControllerValues>)
        ensures
            r is Some <==> blob@.len() == 20,
            r matches Some(v) ==> v.buf@ == blob@,
    {
        if blob.len() != 20 {
            return None;
        }
        let buf: RawCVals = [
            blob[0], blob[1], blob[2], blob[3], blob[4],
            blob[5], blob[6], blob[7], blob[8], blob[9],
            blob[10], blob[11], blob[12], blob[13], blob[14],
            blob[15], blob[16], blob[17], blob[18], blob[19],
        ];
        assert(buf@ =~= blob@);
        Some(ControllerValues::new(buf))
    }

    pub fn is_pressed(&self, btn: Button) -> (r: bool)
        ensures
            r == self.pressed(btn),
    {
        let v = btn.val();
        get_bit_at(self.buf[v.0], v.1)
    }

    pub fn get_axis_val(&self, ax: Axis) -> (r: u8)
        ensures
            r == self.axis(ax),
    {
        let v = ax.val();
        self.buf[v]
    }
}

/// All buttons, in the order in which the controller is queried.
pub open spec fn all_buttons_spec() -> Seq<Button> {
    seq![
        Button::PS,
        Button::Start,
        Button::Select,
        Button::Up,
        Button::Down,
        Button::Left,
        Button::Right,
        Button::L1,
        Button::L2,
        Button::L3,
        Button::R1,
        Button::R2,
        Button::R3,
        Button::Triangle,
        Button::Circle,
        Button::Cross,
        Button::Square,
    ]
}

/// Every button is among `all_buttons_spec`.
pub proof fn lemma_all_buttons_listed(btn: Button)
    ensures
        all_buttons_spec().contains(btn),
{
    let s = all_buttons_spec();
    match btn {
        Button::PS => assert(s[0] == btn),
        Button::Start => assert(s[1] == btn),
        Button::Select => assert(s[2] == btn),
        Button::Up => assert(s[3] == btn),
        Button::Down => assert(s[4] == btn),
        Button::Left => assert(s[5] == btn),
        Button::Right => assert(s[6] == btn),
        Button::L1 => assert(s[7] == btn),
        Button::L2 => assert(s[8] == btn),
        Button::L3 => assert(s[9] == btn),
        Button::R1 => assert(s[10] == btn),
        Button::R2 => assert(s[11] == btn),
        Button::R3 => assert(s[12] == btn),
        Button::Triangle => assert(s[13] == btn),
        Button::Circle => assert(s[14] == btn),
        Button::Cross => assert(s[15] == btn),
        Button::Square => assert(s[16] == btn),
    }
}

fn all_buttons() -> (v: Vec<Button>)
    ensures
        v@ == all_buttons_spec(),
{
    let v = vec![
        Button::PS,
        Button::Start,
        Button::Select,
        Button::Up,
        Button::Down,
        Button::Left,
        Button::Right,
        Button::L1,
        Button::L2,
        Button::L3,
        Button::R1,
        Button::R2,
        Button::R3,
        Button::Triangle,
        Button::Circle,
        Button::Cross,
        Button::Square,
    ];
    assert(v@ =~= all_buttons_spec());
    v
}

/// The position of a stick from the raw values of its two axes: the
/// x axis grows to the right, the y axis grows upwards, and the full
/// range of an axis spans `-UNIT` to `UNIT`.
pub open spec fn stick_position(x: u8, y: u8) -> Coordinate {
    Coordinate((2 * x - UNIT) as i32, (UNIT - 2 * y) as i32)
}

/// A trigger counts as pulled when it is pulled further than a tenth.
pub open spec fn trigger_pulled(t: u8) -> bool {
    10 * t > 255
}

/// The controller abstracts away over controller state at specific
/// points and allows to detect when a button is pressed or released.
/// It also combines the X and Y axis for each stick into a coordinate
/// and turns the triggers into values in [0, 1].
pub struct Controller {
    prev_vals: ControllerValues,
    curr_vals: ControllerValues,
}

impl Controller {
    /// The state before the last update.
    pub closed spec fn prev(&self) -> ControllerValues {
        self.prev_vals
    }

    /// The current state.
    pub closed spec fn curr(&self) -> ControllerValues {
        self.curr_vals
    }

    pub open spec fn left_pos_spec(&self) -> Coordinate {
        stick_position(self.curr().axis(Axis::LX), self.curr().axis(Axis::LY))
    }

    pub open spec fn right_pos_spec(&self) -> Coordinate {
        stick_position(self.curr().axis(Axis::RX), self.curr().axis(Axis::RY))
    }

    pub open spec fn was_pressed_spec(&self, btn: Button) -> bool {
        !self.prev().pressed(btn) && self.curr().pressed(btn)
    }

    pub open spec fn was_released_spec(&self, btn: Button) -> bool {
        self.prev().pressed(btn) && !self.curr().pressed(btn)
    }

    /// Some button is held down, a stick is moved away from the center
    /// by more than a tenth, or a trigger is pulled by more than a
    /// tenth.
    pub open spec fn has_any_input_spec(&self) -> bool {
        ||| self.left_pos_spec().length_exceeds_spec(1, 10)
        ||| self.right_pos_spec().length_exceeds_spec(1, 10)
        ||| trigger_pulled(self.curr().axis(Axis::L3))
        ||| trigger_pulled(self.curr().axis(Axis::R3))
        ||| exists|btn: Button| self.curr().pressed(btn)
    }

    /// A controller that has seen one state only.
    pub fn new(buf: ControllerValues) -> (c: Controller)
        ensures
            c.prev() == buf,
            c.curr() == buf,
    {
        Controller {
            prev_vals: buf,
            curr_vals: buf,
        }
    }

    pub fn update(&mut self, new_vals: ControllerValues)
        ensures
            final(self).prev() == old(self).curr(),
            final(self).curr() == new_vals,
    {
        self.prev_vals = self.curr_vals;
        self.curr_vals = new_vals;
    }

    pub fn left_pos(&self) -> (p: Coordinate)
        ensures
            p == self.left_pos_spec(),
    {
        let l_x = self.curr_vals.get_axis_val(Axis::LX);
        let l_y = self.curr_vals.get_axis_val(Axis::LY);
        Coordinate(2 * (l_x as i32) - UNIT, UNIT - 2 * (l_y as i32))
    }

    pub fn right_pos(&self) -> (p: Coordinate)
        ensures
            p == self.right_pos_spec(),
    {
        let r_x = self.curr_vals.get_axis_val(Axis::RX);
        let r_y = self.curr_vals.get_axis_val(Axis::RY);
        Coordinate(2 * (r_x as i32) - UNIT, UNIT - 2 * (r_y as i32))
    }

    /// How far the left trigger is pulled, in [0, 1].
    pub fn left_trigger(&self) -> (t: PinValue)
        ensures
            t == self.curr().axis(Axis::L3),
    {
        self.curr_vals.get_axis_val(Axis::L3)
    }

    /// How far the right trigger is pulled, in [0, 1].
    pub fn right_trigger(&self) -> (t: PinValue)
        ensures
            t == self.curr().axis(Axis::R3),
    {
        self.curr_vals.get_axis_val(Axis::R3)
    }

    pub fn was_pressed(&self, btn: Button) -> (r: bool)
        ensures
            r == self.was_pressed_spec(btn),
    {
        let prev = self.prev_vals.is_pressed(btn);
        let curr = self.curr_vals.is_pressed(btn);
        return !prev && curr;
    }

    pub fn is_pressed(&self, btn: Button) -> (r: bool)
        ensures
            r == self.curr().pressed(btn),
    {
        self.curr_vals.is_pressed(btn)
    }

    pub fn was_released(&self, btn: Button) -> (r: bool)
        ensures
            r == self.was_released_spec(btn),
    {
        let prev = self.prev_vals.is_pressed(btn);
        let curr = self.curr_vals.is_pressed(btn);
        return prev && !curr;
    }

    /// Indicates whether there is currently any kind of user input.
    /// A pressed button, or a moved joystick.
    pub fn has_any_input(&self) -> (r: bool)
        ensures
            r == self.has_any_input_spec(),
    {
        if self.left_pos().length_exceeds(1, 10) || self.right_pos().length_exceeds(1, 10) {
            return true;
        }
        let lt = self.left_trigger();
        let rt = self.right_trigger();
        if 10 * (lt as u32) > 255 || 10 * (rt as u32) > 255 {
            return true;
        }
        let buttons = all_buttons();
        let mut i: usize = 0;
        while i < buttons.len()
            invariant
                buttons@ == all_buttons_spec(),
                0 <= i <= buttons@.len(),
                forall|j: int| 0 <= j < i ==> !self.curr().pressed(#[trigger] buttons@[j]),
            decreases buttons@.len() - i,
        {
            if self.is_pressed(buttons[i]) {
                return true;
            }
            i = i + 1;
        }
        assert forall|btn: Button| !self.curr().pressed(btn) by {
            lemma_all_buttons_listed(btn);
            let j = choose|j: int| 0 <= j < buttons@.len() && buttons@[j] == btn;
            assert(!self.curr().pressed(buttons@[j]));
        }
        return false;
    }

    /// The buttons that went down with the last update, in the order
    /// of `all_buttons_spec`.
    pub fn was_pressed_buttons(&self) -> (v: Vec<Button>)
        ensures
            v@ == all_buttons_spec().filter(|btn: Button| self.was_pressed_spec(btn)),
    {
        let buttons = all_buttons();
        let mut res: Vec<Button> = Vec::new();
        let mut i: usize = 0;
        while i < buttons.len()
            invariant
                buttons@ == all_buttons_spec(),
                0 <= i <= buttons@.len(),
                res@ == buttons@.take(i as int).filter(|btn: Button| self.was_pressed_spec(btn)),
            decreases buttons@.len() - i,
        {
            reveal_with_fuel(Seq::filter, 1);
            assert(buttons@.take((i + 1) as int).drop_last() =~= buttons@.take(i as int));
            if self.was_pressed(buttons[i]) {
                res.push(buttons[i]);
            }
            i = i + 1;
        }
        assert(buttons@.take(buttons@.len() as int) =~= buttons@);
        res
    }
}

/// A fresh controller reports neither presses nor releases.
pub proof fn lemma_new_controller_quiet(vals: ControllerValues, c: Controller, btn: Button)
    requires
        c.prev() == vals,
        c.curr() == vals,
    ensures
        !c.was_pressed_spec(btn),
        !c.was_released_spec(btn),
{
}

/// A button never counts as pressed and released in the same update,
/// and a button that went down is held down.
pub proof fn lemma_press_release_exclusive(c: Controller, btn: Button)
    ensures
        !(c.was_pressed_spec(btn) && c.was_released_spec(btn)),
        c.was_pressed_spec(btn) ==> c.curr().pressed(btn),
        c.was_released_spec(btn) ==> !c.curr().pressed(btn),
{
}

/// Stick positions lie within the square from `-UNIT` to `UNIT`, and
/// the extreme axis values reach its corners.
pub proof fn lemma_stick_range(x: u8, y: u8)
    ensures
        -UNIT <= stick_position(x, y).0 <= UNIT,
        -UNIT <= stick_position(x, y).1 <= UNIT,
        stick_position(0, 0) == Coordinate(-255i32, 255i32),
        stick_position(255, 255) == Coordinate(255i32, -255i32),
{
}

/// The bit masks of the buttons in the controller report: byte 2 holds
/// Select, L3, R3, Start, Up, Right, Down and Left (from the lowest bit
/// up), byte 3 holds L2, R2, L1, R1, Triangle, Circle, Cross and Square,
/// and bit 0 of byte 4 is PS.  A button counts as pressed exactly when
/// its bit is set.
pub proof fn lemma_report_layout(v: ControllerValues)
    ensures
        v.pressed(Button::Select) == (v.buf@[2] & 0x01u8 != 0),
        v.pressed(Button::L3) == (v.buf@[2] & 0x02u8 != 0),
        v.pressed(Button::R3) == (v.buf@[2] & 0x04u8 != 0),
        v.pressed(Button::Start) == (v.buf@[2] & 0x08u8 != 0),
        v.pressed(Button::Up) == (v.buf@[2] & 0x10u8 != 0),
        v.pressed(Button::Right) == (v.buf@[2] & 0x20u8 != 0),
        v.pressed(Button::Down) == (v.buf@[2] & 0x40u8 != 0),
        v.pressed(Button::Left) == (v.buf@[2] & 0x80u8 != 0),
        v.pressed(Button::L2) == (v.buf@[3] & 0x01u8 != 0),
        v.pressed(Button::R2) == (v.buf@[3] & 0x02u8 != 0),
        v.pressed(Button::L1) == (v.buf@[3] & 0x04u8 != 0),
        v.pressed(Button::R1) == (v.buf@[3] & 0x08u8 != 0),
        v.pressed(Button::Triangle) == (v.buf@[3] & 0x10u8 != 0),
        v.pressed(Button::Circle) == (v.buf@[3] & 0x20u8 != 0),
        v.pressed(Button::Cross) == (v.buf@[3] & 0x40u8 != 0),
        v.pressed(Button::Square) == (v.buf@[3] & 0x80u8 != 0),
        v.pressed(Button::PS) == (v.buf@[4] & 0x01u8 != 0),
{
    lemma_bit_masks(v.buf@[2]);
    lemma_bit_masks(v.buf@[3]);
    lemma_bit_masks(v.buf@[4]);
}

/// Bit `n` of a byte is set exactly when the byte and `1 << n` share
/// a bit.
proof fn lemma_bit_masks(x: u8)
    ensures
        bit_of(x, 0) == (x & 0x01u8 != 0),
        bit_of(x, 1) == (x & 0x02u8 != 0),
        bit_of(x, 2) == (x & 0x04u8 != 0),
        bit_of(x, 3) == (x & 0x08u8 != 0),
        bit_of(x, 4) == (x & 0x10u8 != 0),
        bit_of(x, 5) == (x & 0x20u8 != 0),
        bit_of(x, 6) == (x & 0x40u8 != 0),
        bit_of(x, 7) == (x & 0x80u8 != 0),
{
    assert(((x >> 0u8) & 1u8 == 1u8) == (x & 0x01u8 != 0)) by (bit_vector);
    assert(((x >> 1u8) & 1u8 == 1u8) == (x & 0x02u8 != 0)) by (bit_vector);
    assert(((x >> 2u8) & 1u8 == 1u8) == (x & 0x04u8 != 0)) by (bit_vector);
    assert(((x >> 3u8) & 1u8 == 1u8) == (x & 0x08u8 != 0)) by (bit_vector);
    assert(((x >> 4u8) & 1u8 == 1u8) == (x & 0x10u8 != 0)) by (bit_vector);
    assert(((x >> 5u8) & 1u8 == 1u8) == (x & 0x20u8 != 0)) by (bit_vector);
    assert(((x >> 6u8) & 1u8 == 1u8) == (x & 0x40u8 != 0)) by (bit_vector);
    assert(((x >> 7u8) & 1u8 == 1u8) == (x & 0x80u8 != 0)) by (bit_vector);
}

} // verus!
