//! Masks.  Most fundamentally, a mask is a function that maps
//! coordinates to values between 0 and 1.  The mask can then be
//! applied to a color.  0 means that the result is black, not color.
//! 1 means only color, no black.
use vstd::prelude::*;
use crate::light::color::{mix_spec, Color, PinValue, PIN_MAX};
use crate::light::coord::{Coordinate, Quadrant};

verus! {

/// A mask.  It needs to be able to receive a position and color and
/// return a masked color.
pub trait Mask {
    /// The value of the mask at a position.
    spec fn value_at(&self, pos: Coordinate) -> PinValue;

    fn get_value(&self, pos: &Coordinate) -> (v: PinValue)
        ensures
            v == self.value_at(*pos),
    ;

    /// The color darkened by the mask: black where the mask is 0, the
    /// color itself where it is 1.
    fn get_masked_color(&self, pos: &Coordinate, color: Color) -> (c: Color)
        ensures
            c == mix_spec(Color { red: 0, green: 0, blue: 0 }, color, self.value_at(*pos)),
    {
        let value = self.get_value(pos);
        Color::black().mix(&color, value)
    }
}

/// A mask with one value for each quadrant.
#[derive(Clone, Copy, Debug, PartialEq, Eq, Structural)]
pub struct DiscretePosMask {
    pub top_right: PinValue,
    pub bot_right: PinValue,
    pub bot_left: PinValue,
    pub top_left: PinValue,
}

impl DiscretePosMask {
    /// The value of the mask in a quadrant.
    pub open spec fn quadrant_value(self, quad: Quadrant) -> PinValue {
        match quad {
            Quadrant::TL => self.top_left,
            Quadrant::TR => self.top_right,
            Quadrant::BL => self.bot_left,
            Quadrant::BR => self.bot_right,
        }
    }

    pub fn new(
        top_right: PinValue,
        bot_right: PinValue,
        bot_left: PinValue,
        top_left: PinValue,
    ) -> (m: DiscretePosMask)
        ensures
            m == (DiscretePosMask { top_right, bot_right, bot_left, top_left }),
    {
        DiscretePosMask {
            top_right: top_right,
            bot_right: bot_right,
            bot_left: bot_left,
            top_left: top_left,
        }
    }

    pub fn set_top(&mut self, value: PinValue)
        ensures
            *final(self) == (DiscretePosMask { top_left: value, top_right: value, ..*old(self) }),
    {
        self.top_left = value;
        self.top_right = value;
    }

    pub fn set_bottom(&mut self, value: PinValue)
        ensures
            *final(self) == (DiscretePosMask { bot_left: value, bot_right: value, ..*old(self) }),
    {
        self.bot_left = value;
        self.bot_right = value;
    }
}

impl Mask for DiscretePosMask {
    open spec fn value_at(&self, pos: Coordinate) -> PinValue {
        self.quadrant_value(Quadrant::of(pos))
    }

    fn get_value(&self, pos: &Coordinate) -> (v: PinValue) {
        match Quadrant::from_coordinate(pos) {
            Quadrant::TL => self.top_left,
            Quadrant::TR => self.top_right,
            Quadrant::BL => self.bot_left,
            Quadrant::BR => self.bot_right,
        }
    }
}

/// A mask with the same value everywhere.
pub struct SolidMask {
    val: PinValue,
}

impl SolidMask {
    /// The value of the mask.
    pub closed spec fn val(&self) -> PinValue {
        self.val
    }

    /// A fully open mask.
    pub fn new() -> (m: SolidMask)
        ensures
            m.val() == PIN_MAX,
    {
        SolidMask { val: PIN_MAX }
    }

    pub fn set_val(&mut self, val: PinValue)
        ensures
            final(self).val() == val,
    {
        self.val = val;
    }
}

impl Mask for SolidMask {
    open spec fn value_at(&self, pos: Coordinate) -> PinValue {
        self.val()
    }

    fn get_value(&self, _pos: &Coordinate) -> (v: PinValue) {
        self.val
    }
}

/// A mask that can be switched off.  Switched off, it is fully open.
pub struct ActivatableMask<M> {
    pub mask: M,
    active: bool,
}

impl<M> ActivatableMask<M> {
    /// Whether the inner mask is applied.
    pub closed spec fn active(&self) -> bool {
        self.active
    }

    /// The inner mask.
    pub closed spec fn inner(&self) -> M {
        self.mask
    }

    pub fn new(mask: M, active: bool) -> (m: ActivatableMask<M>)
        ensures
            m.inner() == mask,
            m.active() == active,
    {
        ActivatableMask::<M> {
            mask: mask,
            active: active,
        }
    }

    /// The inner mask, to change it.
    pub fn inner_mut(&mut self) -> (m: &mut M)
        ensures
            *m == old(self).inner(),
            final(self).inner() == *final(m),
            final(self).active() == old(self).active(),
    {
        &mut self.mask
    }

    pub fn set_active(&mut self, active: bool)
        ensures
            final(self).active() == active,
            final(self).inner() == old(self).inner(),
    {
        self.active = active;
    }

    pub fn switch_active(&mut self)
        ensures
            final(self).active() == !old(self).active(),
            final(self).inner() == old(self).inner(),
    {
        self.active = !self.active;
    }

    pub fn is_active(&self) -> (r: bool)
        ensures
            r == self.active(),
    {
        self.active
    }
}

impl<M: Mask> Mask for ActivatableMask<M> {
    open spec fn value_at(&self, pos: Coordinate) -> PinValue {
        if self.active() {
            self.inner().value_at(pos)
        } else {
            PIN_MAX
        }
    }

    fn get_value(&self, pos: &Coordinate) -> (v: PinValue) {
        if self.active {
            self.mask.get_value(pos)
        } else {
            PIN_MAX
        }
    }
}

/// The sum of two masks, capped at 1.
pub struct AddMask<M1, M2> {
    pub mask1: M1,
    pub mask2: M2,
}

impl<M1, M2> AddMask<M1, M2> {
    pub fn new(mask1: M1, mask2: M2) -> (m: AddMask<M1, M2>)
        ensures
            m.mask1 == mask1,
            m.mask2 == mask2,
    {
        AddMask {
            mask1: mask1,
            mask2: mask2,
        }
    }
}

/// The sum of two mask values, capped at 1.
pub open spec fn capped_sum(a: PinValue, b: PinValue) -> PinValue {
    if a + b > PIN_MAX {
        PIN_MAX
    } else {
        (a + b) as PinValue
    }
}

impl<M1: Mask, M2: Mask> Mask for AddMask<M1, M2> {
    open spec fn value_at(&self, pos: Coordinate) -> PinValue {
        capped_sum(self.mask1.value_at(pos), self.mask2.value_at(pos))
    }

    fn get_value(&self, pos: &Coordinate) -> (v: PinValue) {
        let a = self.mask1.get_value(pos);
        let b = self.mask2.get_value(pos);
        let v: u16 = (a as u16) + (b as u16);
        if v > PIN_MAX as u16 {
            PIN_MAX
        } else {
            v as u8
        }
    }
}

/// An inactive mask lets everything through, whatever the inner mask
/// says.
pub proof fn lemma_inactive_is_open<M: Mask>(m: ActivatableMask<M>, pos: Coordinate)
    requires
        !m.active(),
    ensures
        m.value_at(pos) == PIN_MAX,
{
}

/// Adding masks is symmetric, never falls below either mask and never
/// exceeds 1.
pub proof fn lemma_capped_sum(a: PinValue, b: PinValue)
    ensures
        capped_sum(a, b) == capped_sum(b, a),
        a <= capped_sum(a, b) <= PIN_MAX,
        b <= capped_sum(a, b),
{
}

/// Applying a mask: a closed mask gives black, an open mask gives the
/// color unchanged.
pub proof fn lemma_mask_extremes(color: Color)
    ensures
        mix_spec(Color { red: 0, green: 0, blue: 0 }, color, 0) == (Color { red: 0, green: 0, blue: 0 }),
        mix_spec(Color { red: 0, green: 0, blue: 0 }, color, PIN_MAX) == color,
{
}

} // verus!
