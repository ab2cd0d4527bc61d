use vstd::prelude::*;
use crate::light::cmap::ColorMap;
use crate::light::color::Color;
use crate::light::coord::Coordinate;

verus! {

/// The names of the modes that the switcher holds.
#[derive(Clone, Copy, Debug, PartialEq, Eq, Structural)]
pub enum ModeName {
    Auto,
    Manual1,
    Manual2,
    Manual3,
    DoubleBlob,
    HighLow,
}

/// Holds one mode of each name, knows which one is active and whether
/// the lights are switched off.
pub struct ModeSwitcher<M> {
    auto_mode: M,
    manual1_mode: M,
    manual2_mode: M,
    manual3_mode: M,
    double_blob: M,
    high_low: M,
    c_mode: ModeName,
    off: bool,
}

impl<M> ModeSwitcher<M> {
    /// The mode stored under a name.
    pub closed spec fn mode(&self, name: ModeName) -> M {
        match name {
            ModeName::Auto => self.auto_mode,
            ModeName::Manual1 => self.manual1_mode,
            ModeName::Manual2 => self.manual2_mode,
            ModeName::Manual3 => self.manual3_mode,
            ModeName::DoubleBlob => self.double_blob,
            ModeName::HighLow => self.high_low,
        }
    }

    /// The name of the active mode.
    pub closed spec fn active(&self) -> ModeName {
        self.c_mode
    }

    /// Whether the lights are switched off.
    pub closed spec fn is_off(&self) -> bool {
        self.off
    }

    /// A switcher over the given modes, with `initial_mode` active and
    /// the lights on.
    pub fn new(
        initial_mode: ModeName,
        auto_mode: M,
        manual1_mode: M,
        manual2_mode: M,
        manual3_mode: M,
        double_blob: M,
        high_low: M,
    ) -> (s: ModeSwitcher<M>)
        ensures
            s.active() == initial_mode,
            !s.is_off(),
            s.mode(ModeName::Auto) == auto_mode,
            s.mode(ModeName::Manual1) == manual1_mode,
            s.mode(ModeName::Manual2) == manual2_mode,
            s.mode(ModeName::Manual3) == manual3_mode,
            s.mode(ModeName::DoubleBlob) == double_blob,
            s.mode(ModeName::HighLow) == high_low,
    {
        ModeSwitcher {
            auto_mode,
            manual1_mode,
            manual2_mode,
            manual3_mode,
            double_blob,
            high_low,
            c_mode: initial_mode,
            off: false,
        }
    }

    /// The active mode, to hand input to.  Changes made through the
    /// reference stay in the switcher; nothing else changes.
    pub fn current_mode(&mut self) -> (m: &mut M)
        ensures
            *m == old(self).mode(old(self).active()),
            final(self).active() == old(self).active(),
            final(self).is_off() == old(self).is_off(),
            final(self).mode(old(self).active()) == *final(m),
            forall|n: ModeName| n != old(self).active() ==> #[trigger] final(self).mode(n) == old(self).mode(n),
    {
        match self.c_mode {
            ModeName::Auto => &mut self.auto_mode,
            ModeName::Manual1 => &mut self.manual1_mode,
            ModeName::Manual2 => &mut self.manual2_mode,
            ModeName::Manual3 => &mut self.manual3_mode,
            ModeName::DoubleBlob => &mut self.double_blob,
            ModeName::HighLow => &mut self.high_low,
        }
    }

    /// The mode whose colors the lights show: none while the lights
    /// are switched off, the active mode otherwise.
    pub fn visible_mode(&self) -> (m: Option<&M>)
        ensures
            m matches Some(mode) ==> !self.is_off() && *mode == self.mode(self.active()),
            m is None <==> self.is_off(),
    {
        if self.off {
            None
        } else {
            match self.c_mode {
                ModeName::Auto => Some(&self.auto_mode),
                ModeName::Manual1 => Some(&self.manual1_mode),
                ModeName::Manual2 => Some(&self.manual2_mode),
                ModeName::Manual3 => Some(&self.manual3_mode),
                ModeName::DoubleBlob => Some(&self.double_blob),
                ModeName::HighLow => Some(&self.high_low),
            }
        }
    }

    pub fn activate_mode(&mut self, mode: ModeName)
        ensures
            final(self).active() == mode,
            final(self).is_off() == old(self).is_off(),
            forall|n: ModeName| #[trigger] final(self).mode(n) == old(self).mode(n),
    {
        self.c_mode = mode;
    }

    pub fn switch_on_off(&mut self)
        ensures
            final(self).is_off() == !old(self).is_off(),
            final(self).active() == old(self).active(),
            forall|n: ModeName| #[trigger] final(self).mode(n) == old(self).mode(n),
    {
        self.off = !self.off;
    }
}

impl<M: ColorMap> ModeSwitcher<M> {
    /// Black while the lights are off, the color of the active mode
    /// otherwise.
    pub open spec fn color_at(&self, pos: Coordinate) -> Color {
        if self.is_off() {
            Color { red: 0, green: 0, blue: 0 }
        } else {
            self.mode(self.active()).color_at(pos)
        }
    }

    pub fn get_color(&self, coordinate: &Coordinate) -> (c: Color)
        ensures
            c == self.color_at(*coordinate),
    {
        if self.off {
            Color::black()
        } else {
            match self.c_mode {
                ModeName::Auto => self.auto_mode.get_color(coordinate),
                ModeName::Manual1 => self.manual1_mode.get_color(coordinate),
                ModeName::Manual2 => self.manual2_mode.get_color(coordinate),
                ModeName::Manual3 => self.manual3_mode.get_color(coordinate),
                ModeName::DoubleBlob => self.double_blob.get_color(coordinate),
                ModeName::HighLow => self.high_low.get_color(coordinate),
            }
        }
    }
}

} // verus!
