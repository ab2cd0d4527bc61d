use vstd::prelude::*;
use crate::light::color::Color;
use crate::light::coord::{Coordinate, Quadrant};

verus! {

/// A color map.  Maps any given coordinate to a color.
pub trait ColorMap {
    /// The color that the map gives at a position.
    spec fn color_at(&self, pos: Coordinate) -> Color;

    fn get_color(&self, pos: &Coordinate) -> (c: Color)
        ensures
            c == self.color_at(*pos),
    ;
}

/// A static color map.  Is created with a single color and keeps that
/// color.
pub struct StaticSolidMap {
    color: Color,
}

impl StaticSolidMap {
    /// The color of the map.
    pub closed spec fn color(&self) -> Color {
        self.color
    }

    pub fn new(color: Color) -> (m: StaticSolidMap)
        ensures
            m.color() == color,
    {
        StaticSolidMap { color: color }
    }

    pub fn set_color(&mut self, color: Color)
        ensures
            final(self).color() == color,
    {
        self.color = color;
    }
}

impl ColorMap for StaticSolidMap {
    open spec fn color_at(&self, pos: Coordinate) -> Color {
        self.color()
    }

    fn get_color(&self, _pos: &Coordinate) -> (c: Color) {
        self.color
    }
}

/// A manual color map.  Allows setting colors for each quadrant of
/// the Coordinate system manually.
#[derive(Clone, Copy, Debug, PartialEq, Eq, Structural)]
pub struct ManualMode {
    pub tl_color: Color,
    pub tr_color: Color,
    pub bl_color: Color,
    pub br_color: Color,
}

impl ManualMode {
    /// The color of a quadrant.
    pub open spec fn quadrant_color(self, quad: Quadrant) -> Color {
        match quad {
            Quadrant::TL => self.tl_color,
            Quadrant::TR => self.tr_color,
            Quadrant::BL => self.bl_color,
            Quadrant::BR => self.br_color,
        }
    }

    /// The map turned by a quarter clockwise: every quadrant takes the
    /// color of its counter-clockwise neighbour.
    pub open spec fn rotated_cw(self) -> ManualMode {
        ManualMode {
            tl_color: self.bl_color,
            tr_color: self.tl_color,
            br_color: self.tr_color,
            bl_color: self.br_color,
        }
    }

    /// The map turned by a quarter counter-clockwise.
    pub open spec fn rotated_ccw(self) -> ManualMode {
        ManualMode {
            tl_color: self.tr_color,
            tr_color: self.br_color,
            br_color: self.bl_color,
            bl_color: self.tl_color,
        }
    }

    /// The map mirrored at the horizontal axis (top and bottom swap).
    pub open spec fn flipped_v(self) -> ManualMode {
        ManualMode {
            tl_color: self.bl_color,
            tr_color: self.br_color,
            bl_color: self.tl_color,
            br_color: self.tr_color,
        }
    }

    /// The map mirrored at the vertical axis (left and right swap).
    pub open spec fn flipped_h(self) -> ManualMode {
        ManualMode {
            tl_color: self.tr_color,
            tr_color: self.tl_color,
            bl_color: self.br_color,
            br_color: self.bl_color,
        }
    }

    /// Red top left, yellow top right, blue bottom left, green bottom
    /// right.
    pub fn new() -> (m: ManualMode)
        ensures
            m.tl_color == (Color { red: 255, green: 0, blue: 0 }),
            m.tr_color == (Color { red: 255, green: 255, blue: 0 }),
            m.bl_color == (Color { red: 0, green: 0, blue: 255 }),
            m.br_color == (Color { red: 0, green: 255, blue: 0 }),
    {
        ManualMode {
            tl_color: Color::red(),
            tr_color: Color::yellow(),
            bl_color: Color::blue(),
            br_color: Color::green(),
        }
    }

    pub fn set_color(&mut self, quad: Quadrant, color: Color)
        ensures
            final(self).quadrant_color(quad) == color,
            forall|q: Quadrant| q != quad ==> final(self).quadrant_color(q) == old(self).quadrant_color(q),
    {
        match quad {
            Quadrant::TL => self.tl_color = color,
            Quadrant::TR => self.tr_color = color,
            Quadrant::BL => self.bl_color = color,
            Quadrant::BR => self.br_color = color,
        }
    }

    pub fn set_all(&mut self, color: Color)
        ensures
            *final(self) == (ManualMode { tl_color: color, tr_color: color, bl_color: color, br_color: color }),
    {
        self.tl_color = color;
        self.tr_color = color;
        self.bl_color = color;
        self.br_color = color;
    }

    /// Sets top left and bottom right.
    pub fn set_major_diag(&mut self, color: Color)
        ensures
            *final(self) == (ManualMode { tl_color: color, br_color: color, ..*old(self) }),
    {
        self.tl_color = color;
        self.br_color = color;
    }

    /// Sets top right and bottom left.
    pub fn set_minor_diag(&mut self, color: Color)
        ensures
            *final(self) == (ManualMode { tr_color: color, bl_color: color, ..*old(self) }),
    {
        self.tr_color = color;
        self.bl_color = color;
    }

    pub fn set_bottom(&mut self, color: Color)
        ensures
            *final(self) == (ManualMode { bl_color: color, br_color: color, ..*old(self) }),
    {
        self.bl_color = color;
        self.br_color = color;
    }

    pub fn set_top(&mut self, color: Color)
        ensures
            *final(self) == (ManualMode { tl_color: color, tr_color: color, ..*old(self) }),
    {
        self.tl_color = color;
        self.tr_color = color;
    }

    pub fn set_left(&mut self, color: Color)
        ensures
            *final(self) == (ManualMode { tl_color: color, bl_color: color, ..*old(self) }),
    {
        self.tl_color = color;
        self.bl_color = color;
    }

    pub fn set_right(&mut self, color: Color)
        ensures
            *final(self) == (ManualMode { tr_color: color, br_color: color, ..*old(self) }),
    {
        self.tr_color = color;
        self.br_color = color;
    }

    pub fn rotate_cw(&mut self)
        ensures
            *final(self) == old(self).rotated_cw(),
    {
        let temp = self.tl_color;
        self.tl_color = self.bl_color;
        self.bl_color = self.br_color;
        self.br_color = self.tr_color;
        self.tr_color = temp;
    }

    pub fn rotate_ccw(&mut self)
        ensures
            *final(self) == old(self).rotated_ccw(),
    {
        let temp = self.tl_color;
        self.tl_color = self.tr_color;
        self.tr_color = self.br_color;
        self.br_color = self.bl_color;
        self.bl_color = temp;
    }

    pub fn flip_v(&mut self)
        ensures
            *final(self) == old(self).flipped_v(),
    {
        let t1 = self.tl_color;
        let t2 = self.tr_color;
        self.tl_color = self.bl_color;
        self.tr_color = self.br_color;
        self.bl_color = t1;
        self.br_color = t2;
    }

    pub fn flip_h(&mut self)
        ensures
            *final(self) == old(self).flipped_h(),
    {
        let t1 = self.tl_color;
        let t2 = self.bl_color;
        self.tl_color = self.tr_color;
        self.bl_color = self.br_color;
        self.tr_color = t1;
        self.br_color = t2;
    }
}

impl ColorMap for ManualMode {
    open spec fn color_at(&self, pos: Coordinate) -> Color {
        self.quadrant_color(Quadrant::of(pos))
    }

    fn get_color(&self, pos: &Coordinate) -> (c: Color) {
        match Quadrant::from_coordinate(pos) {
            Quadrant::TL => self.tl_color,
            Quadrant::TR => self.tr_color,
            Quadrant::BL => self.bl_color,
            Quadrant::BR => self.br_color,
        }
    }
}

/// Turning clockwise and then counter-clockwise gives back the map,
/// and so does the other order.
pub proof fn lemma_rotations_undo(m: ManualMode)
    ensures
        m.rotated_cw().rotated_ccw() == m,
        m.rotated_ccw().rotated_cw() == m,
{
}

/// Four clockwise turns give back the map.
pub proof fn lemma_four_rotations(m: ManualMode)
    ensures
        m.rotated_cw().rotated_cw().rotated_cw().rotated_cw() == m,
{
}

/// Each flip undoes itself, and flipping along both axes is a half
/// turn.
pub proof fn lemma_flips(m: ManualMode)
    ensures
        m.flipped_v().flipped_v() == m,
        m.flipped_h().flipped_h() == m,
        m.flipped_v().flipped_h() == m.rotated_cw().rotated_cw(),
        m.flipped_h().flipped_v() == m.rotated_cw().rotated_cw(),
{
}

/// A map that had all quadrants set to one color gives that color
/// everywhere.
pub proof fn lemma_set_all_everywhere(color: Color, pos: Coordinate)
    ensures
        (ManualMode { tl_color: color, tr_color: color, bl_color: color, br_color: color }).color_at(pos)
            == color,
{
}

/// Turning the map clockwise moves the color of every quadrant to its
/// clockwise neighbour.
pub proof fn lemma_rotation_moves_colors(m: ManualMode)
    ensures
        m.rotated_cw().quadrant_color(Quadrant::TR) == m.quadrant_color(Quadrant::TL),
        m.rotated_cw().quadrant_color(Quadrant::BR) == m.quadrant_color(Quadrant::TR),
        m.rotated_cw().quadrant_color(Quadrant::BL) == m.quadrant_color(Quadrant::BR),
        m.rotated_cw().quadrant_color(Quadrant::TL) == m.quadrant_color(Quadrant::BL),
{
}

} // verus!
