use vstd::prelude::*;
use crate::light::color::Color;
use crate::light::coord::Quadrant;

verus! {

/// Sets one quadrant to one color.
#[derive(Clone, Copy, Debug, PartialEq, Eq, Structural)]
pub struct SingleColorChange {
    pub quadrant: Quadrant,
    pub color: Color,
}

/// A step of a pattern: a few quadrants that change color together.
pub struct ColorChange {
    pub changes: Vec<SingleColorChange>,
}

pub open spec fn change(quadrant: Quadrant, color: Color) -> SingleColorChange {
    SingleColorChange { quadrant, color }
}

pub open spec fn blue_spec() -> Color {
    Color { red: 0, green: 0, blue: 255 }
}

pub open spec fn red_spec() -> Color {
    Color { red: 255, green: 0, blue: 0 }
}

pub open spec fn yellow_spec() -> Color {
    Color { red: 255, green: 255, blue: 0 }
}

pub open spec fn green_spec() -> Color {
    Color { red: 0, green: 255, blue: 0 }
}

/// The steps of a sequence of color changes, each as the sequence of
/// its single changes.
pub open spec fn steps_of(seq: Seq<ColorChange>) -> Seq<Seq<SingleColorChange>> {
    seq.map_values(|c: ColorChange| c.changes@)
}

/// Blue on the major diagonal, red on the minor one, yellow on the
/// major one, green on the minor one.
pub open spec fn default_pattern_spec() -> Seq<Seq<SingleColorChange>> {
    seq![
        seq![change(Quadrant::TL, blue_spec()), change(Quadrant::BR, blue_spec())],
        seq![change(Quadrant::TR, red_spec()), change(Quadrant::BL, red_spec())],
        seq![change(Quadrant::TL, yellow_spec()), change(Quadrant::BR, yellow_spec())],
        seq![change(Quadrant::TR, green_spec()), change(Quadrant::BL, green_spec())],
    ]
}

/// All blue, red on top, all blue, yellow at the bottom.
pub open spec fn default_pattern2_spec() -> Seq<Seq<SingleColorChange>> {
    seq![
        seq![
            change(Quadrant::TL, blue_spec()),
            change(Quadrant::TR, blue_spec()),
            change(Quadrant::BL, blue_spec()),
            change(Quadrant::BR, blue_spec()),
        ],
        seq![change(Quadrant::TR, red_spec()), change(Quadrant::TL, red_spec())],
        seq![
            change(Quadrant::TL, blue_spec()),
            change(Quadrant::TR, blue_spec()),
            change(Quadrant::BL, blue_spec()),
            change(Quadrant::BR, blue_spec()),
        ],
        seq![change(Quadrant::BL, yellow_spec()), change(Quadrant::BR, yellow_spec())],
    ]
}

fn single(quadrant: Quadrant, color: Color) -> (c: SingleColorChange)
    ensures
        c == change(quadrant, color),
{
    SingleColorChange { quadrant: quadrant, color: color }
}

fn pair(q1: Quadrant, q2: Quadrant, color: Color) -> (c: ColorChange)
    ensures
        c.changes@ == seq![change(q1, color), change(q2, color)],
{
    ColorChange { changes: vec![single(q1, color), single(q2, color)] }
}

fn all_four(color: Color) -> (c: ColorChange)
    ensures
        c.changes@ == seq![
            change(Quadrant::TL, color),
            change(Quadrant::TR, color),
            change(Quadrant::BL, color),
            change(Quadrant::BR, color),
        ],
{
    ColorChange {
        changes: vec![
            single(Quadrant::TL, color),
            single(Quadrant::TR, color),
            single(Quadrant::BL, color),
            single(Quadrant::BR, color),
        ],
    }
}

pub fn get_default_pattern() -> (p: Vec<ColorChange>)
    ensures
        steps_of(p@) == default_pattern_spec(),
{
    let p = vec![
        pair(Quadrant::TL, Quadrant::BR, Color::blue()),
        pair(Quadrant::TR, Quadrant::BL, Color::red()),
        pair(Quadrant::TL, Quadrant::BR, Color::yellow()),
        pair(Quadrant::TR, Quadrant::BL, Color::green()),
    ];
    assert(steps_of(p@) =~= default_pattern_spec());
    p
}

pub fn get_default_pattern2() -> (p: Vec<ColorChange>)
    ensures
        steps_of(p@) == default_pattern2_spec(),
{
    let p = vec![
        all_four(Color::blue()),
        pair(Quadrant::TR, Quadrant::TL, Color::red()),
        all_four(Color::blue()),
        pair(Quadrant::BL, Quadrant::BR, Color::yellow()),
    ];
    assert(steps_of(p@) =~= default_pattern2_spec());
    p
}

/// Cycles through a sequence of color changes.
pub struct PatternGenerator {
    pattern_seq: Vec<ColorChange>,
    current_pos: usize,
}

impl PatternGenerator {
    #[verifier::type_invariant]
    spec fn inv(self) -> bool {
        self.current_pos < self.pattern_seq@.len()
    }

    /// The steps of the pattern, each as the sequence of its changes.
    pub closed spec fn steps(&self) -> Seq<Seq<SingleColorChange>> {
        steps_of(self.pattern_seq@)
    }

    /// The index of the step that the next call gives.
    pub closed spec fn position(&self) -> nat {
        self.current_pos as nat
    }

    /// A generator over the second default pattern, at its first step.
    pub fn new() -> (g: Self)
        ensures
            g.steps() == default_pattern2_spec(),
            g.position() == 0,
    {
        let pattern_seq = get_default_pattern2();
        assert(pattern_seq@.len() == steps_of(pattern_seq@).len());
        Self {
            pattern_seq: pattern_seq,
            current_pos: 0,
        }
    }

    /// Gives the current step and moves on to the next one, starting
    /// over after the last.
    pub fn next_pattern(&mut self) -> (c: &ColorChange)
        ensures
            old(self).position() < old(self).steps().len(),
            c.changes@ == old(self).steps()[old(self).position() as int],
            final(self).steps() == old(self).steps(),
            final(self).position() == (old(self).position() + 1) % old(self).steps().len(),
    {
        proof {
            use_type_invariant(&*self);
        }
        let p = self.current_pos;
        let len = self.pattern_seq.len();
        assert(p < len);
        self.current_pos = (p + 1) % len;
        &self.pattern_seq[p]
    }
}

} // verus!
