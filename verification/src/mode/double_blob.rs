//! The double blob mode: two blobs of color, one controlled with each
//! stick, over flashes triggered with the buttons.  This module holds
//! its palettes and its decisions.
use vstd::prelude::*;
use crate::ir::signal::Signal;
use crate::light::color::{Color, PinValue};
use crate::light::coord::Coordinate;
use crate::sixaxis::controller::{Axis, Button, Controller};

verus! {

/// Four colors: for the d-pad flashes, the diagonal flashes, the left
/// blob and the right blob.
#[derive(Clone, Copy, Debug, PartialEq, Eq, Structural)]
pub struct Palette {
    c1: Color,
    c2: Color,
    c3: Color,
    c4: Color,
}

/// Blue, yellow, cyan and red-orange.
pub open spec fn sunglow_colors() -> (Color, Color, Color, Color) {
    (
        Color { red: 32, green: 138, blue: 174 },
        Color { red: 253, green: 202, blue: 64 },
        Color { red: 156, green: 255, blue: 250 },
        Color { red: 249, green: 87, blue: 56 },
    )
}

/// Pink, blue, orange and light green.
pub open spec fn screaming_colors() -> (Color, Color, Color, Color) {
    (
        Color { red: 255, green: 0, blue: 102 },
        Color { red: 48, green: 122, blue: 207 },
        Color { red: 252, green: 165, blue: 3 },
        Color { red: 128, green: 255, blue: 114 },
    )
}

impl Palette {
    /// The four colors of the palette, in order.
    pub closed spec fn colors(self) -> (Color, Color, Color, Color) {
        (self.c1, self.c2, self.c3, self.c4)
    }

    pub fn new_sunglow() -> (p: Palette)
        ensures
            p.colors() == sunglow_colors(),
    {
        Palette {
            c1: Color::new(32, 138, 174),
            c2: Color::new(253, 202, 64),
            c3: Color::new(156, 255, 250),
            c4: Color::new(249, 87, 56),
        }
    }

    pub fn new_screaming() -> (p: Palette)
        ensures
            p.colors() == screaming_colors(),
    {
        Palette {
            c1: Color::new(255, 0, 102),
            c2: Color::new(48, 122, 207),
            c3: Color::new(252, 165, 3),
            c4: Color::new(128, 255, 114),
        }
    }

    /// The colors of the palette: d-pad flash, diagonal flash, left
    /// blob, right blob.
    pub fn get_colors(&self) -> (c: (Color, Color, Color, Color))
        ensures
            c == self.colors(),
    {
        (self.c1, self.c2, self.c3, self.c4)
    }
}

/// An operation on the layers of the double blob mode.
#[derive(Clone, Copy, Debug, PartialEq, Eq, Structural)]
pub enum BlobAction {
    /// The value of the white layer that the left trigger fades in.
    SetTriggerValue(PinValue),
    SetLeftBlobPos(Coordinate),
    SetRightBlobPos(Coordinate),
    FlashLeft,
    FlashRight,
    FlashTop,
    FlashBottom,
    /// Flash top left and bottom right.
    FlashDiag1,
    /// Flash top right and bottom left.
    FlashDiag2,
}

pub open spec fn blob_when(cond: bool, a: BlobAction) -> Seq<BlobAction> {
    if cond {
        seq![a]
    } else {
        seq![]
    }
}

/// The left trigger fades in white, the sticks move the blobs, the
/// d-pad flashes sides and the shoulder buttons flash diagonals.
pub open spec fn blob_actions_spec(c: Controller) -> Seq<BlobAction> {
    let v = c.curr();
    seq![
        BlobAction::SetTriggerValue(v.axis(Axis::L3)),
        BlobAction::SetLeftBlobPos(c.left_pos_spec()),
        BlobAction::SetRightBlobPos(c.right_pos_spec()),
    ]
        + blob_when(v.pressed(Button::Left), BlobAction::FlashLeft)
        + blob_when(v.pressed(Button::Right), BlobAction::FlashRight)
        + blob_when(v.pressed(Button::Up), BlobAction::FlashTop)
        + blob_when(v.pressed(Button::Down), BlobAction::FlashBottom)
        + blob_when(v.pressed(Button::L1), BlobAction::FlashDiag1)
        + blob_when(v.pressed(Button::R1), BlobAction::FlashDiag2)
}

fn push_blob_when(v: &mut Vec<BlobAction>, cond: bool, a: BlobAction)
    ensures
        final(v)@ == old(v)@ + blob_when(cond, a),
{
    if cond {
        v.push(a);
    }
    assert(final(v)@ =~= old(v)@ + blob_when(cond, a));
}

/// The operations that one controller update applies to the layers of
/// the double blob mode, in order.
pub fn blob_controller_actions(controller: &Controller) -> (v: Vec<BlobAction>)
    ensures
        v@ == blob_actions_spec(*controller),
{
    let mut v = vec![
        BlobAction::SetTriggerValue(controller.left_trigger()),
        BlobAction::SetLeftBlobPos(controller.left_pos()),
        BlobAction::SetRightBlobPos(controller.right_pos()),
    ];
    push_blob_when(&mut v, controller.is_pressed(Button::Left), BlobAction::FlashLeft);
    push_blob_when(&mut v, controller.is_pressed(Button::Right), BlobAction::FlashRight);
    push_blob_when(&mut v, controller.is_pressed(Button::Up), BlobAction::FlashTop);
    push_blob_when(&mut v, controller.is_pressed(Button::Down), BlobAction::FlashBottom);
    push_blob_when(&mut v, controller.is_pressed(Button::L1), BlobAction::FlashDiag1);
    push_blob_when(&mut v, controller.is_pressed(Button::R1), BlobAction::FlashDiag2);
    v
}

/// What a remote signal does in the double blob mode.
#[derive(Clone, Copy, Debug, PartialEq, Eq, Structural)]
pub enum BlobSignalAction {
    Faster,
    Slower,
    SetPalette(Palette),
}

/// Decides what a remote signal does in the double blob mode: quick
/// and slow change the speed of the flashes, blue and red pick the
/// sunglow and the screaming palette.
pub fn blob_signal_action(signal: Signal) -> (a: Option<BlobSignalAction>)
    ensures
        match signal {
            Signal::Quick => a == Some(BlobSignalAction::Faster),
            Signal::Slow => a == Some(BlobSignalAction::Slower),
            Signal::Blue => a matches Some(BlobSignalAction::SetPalette(p)) && p.colors() == sunglow_colors(),
            Signal::Red => a matches Some(BlobSignalAction::SetPalette(p)) && p.colors() == screaming_colors(),
            _ => a is None,
        },
{
    match signal {
        Signal::Quick => Some(BlobSignalAction::Faster),
        Signal::Slow => Some(BlobSignalAction::Slower),
        Signal::Blue => Some(BlobSignalAction::SetPalette(Palette::new_sunglow())),
        Signal::Red => Some(BlobSignalAction::SetPalette(Palette::new_screaming())),
        _ => None,
    }
}

} // verus!
