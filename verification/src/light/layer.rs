use vstd::prelude::*;
use crate::light::cmap::{ColorMap, StaticSolidMap};
use crate::light::color::{mix_spec, Color, PIN_MAX};
use crate::light::coord::Coordinate;
use crate::light::mask::{ActivatableMask, Mask};

verus! {

/// A masked color map layer: a color map and a mask over it.  When
/// the color for the layer is calculated, the layer receives the color
/// for the position from the layer below it.  The mask defines the
/// transparency: where it is 0 the layer is not transparent and shows
/// its own color, ignoring the color from below; where it is 1 the
/// layer is fully transparent and the color from below shows; in
/// between the two are mixed.
pub struct Layer<C, M> {
    pub map: C,
    pub mask: M,
}

impl<C: ColorMap, M: Mask> Layer<C, M> {
    pub fn new(color_map: C, mask: M) -> (l: Layer<C, M>)
        ensures
            l.map == color_map,
            l.mask == mask,
    {
        Layer {
            map: color_map,
            mask: mask,
        }
    }

    /// The color of this layer at `pos`, laid over `color`.
    pub open spec fn color_over(&self, pos: Coordinate, color: Color) -> Color {
        mix_spec(self.map.color_at(pos), color, self.mask.value_at(pos))
    }

    pub fn get_color(&self, pos: &Coordinate, color: Color) -> (c: Color)
        ensures
            c == self.color_over(*pos, color),
    {
        // mask 0 -> this layer's color (not transparent)
        // mask 1 -> the color from below (fully transparent)
        let v = self.mask.get_value(pos);
        self.map.get_color(pos).mix(&color, v)
    }
}

/// A solid layer is a convenience type for a static solid layer with
/// a mask.
pub type SolidLayer<M> = Layer<StaticSolidMap, M>;

pub type MaskLayer<M> = SolidLayer<ActivatableMask<M>>;

pub struct Layers;

impl Layers {
    /// Creates a layer with a solid color and a given mask.
    pub fn new_solid<M: Mask>(color: Color, mask: M) -> (l: SolidLayer<M>)
        ensures
            l.map.color() == color,
            l.mask == mask,
    {
        Layer::<StaticSolidMap, M> {
            map: StaticSolidMap::new(color),
            mask: mask,
        }
    }

    /// Creates a black layer with an activatable mask.  The mask is
    /// off by default, which leaves the layer fully transparent.
    pub fn new_mask<M: Mask>(mask: M) -> (l: MaskLayer<M>)
        ensures
            l.map.color() == (Color { red: 0, green: 0, blue: 0 }),
            l.mask.inner() == mask,
            !l.mask.active(),
    {
        Layer::<StaticSolidMap, ActivatableMask<M>> {
            map: StaticSolidMap::new(Color::black()),
            mask: ActivatableMask::<M>::new(mask, false),
        }
    }
}

/// Where the mask of a layer is 0 the layer shows its own color, where
/// it is 1 the color from below shows through unchanged.
pub proof fn lemma_layer_extremes<C: ColorMap, M: Mask>(layer: Layer<C, M>, pos: Coordinate, below: Color)
    ensures
        layer.mask.value_at(pos) == 0 ==> layer.color_over(pos, below) == layer.map.color_at(pos),
        layer.mask.value_at(pos) == PIN_MAX ==> layer.color_over(pos, below) == below,
{
}

} // verus!
