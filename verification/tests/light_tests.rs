use nightfire::light::cmap::{ColorMap, ManualMode, StaticSolidMap};
use nightfire::light::color::{Color, PIN_MAX};
use nightfire::light::coord::{Coordinate, Quadrant};
use nightfire::light::layer::{Layer, Layers};
use nightfire::light::mask::{ActivatableMask, AddMask, DiscretePosMask, Mask, SolidMask};
use nightfire::light::pattern_generator::{get_default_pattern, get_default_pattern2, PatternGenerator};

fn tl() -> Coordinate {
    Coordinate(-100, 100)
}
fn tr() -> Coordinate {
    Coordinate(100, 100)
}
fn bl() -> Coordinate {
    Coordinate(-100, -100)
}
fn br() -> Coordinate {
    Coordinate(100, -100)
}

#[test]
fn quadrant_of_coordinates() {
    assert_eq!(Quadrant::from_coordinate(&tl()), Quadrant::TL);
    assert_eq!(Quadrant::from_coordinate(&tr()), Quadrant::TR);
    assert_eq!(Quadrant::from_coordinate(&bl()), Quadrant::BL);
    assert_eq!(Quadrant::from_coordinate(&br()), Quadrant::BR);
    // the axes belong to the left and the bottom quadrants
    assert_eq!(Quadrant::from_coordinate(&Coordinate(0, 0)), Quadrant::BL);
    assert_eq!(Quadrant::from_coordinate(&Coordinate(0, 5)), Quadrant::TL);
    assert_eq!(Quadrant::from_coordinate(&Coordinate(5, 0)), Quadrant::BR);
}

#[test]
fn length_thresholds() {
    // a tenth of 255 is 25.5
    assert!(!Coordinate(25, 0).length_exceeds(1, 10));
    assert!(Coordinate(26, 0).length_exceeds(1, 10));
    assert!(!Coordinate(25, 5).length_exceeds(1, 10));
    assert!(Coordinate(25, 6).length_exceeds(1, 10));
    // three quarters of 255 is 191.25
    assert!(!Coordinate(0, -191).length_exceeds(3, 4));
    assert!(Coordinate(0, -192).length_exceeds(3, 4));
    assert!(Coordinate(i32::MIN, i32::MAX).length_exceeds(255, 1));
}

#[test]
fn mixing_colors() {
    let a = Color::new(0, 100, 255);
    let b = Color::new(255, 200, 0);
    assert_eq!(a.mix(&b, 0), a);
    assert_eq!(a.mix(&b, PIN_MAX), b);
    // (0 * 155 + 255 * 100) / 255 = 100, (100 * 155 + 200 * 100) / 255 = 139, (255 * 155) / 255 = 155
    assert_eq!(a.mix(&b, 100), Color::new(100, 139, 155));
}

#[test]
fn static_solid_map_keeps_color() {
    let mut m = StaticSolidMap::new(Color::red());
    assert_eq!(m.get_color(&tl()), Color::new(255, 0, 0));
    assert_eq!(m.get_color(&br()), Color::new(255, 0, 0));
    m.set_color(Color::blue());
    assert_eq!(m.get_color(&tr()), Color::new(0, 0, 255));
}

#[test]
fn manual_mode_defaults() {
    let m = ManualMode::new();
    assert_eq!(m.get_color(&tl()), Color::red());
    assert_eq!(m.get_color(&tr()), Color::yellow());
    assert_eq!(m.get_color(&bl()), Color::blue());
    assert_eq!(m.get_color(&br()), Color::green());
}

#[test]
fn manual_mode_setters() {
    let w = Color::white();
    let mut m = ManualMode::new();
    m.set_color(Quadrant::BL, w);
    assert_eq!(m.bl_color, w);
    assert_eq!(m.tl_color, Color::red());
    let mut m = ManualMode::new();
    m.set_major_diag(w);
    assert_eq!((m.tl_color, m.tr_color, m.bl_color, m.br_color), (w, Color::yellow(), Color::blue(), w));
    let mut m = ManualMode::new();
    m.set_minor_diag(w);
    assert_eq!((m.tl_color, m.tr_color, m.bl_color, m.br_color), (Color::red(), w, w, Color::green()));
    let mut m = ManualMode::new();
    m.set_top(w);
    assert_eq!((m.tl_color, m.tr_color, m.bl_color, m.br_color), (w, w, Color::blue(), Color::green()));
    let mut m = ManualMode::new();
    m.set_bottom(w);
    assert_eq!((m.tl_color, m.tr_color, m.bl_color, m.br_color), (Color::red(), Color::yellow(), w, w));
    let mut m = ManualMode::new();
    m.set_left(w);
    assert_eq!((m.tl_color, m.tr_color, m.bl_color, m.br_color), (w, Color::yellow(), w, Color::green()));
    let mut m = ManualMode::new();
    m.set_right(w);
    assert_eq!((m.tl_color, m.tr_color, m.bl_color, m.br_color), (Color::red(), w, Color::blue(), w));
    let mut m = ManualMode::new();
    m.set_all(w);
    for p in [tl(), tr(), bl(), br()].iter() {
        assert_eq!(m.get_color(p), w);
    }
}

#[test]
fn manual_mode_rotations_and_flips() {
    let orig = ManualMode::new();
    let mut m = orig;
    m.rotate_cw();
    assert_eq!((m.tl_color, m.tr_color, m.br_color, m.bl_color), (Color::blue(), Color::red(), Color::yellow(), Color::green()));
    m.rotate_ccw();
    assert_eq!(m, orig);
    for _ in 0..4 {
        m.rotate_cw();
    }
    assert_eq!(m, orig);
    m.flip_v();
    assert_eq!((m.tl_color, m.tr_color, m.bl_color, m.br_color), (Color::blue(), Color::green(), Color::red(), Color::yellow()));
    m.flip_v();
    assert_eq!(m, orig);
    m.flip_h();
    assert_eq!((m.tl_color, m.tr_color, m.bl_color, m.br_color), (Color::yellow(), Color::red(), Color::green(), Color::blue()));
    m.flip_h();
    assert_eq!(m, orig);
    let mut half = orig;
    half.rotate_cw();
    half.rotate_cw();
    m.flip_v();
    m.flip_h();
    assert_eq!(m, half);
}

#[test]
fn discrete_pos_mask() {
    let mut m = DiscretePosMask::new(1, 2, 3, 4);
    assert_eq!(m.get_value(&tr()), 1);
    assert_eq!(m.get_value(&br()), 2);
    assert_eq!(m.get_value(&bl()), 3);
    assert_eq!(m.get_value(&tl()), 4);
    m.set_top(10);
    assert_eq!(m, DiscretePosMask::new(10, 2, 3, 10));
    m.set_bottom(20);
    assert_eq!(m, DiscretePosMask::new(10, 20, 20, 10));
    assert_eq!(m.get_masked_color(&tr(), Color::white()), Color::new(10, 10, 10));
}

#[test]
fn solid_and_activatable_masks() {
    let mut s = SolidMask::new();
    assert_eq!(s.get_value(&tl()), PIN_MAX);
    s.set_val(40);
    assert_eq!(s.get_value(&br()), 40);
    let mut a = ActivatableMask::new(s, false);
    assert!(!a.is_active());
    assert_eq!(a.get_value(&tl()), PIN_MAX);
    a.switch_active();
    assert!(a.is_active());
    assert_eq!(a.get_value(&tl()), 40);
    a.switch_active();
    assert!(!a.is_active());
    a.set_active(true);
    assert!(a.is_active());
    a.mask.set_val(7);
    assert_eq!(a.get_value(&bl()), 7);
}

#[test]
fn add_mask_caps_at_one() {
    let mut m1 = SolidMask::new();
    m1.set_val(100);
    let mut m2 = SolidMask::new();
    m2.set_val(100);
    let add = AddMask::new(m1, m2);
    assert_eq!(add.get_value(&tl()), 200);
    let mut m3 = SolidMask::new();
    m3.set_val(200);
    let add = AddMask::new(add, m3);
    assert_eq!(add.get_value(&tl()), PIN_MAX);
}

#[test]
fn layers_mix_with_color_below() {
    let mut mask = SolidMask::new();
    let layer = Layer::new(StaticSolidMap::new(Color::white()), SolidMask::new());
    // mask at 1: fully transparent, the color below
    assert_eq!(layer.get_color(&tl(), Color::blue()), Color::blue());
    mask.set_val(0);
    let layer = Layers::new_solid(Color::white(), mask);
    // mask at 0: not transparent, the layer's own color
    assert_eq!(layer.get_color(&tl(), Color::blue()), Color::white());
    let mut half = SolidMask::new();
    half.set_val(51);
    let layer = Layers::new_solid(Color::white(), half);
    // white over black, transparent by 51/255: 204 on every channel
    assert_eq!(layer.get_color(&tl(), Color::black()), Color::new(204, 204, 204));
}

#[test]
fn mask_layer_is_off_by_default() {
    let mut inner = SolidMask::new();
    inner.set_val(0);
    let mut layer = Layers::new_mask(inner);
    assert!(!layer.mask.is_active());
    // inactive: the mask is fully open and the layer fully transparent
    assert_eq!(layer.get_color(&tr(), Color::red()), Color::red());
    layer.mask.set_active(true);
    // active at 0: the black layer covers the color below
    assert_eq!(layer.get_color(&tr(), Color::red()), Color::black());
}

#[test]
fn default_patterns() {
    let p = get_default_pattern();
    assert_eq!(p.len(), 4);
    assert_eq!(p[0].changes.len(), 2);
    assert_eq!(p[0].changes[0].quadrant, Quadrant::TL);
    assert_eq!(p[0].changes[1].quadrant, Quadrant::BR);
    assert_eq!(p[0].changes[0].color, Color::blue());
    assert_eq!(p[1].changes[0].color, Color::red());
    assert_eq!(p[2].changes[0].color, Color::yellow());
    assert_eq!(p[3].changes[1].quadrant, Quadrant::BL);
    assert_eq!(p[3].changes[1].color, Color::green());
    let p2 = get_default_pattern2();
    assert_eq!(p2.len(), 4);
    assert_eq!(p2[0].changes.len(), 4);
    assert_eq!(p2[1].changes.len(), 2);
    assert_eq!(p2[1].changes[0].quadrant, Quadrant::TR);
    assert_eq!(p2[1].changes[1].quadrant, Quadrant::TL);
    assert_eq!(p2[3].changes[0].color, Color::yellow());
}

#[test]
fn pattern_generator_cycles() {
    let mut g = PatternGenerator::new();
    let sizes: Vec<usize> = (0..9).map(|_| g.next_pattern().changes.len()).collect();
    assert_eq!(sizes, vec![4, 2, 4, 2, 4, 2, 4, 2, 4]);
    let mut g = PatternGenerator::new();
    g.next_pattern();
    assert_eq!(g.next_pattern().changes[0].color, Color::red());
    g.next_pattern();
    assert_eq!(g.next_pattern().changes[0].color, Color::yellow());
    assert_eq!(g.next_pattern().changes[0].color, Color::blue());
}
