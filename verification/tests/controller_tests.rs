use nightfire::light::coord::{Coordinate, Quadrant};
use nightfire::sixaxis::controller::{Axis, Button, Controller, ControllerValues};
use nightfire::mode::manual::{get_quad_from_controller, wants_stick_color};

fn centered() -> [u8; 20] {
    let mut buf = [0u8; 20];
    buf[6] = 127;
    buf[7] = 128;
    buf[8] = 128;
    buf[9] = 127;
    buf
}

#[test]
fn buttons_and_axes_from_bytes() {
    let mut buf = [0u8; 20];
    buf[4] = 0b0000_0001; // PS
    buf[2] = 0b1000_1000; // Left and Start
    buf[3] = 0b0100_0000; // Cross
    buf[18] = 200;
    let v = ControllerValues::new(buf);
    assert!(v.is_pressed(Button::PS));
    assert!(v.is_pressed(Button::Left));
    assert!(v.is_pressed(Button::Start));
    assert!(v.is_pressed(Button::Cross));
    assert!(!v.is_pressed(Button::Square));
    assert!(!v.is_pressed(Button::Select));
    assert_eq!(v.get_axis_val(Axis::L3), 200);
    assert_eq!(v.get_axis_val(Axis::R3), 0);
    let e = ControllerValues::new_empty();
    assert!(!e.is_pressed(Button::PS));
    assert_eq!(e.buf, [0u8; 20]);
}

#[test]
fn values_from_blob() {
    assert!(ControllerValues::from_blob(&vec![1u8; 19]).is_none());
    assert!(ControllerValues::from_blob(&vec![1u8; 21]).is_none());
    let blob: Vec<u8> = (0..20).collect();
    let v = ControllerValues::from_blob(&blob).unwrap();
    assert_eq!(v.buf.to_vec(), blob);
}

#[test]
fn presses_and_releases() {
    let mut c = Controller::new(ControllerValues::new(centered()));
    assert!(!c.was_pressed(Button::Triangle));
    assert!(!c.was_released(Button::Triangle));
    let mut buf = centered();
    buf[3] = 0b0001_0000; // Triangle
    c.update(ControllerValues::new(buf));
    assert!(c.was_pressed(Button::Triangle));
    assert!(c.is_pressed(Button::Triangle));
    assert!(!c.was_released(Button::Triangle));
    assert_eq!(c.was_pressed_buttons(), vec![Button::Triangle]);
    c.update(ControllerValues::new(buf));
    assert!(!c.was_pressed(Button::Triangle));
    assert!(c.is_pressed(Button::Triangle));
    assert!(c.was_pressed_buttons().is_empty());
    c.update(ControllerValues::new(centered()));
    assert!(c.was_released(Button::Triangle));
    assert!(!c.is_pressed(Button::Triangle));
}

#[test]
fn stick_positions() {
    let mut buf = [0u8; 20];
    buf[6] = 255; // LX right
    buf[7] = 0; // LY up
    buf[8] = 0; // RX left
    buf[9] = 255; // RY down
    let c = Controller::new(ControllerValues::new(buf));
    assert_eq!(c.left_pos(), Coordinate(255, 255));
    assert_eq!(c.right_pos(), Coordinate(-255, -255));
    let c = Controller::new(ControllerValues::new(centered()));
    assert_eq!(c.left_pos(), Coordinate(-1, -1));
    assert_eq!(c.right_pos(), Coordinate(1, 1));
}

#[test]
fn triggers() {
    let mut buf = centered();
    buf[18] = 255;
    buf[19] = 17;
    let c = Controller::new(ControllerValues::new(buf));
    assert_eq!(c.left_trigger(), 255);
    assert_eq!(c.right_trigger(), 17);
}

#[test]
fn any_input() {
    let c = Controller::new(ControllerValues::new(centered()));
    assert!(!c.has_any_input());
    let mut buf = centered();
    buf[19] = 25;
    assert!(!Controller::new(ControllerValues::new(buf)).has_any_input());
    buf[19] = 26;
    assert!(Controller::new(ControllerValues::new(buf)).has_any_input());
    let mut buf = centered();
    buf[6] = 160; // x = 65
    assert!(Controller::new(ControllerValues::new(buf)).has_any_input());
    let mut buf = centered();
    buf[3] = 0b1000_0000; // Square, the last button queried
    assert!(Controller::new(ControllerValues::new(buf)).has_any_input());
}

#[test]
fn quadrant_and_color_from_sticks() {
    let c = Controller::new(ControllerValues::new(centered()));
    assert_eq!(get_quad_from_controller(&c), None);
    assert!(!wants_stick_color(&c));
    let mut buf = centered();
    buf[6] = 0; // left stick to the left
    buf[7] = 0; // and up
    buf[8] = 255; // right stick to the right
    let c = Controller::new(ControllerValues::new(buf));
    assert_eq!(get_quad_from_controller(&c), Some(Quadrant::TL));
    assert!(wants_stick_color(&c));
}
