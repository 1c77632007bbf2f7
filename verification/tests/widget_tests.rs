use raug_iced::widgets::{Button, DragNumber, Knob, Normal, Visual, Widget};
use raug_iced::NORMAL_UNIT;

#[test]
fn knob_range_mapping_low_end() {
    let mut k = Knob::new(90, 60, 120);
    k.update(Normal::from_clipped(0));
    assert_eq!(k.current_value(), 60);
}

#[test]
fn knob_range_mapping_high_end() {
    let mut k = Knob::new(90, 60, 120);
    k.update(Normal::from_clipped(NORMAL_UNIT));
    assert_eq!(k.current_value(), 120);
}

#[test]
fn knob_range_mapping_midpoint() {
    let mut k = Knob::new(60, 60, 120);
    k.update(Normal::from_clipped(NORMAL_UNIT / 2));
    assert_eq!(k.current_value(), 90);
}

#[test]
fn knob_new_places_initial_value() {
    let k = Knob::new(90, 60, 120);
    assert_eq!(k.current_value(), 90);
    assert_eq!(k.normal_units(), NORMAL_UNIT / 2);
}

#[test]
fn knob_new_clamps_initial_value() {
    let k = Knob::new(200, 60, 120);
    assert_eq!(k.current_value(), 120);
    assert_eq!(k.normal_units(), NORMAL_UNIT);
    let k = Knob::new(-5, 60, 120);
    assert_eq!(k.current_value(), 60);
    assert_eq!(k.normal_units(), 0);
}

#[test]
fn knob_update_clips_incoming_event() {
    let mut k = Knob::new(60, 60, 120);
    k.update(Normal::from_clipped(2 * NORMAL_UNIT));
    assert_eq!(k.current_value(), 120);
    k.update(Normal::from_clipped(-NORMAL_UNIT));
    assert_eq!(k.current_value(), 60);
}

#[test]
fn knob_degenerate_range_sticks_to_single_value() {
    let mut k = Knob::new(7, 5, 5);
    assert_eq!(k.current_value(), 5);
    assert_eq!(k.normal_units(), 0);
    k.update(Normal::from_clipped(NORMAL_UNIT));
    assert_eq!(k.current_value(), 5);
}

#[test]
fn default_knob_maps_identity() {
    let mut k = Knob::default();
    assert_eq!(k.current_value(), 0);
    k.update(Normal::from_clipped(NORMAL_UNIT / 2));
    assert_eq!(k.current_value(), NORMAL_UNIT / 2);
    k.update(Normal::from_clipped(NORMAL_UNIT));
    assert_eq!(k.current_value(), NORMAL_UNIT);
}

#[test]
fn knob_default_position_is_initial_and_kept() {
    let mut k = Knob::new(90, 60, 120);
    assert_eq!(k.default_units(), NORMAL_UNIT / 2);
    k.update(Normal::from_clipped(0));
    assert_eq!(k.normal_units(), 0);
    assert_eq!(k.default_units(), NORMAL_UNIT / 2);
}

#[test]
fn knob_view_reports_normal_position() {
    let k = Knob::new(90, 60, 120);
    assert_eq!(k.view(), Visual::Knob { normal: NORMAL_UNIT / 2 });
}

#[test]
fn button_press_is_single_event() {
    let mut b = Button::new("beep");
    b.update(());
    assert_eq!(b.poll_pressed(), Some(true));
    assert_eq!(b.poll_pressed(), None);
    b.update(());
    assert_eq!(b.poll_pressed(), Some(true));
    assert_eq!(b.poll_pressed(), None);
}

#[test]
fn button_unpressed_before_first_press() {
    let mut b = Button::new("beep");
    assert_eq!(b.poll_pressed(), None);
}

#[test]
fn button_view_carries_label() {
    let b = Button::new("beep");
    assert_eq!(b.view(), Visual::Button { label: "beep".to_string() });
}

#[test]
fn button_params_hold_the_press_slot() {
    let mut b = Button::new("beep");
    b.update(());
    let mut p = b.into_params();
    assert_eq!(p.pressed.read_and_clear_flag(), Some(true));
    assert_eq!(p.pressed.read_and_clear_flag(), None);
}

#[test]
fn drag_number_stores_verbatim() {
    let mut d = DragNumber::new(5);
    assert_eq!(d.current_value(), 5);
    d.update(-123_456);
    assert_eq!(d.current_value(), -123_456);
    assert_eq!(d.view(), Visual::DragNumber { value: -123_456 });
}
