use raug_iced::builder::{Graph, IcedGraph, SlotKind};
use raug_iced::widgets::{Button, DragNumber, Knob, Widget};

#[test]
fn binding_creates_one_node_per_slot() {
    let mut g = Graph::new();
    assert_eq!(g.param_count(), 0);
    let (_button, nodes) = g.add_widget(Button::new("beep"));
    assert_eq!(nodes.len(), 1);
    assert_eq!(nodes[0].id(), 0);
    assert_eq!(g.param_count(), 1);
}

#[test]
fn binding_preserves_exposure_order() {
    let mut g = Graph::new();
    let (_b, b_nodes) = g.add_widget(Button::new("beep"));
    let (_k, k_nodes) = g.add_widget(Knob::new(90, 60, 120));
    let (_d, d_nodes) = g.add_widget(DragNumber::new(0));
    assert_eq!(b_nodes[0].id(), 0);
    assert_eq!(k_nodes[0].id(), 1);
    assert_eq!(d_nodes[0].id(), 2);
    assert_eq!(g.param_count(), 3);
}

#[test]
fn binding_twice_creates_independent_nodes() {
    let mut g = Graph::new();
    let (k, first) = g.add_widget(Knob::new(0, 0, 10));
    let (_k, second) = g.add_widget(k);
    assert_eq!(first[0].id(), 0);
    assert_eq!(second[0].id(), 1);
    assert_eq!(g.param_count(), 2);
}

#[test]
fn param_nodes_carry_slot_kind() {
    let mut g = Graph::new();
    let b = Button::new("beep");
    let k = Knob::new(0, 0, 10);
    let b_nodes = b.add_params(&mut g);
    let k_nodes = k.add_params(&mut g);
    assert_eq!(b_nodes.len(), 1);
    assert_eq!(k_nodes.len(), 1);
    assert_eq!(g.param_kind(b_nodes[0]), SlotKind::Bool);
    assert_eq!(g.param_kind(k_nodes[0]), SlotKind::Num);
}

#[test]
fn wiring_returns_control_unchanged() {
    let mut g = Graph::new();
    let (k, _nodes) = g.add_widget(Knob::new(90, 60, 120));
    assert_eq!(k.current_value(), 90);
}
