//! The controls: a button, a knob and a draggable number field, unified by
//! the [`Widget`] capability set — render a visual description, accept a
//! typed interaction event, and expose value slots for wiring into the audio
//! graph. Positions and values are carried as fixed-point integers: a
//! normalized position lives in `0..=NORMAL_UNIT`.

use vstd::prelude::*;

use crate::NORMAL_UNIT;
use crate::builder::{Graph, Node, SlotKind};
use crate::slot::Channel;

verus! {

/// A pure description of a control's on-screen appearance, for the view layer
/// to draw.
#[derive(Clone, Debug, PartialEq, Eq)]
pub enum Visual {
    /// A pressable button with its label.
    Button { label: String },
    /// A knob at a normalized position in `0..=NORMAL_UNIT`.
    Knob { normal: i64 },
    /// A draggable numeric field showing its current value.
    DragNumber { value: i64 },
}

/// `v` pulled into the closed unit interval: below it becomes the low end,
/// above it becomes the high end.
pub open spec fn spec_clipped(v: int) -> int {
    spec_clamp(v, 0, NORMAL_UNIT as int)
}

/// A normalized control position in the closed unit interval, carried as a
/// count of `NORMAL_UNIT` fixed-point units.
#[derive(Clone, Copy, Debug, PartialEq, Eq, Structural)]
pub struct Normal {
    units: i64,
}

impl Normal {
    /// The position as fixed-point units: `0` is the low end of the interval,
    /// `NORMAL_UNIT` the high end.
    pub closed spec fn units(&self) -> i64 {
        self.units
    }

    /// A position never leaves the unit interval.
    pub open spec fn wf(&self) -> bool {
        0 <= self.units() <= NORMAL_UNIT
    }

    /// Builds a position from raw units, clipping into the unit interval.
    pub fn from_clipped(raw: i64) -> (n: Normal)
        ensures
            n.units() == spec_clipped(raw as int),
            n.wf(),
    {
        let units = if raw < 0 {
            0
        } else if raw > NORMAL_UNIT {
            NORMAL_UNIT
        } else {
            raw
        };
        Normal { units }
    }

    pub fn as_units(&self) -> (r: i64)
        ensures
            r == self.units(),
    {
        self.units
    }
}

/// A knob's normalized state: its current position and the default it was
/// created at.
#[derive(Clone, Copy, Debug, PartialEq, Eq, Structural)]
pub struct NormalParam {
    pub value: Normal,
    pub default: Normal,
}

impl NormalParam {
    /// Moves the position; the default stays what it was.
    pub fn update(&mut self, n: Normal)
        ensures
            final(self).value == n,
            final(self).default == old(self).default,
    {
        self.value = n;
    }
}

/// A control that lives in both worlds: it renders in the UI context and its
/// value slots feed the audio graph.
///
/// `update` runs on the UI context; the slots it writes are read from the
/// audio context once per processing tick. A control's slot layout never
/// changes: wiring done once stays valid across every update.
pub trait Widget: Sized {
    /// The interaction event this control accepts.
    type Message;

    /// The control's structural well-formedness; constructors establish it
    /// and `update` keeps it.
    spec fn wf(&self) -> bool;

    /// The slots this control exposes for wiring, in exposure order.
    spec fn slot_descs(&self) -> Seq<SlotKind>;

    /// What the control looks like right now; rendering is a pure function of
    /// the control's state.
    spec fn spec_view(&self) -> Visual;

    /// The control as one interaction event leaves it: `update` performs
    /// exactly this transition.
    spec fn spec_updated(self, message: Self::Message) -> Self;

    /// Renders the control's current visual description, with no side effect.
    fn view(&self) -> (v: Visual)
        requires
            self.wf(),
        ensures
            v == self.spec_view(),
    ;

    /// Applies one interaction event: updates display state and writes the
    /// control's value slots, performing exactly the [`Widget::spec_updated`]
    /// transition. The slot layout stays as it was.
    fn update(&mut self, message: Self::Message)
        requires
            old(self).wf(),
        ensures
            final(self).wf(),
            final(self).slot_descs() == old(self).slot_descs(),
            *final(self) == old(self).spec_updated(message),
    ;

    /// Creates one parameter-source node in `graph` for each slot this
    /// control exposes, in exposure order, and returns the node handles.
    fn add_params(&self, graph: &mut Graph) -> (nodes: Vec<Node>)
        requires
            self.wf(),
        ensures
            final(graph).params() == old(graph).params() + self.slot_descs(),
            nodes@.len() == self.slot_descs().len(),
            forall|i: int|
                0 <= i < nodes@.len() ==> nodes@[i].spec_id() == old(graph).params().len() + i,
    ;
}

/// The slots a button exposes, bundled for a caller that wants to hold them
/// by name.
pub struct ButtonParams {
    pub pressed: Channel<bool>,
}

/// A button that registers a press as one discrete event. The press is
/// edge-triggered: the slot's pending flag is set once per press, so the
/// audio context observes exactly one event per press rather than a
/// sustained level.
pub struct Button {
    label: String,
    pressed: Channel<bool>,
}

impl Button {
    /// The button's label, as shown in its visual description.
    pub closed spec fn spec_label(&self) -> Seq<char> {
        self.label@
    }

    /// The button's press slot.
    pub closed spec fn slot(&self) -> Channel<bool> {
        self.pressed
    }

    /// A fresh button: not pressed, nothing pending.
    pub fn new(label: &str) -> (b: Button)
        ensures
            b.spec_label() == label@,
            b.slot() == Channel::spec_new(false),
            b.slot().value() == false,
            !b.slot().is_fresh(),
            b.wf(),
    {
        Button { label: label.to_owned(), pressed: Channel::new(false) }
    }

    /// Hands the button's slots out by name, for a caller that holds them
    /// directly instead of wiring them through a graph.
    pub fn into_params(self) -> (p: ButtonParams)
        ensures
            p.pressed == self.slot(),
    {
        let Button { label: _, pressed } = self;
        ButtonParams { pressed }
    }

    /// The audio-side read of the press slot: the pending press exactly once,
    /// nothing until the next press.
    pub fn poll_pressed(&mut self) -> (r: Option<bool>)
        ensures
            (r, final(self).slot()) == old(self).slot().spec_take(),
            final(self).spec_label() == old(self).spec_label(),
    {
        self.pressed.read_and_clear_flag()
    }
}

impl Widget for Button {
    type Message = ();

    open spec fn wf(&self) -> bool {
        true
    }

    open spec fn slot_descs(&self) -> Seq<SlotKind> {
        seq![SlotKind::Bool]
    }

    closed spec fn spec_view(&self) -> Visual {
        Visual::Button { label: self.label }
    }

    /// A press leaves the label alone and puts one pending `true` event in
    /// the press slot.
    closed spec fn spec_updated(self, message: ()) -> Self {
        Button { label: self.label, pressed: self.pressed.spec_write(true) }
    }

    fn view(&self) -> (v: Visual)
        ensures
            (v matches Visual::Button { label } && label@ == self.spec_label()),
    {
        Visual::Button { label: self.label.clone() }
    }

    /// A press writes one edge-triggered `true` event into the press slot;
    /// the event is consumed by exactly one audio-side read.
    fn update(&mut self, message: ())
        ensures
            final(self).slot() == old(self).slot().spec_write(true),
            final(self).slot().value() == true,
            final(self).slot().is_fresh(),
            final(self).spec_label() == old(self).spec_label(),
    {
        self.pressed.write(true);
    }

    fn add_params(&self, graph: &mut Graph) -> (nodes: Vec<Node>) {
        let node = graph.add_param_node(SlotKind::Bool);
        proof {
            assert(old(graph).params().push(SlotKind::Bool) =~= old(graph).params() + seq![
                SlotKind::Bool,
            ]);
        }
        let mut nodes: Vec<Node> = Vec::new();
        nodes.push(node);
        nodes
    }
}

/// The configured range applied to a normalized position: the low end at
/// position `0`, the high end at position `NORMAL_UNIT`, linear in between
/// (at the fixed-point resolution).
pub open spec fn knob_value(min: int, max: int, units: int) -> int {
    min + (units * (max - min)) / (NORMAL_UNIT as int)
}

/// `v` pulled into `lo..=hi`.
pub open spec fn spec_clamp(v: int, lo: int, hi: int) -> int {
    if v < lo {
        lo
    } else if v > hi {
        hi
    } else {
        v
    }
}

/// The largest magnitude a knob's range ends may have, so that the
/// fixed-point range mapping never overflows a 64-bit value.
pub const KNOB_RANGE_LIMIT: i64 = 1_000_000_000;

/// A knob over a bounded range `min..=max`: it holds a normalized position
/// and writes the linearly mapped value into its slot on every turn.
pub struct Knob {
    value: Channel<i64>,
    normal_param: NormalParam,
    max: i64,
    min: i64,
}

impl Knob {
    /// The low end of the configured range.
    pub closed spec fn spec_min(&self) -> i64 {
        self.min
    }

    /// The high end of the configured range.
    pub closed spec fn spec_max(&self) -> i64 {
        self.max
    }

    /// The current normalized position, in fixed-point units.
    pub closed spec fn spec_normal(&self) -> i64 {
        self.normal_param.value.units()
    }

    /// The default normalized position, set at construction and never moved
    /// by a turn.
    pub closed spec fn spec_default(&self) -> i64 {
        self.normal_param.default.units()
    }

    /// The knob's value slot.
    pub closed spec fn slot(&self) -> Channel<i64> {
        self.value
    }

    /// A knob at `init` over `min..=max`; an initial value outside the range
    /// is pulled onto the nearer end. The normalized position is where `init`
    /// sits in the range, and also becomes the default position.
    pub fn new(init: i64, min: i64, max: i64) -> (k: Knob)
        requires
            -KNOB_RANGE_LIMIT <= min <= max <= KNOB_RANGE_LIMIT,
        ensures
            k.wf(),
            k.spec_min() == min,
            k.spec_max() == max,
            k.slot() == Channel::spec_new(spec_clamp(init as int, min as int, max as int) as i64),
            k.slot().value() == spec_clamp(init as int, min as int, max as int),
            !k.slot().is_fresh(),
            min < max ==> k.spec_normal() == (spec_clamp(init as int, min as int, max as int) - min)
                * NORMAL_UNIT / (max - min),
            min == max ==> k.spec_normal() == 0,
            k.spec_default() == k.spec_normal(),
    {
        let init = if init < min {
            min
        } else if init > max {
            max
        } else {
            init
        };
        let off = init - min;
        let span = max - min;
        let normal_units: i64 = if span > 0 {
            proof {
                assert(0 <= off * NORMAL_UNIT <= span * NORMAL_UNIT) by (nonlinear_arith)
                    requires
                        0 <= off <= span,
                        NORMAL_UNIT > 0,
                ;
                assert(0 <= (off * NORMAL_UNIT) / (span as int) <= NORMAL_UNIT) by (nonlinear_arith)
                    requires
                        0 <= off * NORMAL_UNIT <= span * NORMAL_UNIT,
                        span > 0,
                        NORMAL_UNIT > 0,
                ;
            }
            (off * NORMAL_UNIT) / span
        } else {
            0
        };
        let normal = Normal { units: normal_units };
        Knob {
            value: Channel::new(init),
            normal_param: NormalParam { value: normal, default: normal },
            max,
            min,
        }
    }

    /// The value the audio context would read from the knob's slot right now.
    pub fn current_value(&self) -> (r: i64)
        ensures
            r == self.slot().value(),
    {
        self.value.read()
    }

    /// The current normalized position, in fixed-point units.
    pub fn normal_units(&self) -> (r: i64)
        ensures
            r == self.spec_normal(),
    {
        self.normal_param.value.as_units()
    }

    /// The default normalized position, in fixed-point units.
    pub fn default_units(&self) -> (r: i64)
        ensures
            r == self.spec_default(),
    {
        self.normal_param.default.as_units()
    }
}

impl Default for Knob {
    /// A knob over the unconfigured range: the unit interval itself, so the
    /// mapped value equals the normalized position and the knob starts at the
    /// low end.
    fn default() -> (k: Self)
        ensures
            k.wf(),
            k.spec_min() == 0,
            k.spec_max() == NORMAL_UNIT,
            k.slot().value() == 0,
            k.spec_normal() == 0,
            k.spec_default() == 0,
    {
        Knob::new(0, 0, NORMAL_UNIT)
    }
}

impl Widget for Knob {
    type Message = Normal;

    open spec fn wf(&self) -> bool {
        &&& -KNOB_RANGE_LIMIT <= self.spec_min() <= self.spec_max() <= KNOB_RANGE_LIMIT
        &&& 0 <= self.spec_normal() <= NORMAL_UNIT
    }

    open spec fn slot_descs(&self) -> Seq<SlotKind> {
        seq![SlotKind::Num]
    }

    closed spec fn spec_view(&self) -> Visual {
        Visual::Knob { normal: self.normal_param.value.units() }
    }

    /// A turn clips the incoming position, remembers it, and writes the
    /// mapped value; the range and the default position stay what they were.
    closed spec fn spec_updated(self, message: Normal) -> Self {
        Knob {
            value: self.value.spec_write(
                knob_value(
                    self.min as int,
                    self.max as int,
                    spec_clipped(message.units() as int),
                ) as i64,
            ),
            normal_param: NormalParam {
                value: Normal { units: spec_clipped(message.units() as int) as i64 },
                default: self.normal_param.default,
            },
            max: self.max,
            min: self.min,
        }
    }

    fn view(&self) -> (v: Visual)
        ensures
            v == (Visual::Knob { normal: self.spec_normal() }),
    {
        Visual::Knob { normal: self.normal_param.value.as_units() }
    }

    /// A turn of the knob: the incoming normalized position is clipped into
    /// the unit interval, remembered as the new position, mapped linearly
    /// onto `min..=max`, and the mapped value is written into the slot.
    fn update(&mut self, message: Normal)
        ensures
            final(self).spec_min() == old(self).spec_min(),
            final(self).spec_max() == old(self).spec_max(),
            final(self).spec_default() == old(self).spec_default(),
            final(self).spec_normal() == spec_clipped(message.units() as int),
            final(self).slot() == old(self).slot().spec_write(
                knob_value(
                    old(self).spec_min() as int,
                    old(self).spec_max() as int,
                    spec_clipped(message.units() as int),
                ) as i64,
            ),
            final(self).slot().value() == knob_value(
                old(self).spec_min() as int,
                old(self).spec_max() as int,
                spec_clipped(message.units() as int),
            ),
            final(self).slot().is_fresh(),
    {
        let clipped = Normal::from_clipped(message.as_units());
        self.normal_param.update(clipped);
        let units = clipped.as_units();
        let span = self.max - self.min;
        proof {
            assert(0 <= units * span <= NORMAL_UNIT * (2 * KNOB_RANGE_LIMIT)) by (nonlinear_arith)
                requires
                    0 <= units <= NORMAL_UNIT,
                    0 <= span <= 2 * KNOB_RANGE_LIMIT,
            ;
        }
        let scaled = units * span;
        let mapped = self.min + scaled / NORMAL_UNIT;
        self.value.write(mapped);
    }

    fn add_params(&self, graph: &mut Graph) -> (nodes: Vec<Node>) {
        let node = graph.add_param_node(SlotKind::Num);
        proof {
            assert(old(graph).params().push(SlotKind::Num) =~= old(graph).params() + seq![
                SlotKind::Num,
            ]);
        }
        let mut nodes: Vec<Node> = Vec::new();
        nodes.push(node);
        nodes
    }
}

/// A draggable numeric field: it shows a number and writes every new value
/// into its slot verbatim, with no clamping.
pub struct DragNumber {
    value: Channel<i64>,
    shown: i64,
}

impl DragNumber {
    /// The value the field currently shows.
    pub closed spec fn spec_shown(&self) -> i64 {
        self.shown
    }

    /// The field's value slot.
    pub closed spec fn slot(&self) -> Channel<i64> {
        self.value
    }

    pub fn new(init: i64) -> (d: DragNumber)
        ensures
            d.slot() == Channel::spec_new(init),
            d.slot().value() == init,
            !d.slot().is_fresh(),
            d.spec_shown() == init,
    {
        DragNumber { value: Channel::new(init), shown: init }
    }

    /// The value the audio context would read from the field's slot right
    /// now.
    pub fn current_value(&self) -> (r: i64)
        ensures
            r == self.slot().value(),
    {
        self.value.read()
    }
}

impl Widget for DragNumber {
    type Message = i64;

    open spec fn wf(&self) -> bool {
        true
    }

    open spec fn slot_descs(&self) -> Seq<SlotKind> {
        seq![SlotKind::Num]
    }

    open spec fn spec_view(&self) -> Visual {
        Visual::DragNumber { value: self.spec_shown() }
    }

    /// A drag shows the new value and writes it into the slot verbatim.
    closed spec fn spec_updated(self, message: i64) -> Self {
        DragNumber { value: self.value.spec_write(message), shown: message }
    }

    fn view(&self) -> (v: Visual) {
        Visual::DragNumber { value: self.shown }
    }

    /// Stores the dragged value verbatim and writes it into the slot.
    fn update(&mut self, message: i64)
        ensures
            final(self).spec_shown() == message,
            final(self).slot() == old(self).slot().spec_write(message),
            final(self).slot().value() == message,
            final(self).slot().is_fresh(),
    {
        self.shown = message;
        self.value.write(message);
    }

    fn add_params(&self, graph: &mut Graph) -> (nodes: Vec<Node>) {
        let node = graph.add_param_node(SlotKind::Num);
        proof {
            assert(old(graph).params().push(SlotKind::Num) =~= old(graph).params() + seq![
                SlotKind::Num,
            ]);
        }
        let mut nodes: Vec<Node> = Vec::new();
        nodes.push(node);
        nodes
    }
}

} // verus!
