//! Wiring controls into the audio graph: each value slot a control exposes
//! becomes one parameter-source node in the graph, in the order the control
//! exposes its slots. Wiring is additive — the control is handed back
//! unchanged — and calling it again for the same control simply creates
//! further independent nodes.

use vstd::prelude::*;

use crate::widgets::Widget;

verus! {

/// The scalar type a parameter-source node carries per tick.
#[derive(Clone, Copy, Debug, PartialEq, Eq)]
pub enum SlotKind {
    /// A boolean level or pulse, as a button produces.
    Bool,
    /// A numeric value, as a knob or a draggable number field produces.
    Num,
}

/// A handle to one parameter-source node created in the graph. Handles are
/// issued in creation order: the node's identifier is its position among the
/// graph's parameter nodes.
#[derive(Clone, Copy, Debug, PartialEq, Eq)]
pub struct Node {
    id: usize,
}

impl Node {
    /// The node's position among the graph's parameter-source nodes.
    pub closed spec fn spec_id(&self) -> int {
        self.id as int
    }

    pub fn id(&self) -> (r: usize)
        ensures
            r as int == self.spec_id(),
    {
        self.id
    }
}

/// The audio-processing network, seen from the wiring step: the ordered list
/// of parameter-source nodes that have been created in it. Evaluation of the
/// nodes happens in the audio context, once per processing block.
pub struct Graph {
    params: Vec<SlotKind>,
}

impl Graph {
    /// The parameter-source nodes created so far, in creation order.
    pub closed spec fn params(&self) -> Seq<SlotKind> {
        self.params@
    }

    pub fn new() -> (g: Graph)
        ensures
            g.params() == Seq::<SlotKind>::empty(),
    {
        Graph { params: Vec::new() }
    }

    /// Creates one parameter-source node carrying values of `kind` and
    /// returns its handle. The new node comes after every node created
    /// before it.
    pub fn add_param_node(&mut self, kind: SlotKind) -> (n: Node)
        ensures
            final(self).params() == old(self).params().push(kind),
            n.spec_id() == old(self).params().len(),
    {
        let id = self.params.len();
        self.params.push(kind);
        Node { id }
    }

    /// How many parameter-source nodes the graph holds.
    pub fn param_count(&self) -> (r: usize)
        ensures
            r == self.params().len(),
    {
        self.params.len()
    }

    /// The scalar kind the parameter-source node behind `node` carries.
    pub fn param_kind(&self, node: Node) -> (k: SlotKind)
        requires
            0 <= node.spec_id() < self.params().len(),
        ensures
            k == self.params()[node.spec_id()],
    {
        self.params[node.id]
    }
}

impl Default for Graph {
    fn default() -> (g: Self)
        ensures
            g.params() == Seq::<SlotKind>::empty(),
    {
        Graph::new()
    }
}

/// The wiring step: binds every slot a control exposes into the graph as one
/// parameter-source node each.
pub trait IcedGraph {
    /// The parameter-source nodes this graph holds, in creation order.
    spec fn spec_params(&self) -> Seq<SlotKind>;

    /// Binds `widget` into the graph: one parameter-source node per slot the
    /// control exposes, in the order the control exposes them. The control is
    /// handed back unchanged, together with the handles of the created nodes,
    /// for downstream connection by the caller.
    fn add_widget<W: Widget>(&mut self, widget: W) -> (r: (W, Vec<Node>))
        requires
            widget.wf(),
        ensures
            r.0 == widget,
            final(self).spec_params() == old(self).spec_params() + widget.slot_descs(),
            r.1@.len() == widget.slot_descs().len(),
            forall|i: int|
                0 <= i < r.1@.len() ==> r.1@[i].spec_id() == old(self).spec_params().len() + i,
    ;
}

impl IcedGraph for Graph {
    open spec fn spec_params(&self) -> Seq<SlotKind> {
        self.params()
    }

    fn add_widget<W: Widget>(&mut self, widget: W) -> (r: (W, Vec<Node>)) {
        let nodes = widget.add_params(self);
        (widget, nodes)
    }
}

} // verus!
