//! Runtime witness of which actor planes a request travelled through.

use vstd::prelude::*;

verus! {

/// Compares two labels by their characters.
pub(crate) fn labels_equal(left: &str, right: &str) -> (equal: bool)
    ensures
        equal == (left@ == right@),
{
    left.to_owned() == right.to_owned()
}

/// One named actor plane.
#[derive(Debug, Clone, Copy, PartialEq, Eq, Hash)]
pub struct TraceNode {
    label: &'static str,
}

impl View for TraceNode {
    type V = Seq<char>;

    closed spec fn view(&self) -> Seq<char> {
        self.label@
    }
}

impl TraceNode {
    pub fn new(label: &'static str) -> (node: Self)
        ensures
            node@ == label@,
    {
        Self { label }
    }

    pub fn label(self) -> (label: &'static str)
        ensures
            label@ == self@,
    {
        self.label
    }

    /// Whether two nodes carry the same label.
    pub fn same_node(self, other: Self) -> (same: bool)
        ensures
            same == (self@ == other@),
    {
        labels_equal(self.label, other.label)
    }

    pub fn spirit_root() -> (node: Self)
        ensures
            node@ == "SpiritRoot"@,
    {
        Self::new("SpiritRoot")
    }

    pub fn ingress_phase() -> (node: Self)
        ensures
            node@ == "IngressPhase"@,
    {
        Self::new("IngressPhase")
    }

    pub fn nota_decoder() -> (node: Self)
        ensures
            node@ == "NotaDecoder"@,
    {
        Self::new("NotaDecoder")
    }

    pub fn classifier_plane() -> (node: Self)
        ensures
            node@ == "ClassifierPlane"@,
    {
        Self::new("ClassifierPlane")
    }

    pub fn clock_plane() -> (node: Self)
        ensures
            node@ == "ClockPlane"@,
    {
        Self::new("ClockPlane")
    }

    pub fn dispatch_phase() -> (node: Self)
        ensures
            node@ == "DispatchPhase"@,
    {
        Self::new("DispatchPhase")
    }

    pub fn owner_plane() -> (node: Self)
        ensures
            node@ == "OwnerPlane"@,
    {
        Self::new("OwnerPlane")
    }

    pub fn policy_plane() -> (node: Self)
        ensures
            node@ == "PolicyPlane"@,
    {
        Self::new("PolicyPlane")
    }

    pub fn state_plane() -> (node: Self)
        ensures
            node@ == "StatePlane"@,
    {
        Self::new("StatePlane")
    }

    pub fn subscription_plane() -> (node: Self)
        ensures
            node@ == "SubscriptionPlane"@,
    {
        Self::new("SubscriptionPlane")
    }

    pub fn record_store() -> (node: Self)
        ensures
            node@ == "RecordStore"@,
    {
        Self::new("RecordStore")
    }

    pub fn signal_executor() -> (node: Self)
        ensures
            node@ == "SignalExecutor"@,
    {
        Self::new("SignalExecutor")
    }

    pub fn sema_observer() -> (node: Self)
        ensures
            node@ == "SemaObserver"@,
    {
        Self::new("SemaObserver")
    }

    pub fn sema_writer() -> (node: Self)
        ensures
            node@ == "SemaWriter"@,
    {
        Self::new("SemaWriter")
    }

    pub fn sema_reader() -> (node: Self)
        ensures
            node@ == "SemaReader"@,
    {
        Self::new("SemaReader")
    }

    pub fn reply_shaper() -> (node: Self)
        ensures
            node@ == "ReplyShaper"@,
    {
        Self::new("ReplyShaper")
    }

    pub fn reply_text_encoder() -> (node: Self)
        ensures
            node@ == "ReplyTextEncoder"@,
    {
        Self::new("ReplyTextEncoder")
    }
}

/// What a plane did at one step of a request.
#[derive(Debug, Clone, Copy, PartialEq, Eq, Hash, Structural)]
pub enum TraceAction {
    ActorStarted,
    MessageReceived,
    RequestDecoded,
    OperationReceived,
    ObservationProjected,
    StatementClassified,
    EntryStamped,
    RecordCommitted,
    RecordsRead,
    SubscriptionOpened,
    SubscriptionRetracted,
    TextEncoded,
    MessageReplied,
}

/// One step of a trace: a plane and what it did.
#[derive(Debug, Clone, Copy, PartialEq, Eq, Hash)]
pub struct TraceEvent {
    node: TraceNode,
    action: TraceAction,
}

impl View for TraceEvent {
    type V = (Seq<char>, TraceAction);

    closed spec fn view(&self) -> (Seq<char>, TraceAction) {
        (self.node@, self.action)
    }
}

impl TraceEvent {
    pub fn new(node: TraceNode, action: TraceAction) -> (event: Self)
        ensures
            event@ == (node@, action),
    {
        Self { node, action }
    }

    pub fn node(&self) -> (node: TraceNode)
        ensures
            node@ == self@.0,
    {
        self.node
    }

    pub fn action(&self) -> (action: TraceAction)
        ensures
            action == self@.1,
    {
        self.action
    }
}

/// Whether `nodes[k..]` occurs, in order, among the nodes of `events[i..]`,
/// matching each wanted node against the earliest event that carries it.
pub open spec fn ordered_from(
    nodes: Seq<Seq<char>>,
    events: Seq<(Seq<char>, TraceAction)>,
    k: int,
    i: int,
) -> bool
    decreases events.len() - i,
{
    if k >= nodes.len() {
        true
    } else if i >= events.len() {
        false
    } else if events[i].0 == nodes[k] {
        ordered_from(nodes, events, k + 1, i + 1)
    } else {
        ordered_from(nodes, events, k, i + 1)
    }
}

/// The labels of a list of nodes.
pub open spec fn node_labels(nodes: Seq<TraceNode>) -> Seq<Seq<char>> {
    nodes.map_values(|node: TraceNode| node@)
}

/// Whether the labels `nodes` appear, in this order, among the trace's events.
pub open spec fn trace_contains_ordered(
    events: Seq<(Seq<char>, TraceAction)>,
    nodes: Seq<Seq<char>>,
) -> bool {
    ordered_from(nodes, events, 0, 0)
}

/// The ordered list of plane steps a request took.
#[derive(Debug, Clone, PartialEq, Eq)]
pub struct ActorTrace {
    events: Vec<TraceEvent>,
}

impl View for ActorTrace {
    type V = Seq<(Seq<char>, TraceAction)>;

    closed spec fn view(&self) -> Seq<(Seq<char>, TraceAction)> {
        self.events@.map_values(|event: TraceEvent| event@)
    }
}

impl ActorTrace {
    pub fn new() -> (trace: Self)
        ensures
            trace@ == Seq::<(Seq<char>, TraceAction)>::empty(),
    {
        let trace = Self { events: Vec::new() };
        assert(trace@ =~= Seq::<(Seq<char>, TraceAction)>::empty());
        trace
    }

    /// A copy of the trace as it stands.
    pub fn snapshot(&self) -> (copy: ActorTrace)
        ensures
            copy@ == self@,
    {
        ActorTrace { events: crate::vec_copy::copy_all(&self.events) }
    }

    pub fn events(&self) -> (events: &[TraceEvent])
        ensures
            events@.map_values(|event: TraceEvent| event@) == self@,
    {
        self.events.as_slice()
    }

    pub fn record(&mut self, node: TraceNode, action: TraceAction)
        ensures
            final(self)@ == old(self)@.push((node@, action)),
    {
        self.events.push(TraceEvent::new(node, action));
        assert(self@ =~= old(self)@.push((node@, action)));
    }

    pub fn contains(&self, node: TraceNode) -> (found: bool)
        ensures
            found == exists|i: int| 0 <= i < self@.len() && (#[trigger] self@[i]).0 == node@,
    {
        let mut index: usize = 0;
        while index < self.events.len()
            invariant
                index <= self.events@.len(),
                forall|j: int| 0 <= j < index ==> (#[trigger] self@[j]).0 != node@,
            decreases self.events@.len() - index,
        {
            if self.events[index].node.same_node(node) {
                assert(self@[index as int].0 == node@);
                return true;
            }
            index += 1;
        }
        false
    }

    pub fn contains_action(&self, node: TraceNode, action: TraceAction) -> (found: bool)
        ensures
            found == exists|i: int| 0 <= i < self@.len() && #[trigger] self@[i] == (node@, action),
    {
        let mut index: usize = 0;
        while index < self.events.len()
            invariant
                index <= self.events@.len(),
                forall|j: int| 0 <= j < index ==> #[trigger] self@[j] != (node@, action),
            decreases self.events@.len() - index,
        {
            let event = self.events[index];
            if event.node.same_node(node) && event.action == action {
                assert(self@[index as int] == (node@, action));
                return true;
            }
            index += 1;
        }
        false
    }

    /// Whether the trace visits the given planes in this order (other
    /// planes may come between them).
    pub fn contains_ordered(&self, nodes: &[TraceNode]) -> (found: bool)
        ensures
            found == trace_contains_ordered(self@, node_labels(nodes@)),
    {
        let ghost wanted = node_labels(nodes@);
        if nodes.len() == 0 {
            return true;
        }
        let mut k: usize = 0;
        let mut index: usize = 0;
        while index < self.events.len()
            invariant
                wanted == node_labels(nodes@),
                nodes@.len() == wanted.len(),
                forall|j: int| 0 <= j < nodes@.len() ==> #[trigger] wanted[j] == nodes@[j]@,
                k < nodes@.len(),
                index <= self.events@.len(),
                self.events@.len() == self@.len(),
                forall|j: int| 0 <= j < self@.len() ==> #[trigger] self@[j] == self.events@[j]@,
                ordered_from(wanted, self@, k as int, index as int) == trace_contains_ordered(
                    self@,
                    wanted,
                ),
            decreases self.events@.len() - index,
        {
            let matched = self.events[index].node.same_node(nodes[k]);
            assert(wanted[k as int] == nodes@[k as int]@);
            if matched {
                if k + 1 == nodes.len() {
                    assert(ordered_from(wanted, self@, (k + 1) as int, (index + 1) as int));
                    return true;
                }
                k += 1;
            }
            index += 1;
        }
        false
    }
}

impl Default for ActorTrace {
    fn default() -> (trace: Self)
        ensures
            trace@ == Seq::<(Seq<char>, TraceAction)>::empty(),
    {
        Self::new()
    }
}

} // verus!
