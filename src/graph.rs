use vstd::prelude::*;

use crate::event::SemanticEvent;

verus! {

/// One recorded semantic event.
pub struct Node {
    pub id: u64,
    /// Local wall-clock time of classification, `HH:MM:SS`.
    pub time: String,
    pub event: SemanticEvent,
    /// Bare file name of the affected entry.
    pub file: String,
    /// The node that was head when this one was recorded.
    pub parent: Option<u64>,
}

pub struct NodeView {
    pub id: u64,
    pub time: Seq<char>,
    pub event: SemanticEvent,
    pub file: Seq<char>,
    pub parent: Option<u64>,
}

impl View for Node {
    type V = NodeView;

    open spec fn view(&self) -> NodeView {
        NodeView {
            id: self.id,
            time: self.time@,
            event: self.event,
            file: self.file@,
            parent: self.parent,
        }
    }
}

/// The version graph: every node ever recorded, in order, and the head.
pub struct State {
    pub head: Option<u64>,
    pub nodes: Vec<Node>,
}

pub struct StateView {
    pub head: Option<u64>,
    pub nodes: Seq<NodeView>,
}

impl View for State {
    type V = StateView;

    open spec fn view(&self) -> StateView {
        StateView { head: self.head, nodes: self.nodes@.map_values(|n: Node| n@) }
    }
}

/// The graph with no node and no head.
pub open spec fn empty_graph() -> StateView {
    StateView { head: None, nodes: Seq::empty() }
}

/// A graph built by recording alone: ids run 1, 2, ... in order, each node's
/// parent is the node before it (none for the first), and the head is the
/// last node (none when there is no node).
pub open spec fn chain_wf(s: StateView) -> bool {
    &&& s.nodes.len() <= u64::MAX
    &&& forall|i: int|
        0 <= i < s.nodes.len() ==> {
            &&& #[trigger] s.nodes[i].id == i + 1
            &&& s.nodes[i].parent == if i == 0 {
                None::<u64>
            } else {
                Some(i as u64)
            }
        }
    &&& s.head == if s.nodes.len() == 0 {
        None::<u64>
    } else {
        Some(s.nodes.len() as u64)
    }
}

/// The graph after recording `event` on `file` at `time`: a node with the
/// next id and the old head as parent is appended and becomes the head.
pub open spec fn record_spec(s: StateView, time: Seq<char>, event: SemanticEvent, file: Seq<char>) -> StateView {
    let id = (s.nodes.len() + 1) as u64;
    StateView {
        head: Some(id),
        nodes: s.nodes.push(NodeView { id, time, event, file, parent: s.head }),
    }
}

/// One entry to record: time, event and file name.
pub type Entry = (Seq<char>, SemanticEvent, Seq<char>);

/// The graph after recording each of `entries`, in order, on an empty graph.
pub open spec fn record_all(entries: Seq<Entry>) -> StateView
    decreases entries.len(),
{
    if entries.len() == 0 {
        empty_graph()
    } else {
        let last = entries.last();
        record_spec(record_all(entries.drop_last()), last.0, last.1, last.2)
    }
}

impl State {
    /// The empty graph of a freshly initialized workspace.
    pub fn new() -> (r: State)
        ensures
            r@ == empty_graph(),
            chain_wf(r@),
    {
        let r = State { head: None, nodes: Vec::new() };
        assert(r@.nodes =~= Seq::<NodeView>::empty());
        r
    }
}

/// Appends a node for `event` on `file` at `time` and makes it the head.
pub fn record_event(state: &mut State, time: String, event: SemanticEvent, file: String)
    requires
        old(state).nodes.len() < u64::MAX,
    ensures
        final(state)@ == record_spec(old(state)@, time@, event, file@),
        chain_wf(old(state)@) ==> chain_wf(final(state)@),
{
    let new_id = state.nodes.len() as u64 + 1;
    let node = Node { id: new_id, time, event, file, parent: state.head };
    state.nodes.push(node);
    state.head = Some(new_id);
    assert(state@.nodes =~= old(state)@.nodes.push(node@));
    proof {
        if chain_wf(old(state)@) {
            lemma_record_keeps_chain(old(state)@, time@, event, file@);
        }
    }
}

proof fn lemma_record_keeps_chain(s: StateView, time: Seq<char>, event: SemanticEvent, file: Seq<char>)
    requires
        chain_wf(s),
        s.nodes.len() < u64::MAX,
    ensures
        chain_wf(record_spec(s, time, event, file)),
{
    let t = record_spec(s, time, event, file);
    assert forall|i: int| 0 <= i < t.nodes.len() implies {
        &&& #[trigger] t.nodes[i].id == i + 1
        &&& t.nodes[i].parent == if i == 0 {
            None::<u64>
        } else {
            Some(i as u64)
        }
    } by {
        if i < s.nodes.len() {
            assert(t.nodes[i] == s.nodes[i]);
            assert(s.nodes[i].id == i + 1);
        } else {
            assert(t.nodes[i].id == (s.nodes.len() + 1) as u64);
            assert(t.nodes[i].parent == s.head);
        }
    }
}

/// Recording on an empty graph yields a chain: after N records the ids are
/// 1..N in call order, each node holds what its call was given, and the
/// head is N.
pub proof fn lemma_record_all_is_chain(entries: Seq<Entry>)
    requires
        entries.len() <= u64::MAX,
    ensures
        chain_wf(record_all(entries)),
        record_all(entries).nodes.len() == entries.len(),
        forall|i: int|
            0 <= i < entries.len() ==> {
                let n = #[trigger] record_all(entries).nodes[i];
                &&& n.time == entries[i].0
                &&& n.event == entries[i].1
                &&& n.file == entries[i].2
            },
    decreases entries.len(),
{
    if entries.len() > 0 {
        let prev = entries.drop_last();
        lemma_record_all_is_chain(prev);
        let s = record_all(prev);
        let t = record_all(entries);
        let last = entries.last();
        lemma_record_keeps_chain(s, last.0, last.1, last.2);
        assert forall|i: int| 0 <= i < entries.len() implies {
            let n = #[trigger] record_all(entries).nodes[i];
            &&& n.time == entries[i].0
            &&& n.event == entries[i].1
            &&& n.file == entries[i].2
        } by {
            if i < prev.len() {
                assert(t.nodes[i] == s.nodes[i]);
                assert(entries[i] == prev[i]);
            }
        }
    }
}

} // verus!
