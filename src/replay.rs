use vstd::prelude::*;

use crate::graph::{
    chain_wf, empty_graph, lemma_record_all_is_chain, record_all, Entry, NodeView, State, StateView,
};

verus! {

/// The first position at or after `start` of a node with id `id`.
pub open spec fn index_from(nodes: Seq<NodeView>, id: u64, start: int) -> Option<int>
    decreases nodes.len() - start,
{
    if start < 0 || start >= nodes.len() {
        None
    } else if nodes[start].id == id {
        Some(start)
    } else {
        index_from(nodes, id, start + 1)
    }
}

/// The positions of the nodes met when following parent links from `cur`,
/// newest first, for at most `fuel` steps; the walk stops at an absent
/// parent or at an id that no node has.
pub open spec fn walk(nodes: Seq<NodeView>, cur: Option<u64>, fuel: nat) -> Seq<int>
    decreases fuel,
{
    match cur {
        None => Seq::empty(),
        Some(id) => {
            if fuel == 0 {
                Seq::empty()
            } else {
                match index_from(nodes, id, 0) {
                    None => Seq::empty(),
                    Some(i) => seq![i].add(walk(nodes, nodes[i].parent, (fuel - 1) as nat)),
                }
            }
        },
    }
}

/// The replay of a graph: the positions of its nodes from the head back to
/// the root. A walk never takes more steps than there are nodes, so a graph
/// whose links form a cycle is not followed round it.
pub open spec fn replay(s: StateView) -> Seq<int> {
    walk(s.nodes, s.head, s.nodes.len())
}

fn find_node(state: &State, id: u64) -> (r: Option<usize>)
    ensures
        match r {
            Some(i) => index_from(state@.nodes, id, 0) == Some(i as int),
            None => index_from(state@.nodes, id, 0) == None::<int>,
        },
{
    let mut i: usize = 0;
    while i < state.nodes.len()
        invariant
            0 <= i <= state.nodes.len(),
            index_from(state@.nodes, id, 0) == index_from(state@.nodes, id, i as int),
        decreases state.nodes.len() - i,
    {
        if state.nodes[i].id == id {
            return Some(i);
        }
        i = i + 1;
    }
    None
}

/// The positions in `state.nodes` of the nodes to show, newest first: the
/// head, its parent, and so on back to the root. Stops early where a parent
/// id names no node.
pub fn history(state: &State) -> (r: Vec<usize>)
    ensures
        r@.map_values(|i: usize| i as int) == replay(state@),
        forall|k: int| 0 <= k < r.len() ==> #[trigger] r[k] < state.nodes.len(),
{
    let mut r: Vec<usize> = Vec::new();
    let mut cur = state.head;
    let mut fuel: usize = state.nodes.len();
    while fuel > 0
        invariant
            fuel <= state.nodes.len(),
            r@.map_values(|i: usize| i as int).add(walk(state@.nodes, cur, fuel as nat)) == replay(state@),
            forall|k: int| 0 <= k < r.len() ==> #[trigger] r[k] < state.nodes.len(),
        ensures
            r@.map_values(|i: usize| i as int) == replay(state@),
            forall|k: int| 0 <= k < r.len() ==> #[trigger] r[k] < state.nodes.len(),
        decreases fuel,
    {
        match cur {
            None => {
                proof {
                    lemma_add_empty(r@.map_values(|i: usize| i as int));
                }
                break;
            },
            Some(id) => {
                match find_node(state, id) {
                    None => {
                        proof {
                            lemma_add_empty(r@.map_values(|i: usize| i as int));
                        }
                        break;
                    },
                    Some(i) => {
                        proof {
                            lemma_index_in_range(state@.nodes, id, 0);
                        }
                        let ghost before = r@.map_values(|i: usize| i as int);
                        let ghost rest = walk(state@.nodes, state@.nodes[i as int].parent, (fuel - 1) as nat);
                        r.push(i);
                        assert(r@.map_values(|i: usize| i as int) =~= before.push(i as int));
                        assert(before.add(seq![i as int].add(rest)) =~= before.push(i as int).add(rest));
                        cur = state.nodes[i].parent;
                        fuel = fuel - 1;
                    },
                }
            },
        }
    }
    r
}

proof fn lemma_add_empty(s: Seq<int>)
    ensures
        s.add(Seq::<int>::empty()) == s,
{
    assert(s.add(Seq::<int>::empty()) =~= s);
}

proof fn lemma_index_in_range(nodes: Seq<NodeView>, id: u64, start: int)
    ensures
        match index_from(nodes, id, start) {
            Some(i) => start <= i < nodes.len() && nodes[i].id == id,
            None => true,
        },
    decreases nodes.len() - start,
{
    if 0 <= start < nodes.len() && nodes[start].id != id {
        lemma_index_in_range(nodes, id, start + 1);
    }
}

proof fn lemma_chain_index(s: StateView, id: u64, start: int)
    requires
        chain_wf(s),
        1 <= id <= s.nodes.len(),
        0 <= start <= id - 1,
    ensures
        index_from(s.nodes, id, start) == Some(id - 1),
    decreases id - start,
{
    assert(s.nodes[start].id == start + 1);
    if start < id - 1 {
        lemma_chain_index(s, id, start + 1);
    }
}

proof fn lemma_chain_walk(s: StateView, k: nat, fuel: nat)
    requires
        chain_wf(s),
        k <= s.nodes.len(),
        k <= fuel,
    ensures
        walk(s.nodes, if k == 0 { None } else { Some(k as u64) }, fuel) == Seq::new(
            k,
            |j: int| k - 1 - j,
        ),
    decreases k,
{
    if k == 0 {
        assert(walk(s.nodes, None, fuel) =~= Seq::new(k, |j: int| k - 1 - j));
    } else {
        lemma_chain_index(s, k as u64, 0);
        let i = k - 1;
        assert(s.nodes[i].id == i + 1);
        let prev: nat = (k - 1) as nat;
        lemma_chain_walk(s, prev, (fuel - 1) as nat);
        assert(s.nodes[i].parent == if prev == 0 {
            None
        } else {
            Some(prev as u64)
        });
        assert(walk(s.nodes, Some(k as u64), fuel) =~= Seq::new(k, |j: int| k - 1 - j));
    }
}

/// After N records on an empty graph, replay follows parent links from the
/// head through exactly N nodes, newest first, with ids N down to 1, and
/// stops at the first node, whose parent is absent.
pub proof fn lemma_replay_after_records(entries: Seq<Entry>)
    requires
        entries.len() <= u64::MAX,
    ensures
        ({
            let s = record_all(entries);
            let n = entries.len();
            &&& replay(s) == Seq::new(n, |j: int| n - 1 - j)
            &&& forall|j: int| 0 <= j < n ==> (#[trigger] s.nodes[j]).id == j + 1
            &&& s.head == if n == 0 {
                None
            } else {
                Some(n as u64)
            }
            &&& n > 0 ==> s.nodes[0].parent == None::<u64>
        }),
{
    lemma_record_all_is_chain(entries);
    let s = record_all(entries);
    lemma_chain_walk(s, entries.len(), entries.len());
    if entries.len() > 0 {
        assert(s.nodes[0].id == 1);
    }
}

/// Replaying the empty graph shows nothing.
pub proof fn lemma_replay_empty()
    ensures
        replay(empty_graph()) == Seq::<int>::empty(),
{
}

} // verus!
