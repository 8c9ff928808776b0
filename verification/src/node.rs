//! Routing nodes: their states and colors, click hit-testing against node
//! positions, activation on click, and the bookkeeping of which node is
//! selected or has just been deselected.

use vstd::prelude::*;
use crate::geom::{Pos, dist_sq, dist_sq_spec};
use crate::sequence::{PlayerActivationSequence, record_activation, contains_id};

verus! {

/// A color with 8-bit channels; the host shell maps it onto the renderer's
/// color type.
#[derive(Clone, Copy, Debug, PartialEq, Eq, Structural)]
pub struct Rgb {
    pub r: u8,
    pub g: u8,
    pub b: u8,
}

/// The lifecycle of a routing node in the sequence puzzle.
#[derive(Clone, Copy, Debug, PartialEq, Eq, Structural)]
pub enum NodeState {
    Idle,
    Activating,
    Active,
    Target,
    Start,
}

/// A routing node as the connection-drawing puzzle sees it: a stable
/// logical id and the color it reverts to when deselected.
#[derive(Clone, Copy, Debug, PartialEq, Eq, Structural)]
pub struct Node {
    pub id: usize,
    pub original_color: Rgb,
}

/// A routing node of the sequence puzzle: id, position and current state.
#[derive(Clone, Copy, Debug, PartialEq, Eq, Structural)]
pub struct GameNode {
    pub id: usize,
    pub position: Pos,
    pub state: NodeState,
}

/// The color a node is drawn in, by its state.
pub open spec fn color_for_node_state_spec(state: NodeState) -> Rgb {
    match state {
        NodeState::Idle => Rgb { r: 128, g: 128, b: 128 },
        NodeState::Activating => Rgb { r: 255, g: 165, b: 0 },
        NodeState::Active => Rgb { r: 255, g: 255, b: 0 },
        NodeState::Target => Rgb { r: 255, g: 0, b: 0 },
        NodeState::Start => Rgb { r: 0, g: 255, b: 0 },
    }
}

/// Maps a node's state onto its display color.
pub fn color_for_node_state(state: &NodeState) -> (c: Rgb)
    ensures
        c == color_for_node_state_spec(*state),
{
    match *state {
        NodeState::Idle => Rgb { r: 128, g: 128, b: 128 },
        NodeState::Activating => Rgb { r: 255, g: 165, b: 0 },
        NodeState::Active => Rgb { r: 255, g: 255, b: 0 },
        NodeState::Target => Rgb { r: 255, g: 0, b: 0 },
        NodeState::Start => Rgb { r: 0, g: 255, b: 0 },
    }
}

/// The color a newly spawned node starts with.
pub fn node_base_color() -> (c: Rgb)
    ensures
        c == (Rgb { r: 51, g: 51, b: 204 }),
{
    Rgb { r: 51, g: 51, b: 204 }
}

/// The highlight color of a selected (activated) node.
pub fn node_highlight_color() -> (c: Rgb)
    ensures
        c == (Rgb { r: 204, g: 204, b: 51 }),
{
    Rgb { r: 204, g: 204, b: 51 }
}

/// A click lands on a node only when a node state welcomes it: an idle or
/// activating node becomes active; active, start and target nodes ignore
/// the click.
pub open spec fn click_activates(state: NodeState) -> bool {
    state is Idle || state is Activating
}

/// Applies a click to a node: an idle or activating node becomes active and
/// its id is recorded in the activation sequence; any other state is left
/// alone. Returns whether the node was activated.
pub fn activate_node(
    state: &mut NodeState,
    sequence: &mut PlayerActivationSequence,
    node_id: usize,
) -> (activated: bool)
    ensures
        activated == click_activates(*old(state)),
        activated ==> *final(state) is Active && final(sequence)@ == record_activation(
            old(sequence)@,
            node_id,
        ),
        !activated ==> *final(state) == *old(state) && final(sequence)@ == old(sequence)@,
        old(sequence).wf() ==> final(sequence).wf(),
{
    match *state {
        NodeState::Idle | NodeState::Activating => {
            *state = NodeState::Active;
            sequence.add_activated_node(node_id);
            true
        },
        _ => false,
    }
}

/// The first node carrying the given id, scanning in order.
pub fn find_node_index_by_id(nodes: &Vec<GameNode>, id: usize) -> (r: Option<usize>)
    ensures
        r matches Some(i) ==> 0 <= i < nodes@.len() && nodes@[i as int].id == id && (forall|
            k: int,
        |
            0 <= k < i ==> nodes@[k].id != id),
        r is None ==> forall|k: int| 0 <= k < nodes@.len() ==> nodes@[k].id != id,
{
    let mut i: usize = 0;
    while i < nodes.len()
        invariant
            i <= nodes@.len(),
            forall|k: int| 0 <= k < i ==> nodes@[k].id != id,
        decreases nodes@.len() - i,
    {
        if nodes[i].id == id {
            return Some(i);
        }
        i += 1;
    }
    None
}

/// How close a click must land to a node's position to count as a click on
/// that node, in world units.
pub const NODE_CLICK_RADIUS: u64 = 25;

/// A click hits a node when it lands strictly within the click radius of
/// the node's position.
pub open spec fn click_hits(click: Pos, position: Pos) -> bool {
    dist_sq_spec(click, position) < NODE_CLICK_RADIUS * NODE_CLICK_RADIUS
}

/// The first node, in spawn order, that a click lands on.
pub fn find_clicked_node(positions: &Vec<Pos>, click: Pos) -> (r: Option<usize>)
    requires
        click.in_bounds(),
        forall|k: int| 0 <= k < positions@.len() ==> (#[trigger] positions@[k]).in_bounds(),
    ensures
        r matches Some(i) ==> 0 <= i < positions@.len() && click_hits(click, positions@[i as int])
            && (forall|k: int| 0 <= k < i ==> !click_hits(click, positions@[k])),
        r is None ==> forall|k: int| 0 <= k < positions@.len() ==> !click_hits(click, positions@[k]),
{
    let mut i: usize = 0;
    while i < positions.len()
        invariant
            i <= positions@.len(),
            click.in_bounds(),
            forall|k: int| 0 <= k < positions@.len() ==> (#[trigger] positions@[k]).in_bounds(),
            forall|k: int| 0 <= k < i ==> !click_hits(click, positions@[k]),
        decreases positions@.len() - i,
    {
        if dist_sq(click, positions[i]) < NODE_CLICK_RADIUS * NODE_CLICK_RADIUS {
            return Some(i);
        }
        i += 1;
    }
    None
}

/// The node to deselect when a click selects another: the previously
/// selected node, and only when the click landed on a different one.
pub open spec fn deselect_on_click(prev: Option<usize>, clicked: Option<usize>) -> Option<usize> {
    match (prev, clicked) {
        (Some(p), Some(n)) => if p != n {
            Some(p)
        } else {
            None
        },
        _ => None,
    }
}

/// The outcome of a click for node selection: the node now selected, and a
/// previously selected node to deselect, if any.
#[derive(Clone, Copy, Debug)]
pub struct SelectionOutcome {
    pub selected: Option<usize>,
    pub deselect: Option<usize>,
}

/// Updates the selection after a click: a hit node becomes the selection
/// (deselecting a different previous one); a click on empty space clears
/// the selection without touching the previously selected node.
pub fn click_selection(prev: Option<usize>, clicked: Option<usize>) -> (r: SelectionOutcome)
    ensures
        r.selected == clicked,
        r.deselect == deselect_on_click(prev, clicked),
{
    match (prev, clicked) {
        (Some(p), Some(n)) => SelectionOutcome {
            selected: clicked,
            deselect: if p != n {
                Some(p)
            } else {
                None
            },
        },
        _ => SelectionOutcome { selected: clicked, deselect: None },
    }
}

/// The ids of `prev` that no longer stand in `current`, in their order in
/// `prev`: the nodes whose highlight must revert this frame.
pub open spec fn deactivated_ids(prev: Seq<usize>, current: Seq<usize>) -> Seq<usize> {
    prev.filter(|id: usize| !current.contains(id))
}

/// Computes which previously highlighted nodes were deselected since the
/// last frame.
pub fn newly_deactivated(prev: &Vec<usize>, current: &Vec<usize>) -> (r: Vec<usize>)
    ensures
        r@ == deactivated_ids(prev@, current@),
{
    let ghost pred = |id: usize| !current@.contains(id);
    let mut r: Vec<usize> = Vec::new();
    let mut i: usize = 0;
    proof {
        reveal(Seq::filter);
    }
    while i < prev.len()
        invariant
            i <= prev@.len(),
            r@ == prev@.take(i as int).filter(pred),
            pred == (|id: usize| !current@.contains(id)),
        decreases prev@.len() - i,
    {
        let id = prev[i];
        let inside = contains_id(current, id);
        if !inside {
            r.push(id);
        }
        proof {
            reveal(Seq::filter);
            let t1 = prev@.take(i as int + 1);
            assert(t1.drop_last() =~= prev@.take(i as int));
            assert(t1.last() == prev@[i as int]);
            assert(t1.filter(pred) == if pred(t1.last()) {
                t1.drop_last().filter(pred).push(t1.last())
            } else {
                t1.drop_last().filter(pred)
            });
        }
        i += 1;
    }
    proof {
        assert(prev@.take(prev@.len() as int) =~= prev@);
    }
    r
}

} // verus!
