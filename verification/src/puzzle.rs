//! The sequence puzzle's win and lose checks: a level completes when the
//! target node goes active with the required activation order satisfied; an
//! attempt fails when the level's time limit runs out. Also the coloring of
//! drawn connections between nodes.

use vstd::prelude::*;
use crate::level::Level;
use crate::node::{GameNode, NodeState, Rgb};
use crate::sequence::{PlayerActivationSequence, sequence_deviates, sequence_matches_required};
use crate::state::GameState;
use crate::timer::GameTimer;

verus! {

/// An edge between two nodes, by their ids, optionally marked as carrying
/// the active route.
#[derive(Clone, Copy, Debug)]
pub struct Connection {
    pub node_a: usize,
    pub node_b: usize,
    pub is_active: bool,
}

/// A level is complete when its target node has gone active and, where the
/// level requires an activation order, the whole required sequence stands,
/// in order, at the front of the player's recorded sequence.
pub open spec fn level_complete_spec(
    target_active: bool,
    player: Seq<usize>,
    required: Option<Vec<usize>>,
) -> bool {
    &&& target_active
    &&& match required {
        Some(req) => req@.is_prefix_of(player),
        None => true,
    }
}

/// Whether some node carrying the given id has gone active: asked of the
/// target node by the completion check, and of the start node before an
/// echo launches.
pub fn node_with_id_active(nodes: &Vec<GameNode>, target_id: usize) -> (r: bool)
    ensures
        r == exists|k: int|
            0 <= k < nodes@.len() && (#[trigger] nodes@[k]).id == target_id && nodes@[k].state
                is Active,
{
    let mut i: usize = 0;
    while i < nodes.len()
        invariant
            i <= nodes@.len(),
            forall|k: int|
                0 <= k < i ==> !((#[trigger] nodes@[k]).id == target_id && nodes@[k].state
                    is Active),
        decreases nodes@.len() - i,
    {
        let n = nodes[i];
        if n.id == target_id && matches!(n.state, NodeState::Active) {
            return true;
        }
        i += 1;
    }
    false
}

/// Decides whether the level is complete, from whether its target node has
/// gone active and the player's recorded activation order.
pub fn check_level_completion(
    target_active: bool,
    player: &PlayerActivationSequence,
    level: &Level,
) -> (complete: bool)
    ensures
        complete == level_complete_spec(
            target_active,
            player@,
            level.required_activation_sequence,
        ),
{
    if !target_active {
        return false;
    }
    match &level.required_activation_sequence {
        Some(req) => sequence_matches_required(&player.activated_node_ids, req),
        None => true,
    }
}

/// What one failure check finds.
#[derive(Clone, Copy, Debug, PartialEq, Eq, Structural)]
pub enum LevelFailCheck {
    TimedOut,
    Deviated,
    InProgress,
}

/// What the failure check concludes: an expired timer loses the level;
/// else a recorded activation out of the required order is noticed; else
/// the attempt is still in progress.
pub open spec fn level_fail_spec(
    timer: GameTimer,
    player: Seq<usize>,
    required: Option<Vec<usize>>,
) -> LevelFailCheck {
    if timer.expired_spec() {
        LevelFailCheck::TimedOut
    } else if required matches Some(req) && !player.is_prefix_of(req@) {
        LevelFailCheck::Deviated
    } else {
        LevelFailCheck::InProgress
    }
}

/// Runs the failure check for the current frame.
pub fn check_level_fail(
    timer: &GameTimer,
    player: &PlayerActivationSequence,
    level: &Level,
) -> (r: LevelFailCheck)
    ensures
        r == level_fail_spec(*timer, player@, level.required_activation_sequence),
{
    if timer.expired() {
        return LevelFailCheck::TimedOut;
    }
    match &level.required_activation_sequence {
        Some(req) => {
            if sequence_deviates(&player.activated_node_ids, req) {
                LevelFailCheck::Deviated
            } else {
                LevelFailCheck::InProgress
            }
        },
        None => LevelFailCheck::InProgress,
    }
}

/// The state change a failure finding orders: running out of time loses
/// the level; a noticed deviation is only reported, for the shell to log,
/// and changes nothing.
pub fn level_fail_transition(check: LevelFailCheck) -> (r: Option<GameState>)
    ensures
        r == if check is TimedOut {
            Some(GameState::GameOver)
        } else {
            None::<GameState>
        },
{
    match check {
        LevelFailCheck::TimedOut => Some(GameState::GameOver),
        _ => None,
    }
}

/// A node lights the connections at it while it is active, or is the start
/// or the target.
pub open spec fn node_lights_connections(state: NodeState) -> bool {
    state is Active || state is Start || state is Target
}

/// The color a connection is drawn in: yellow when it is marked active or
/// both its endpoints light it, orange when at least one endpoint does,
/// gray when dormant. An endpoint whose node cannot be found counts as
/// unlit.
pub open spec fn connection_color_spec(
    is_active: bool,
    a: Option<NodeState>,
    b: Option<NodeState>,
) -> Rgb {
    let a_lit = a matches Some(s) && node_lights_connections(s);
    let b_lit = b matches Some(s) && node_lights_connections(s);
    if is_active || (a_lit && b_lit) {
        Rgb { r: 255, g: 255, b: 0 }
    } else if a_lit || b_lit {
        Rgb { r: 255, g: 165, b: 0 }
    } else {
        Rgb { r: 128, g: 128, b: 128 }
    }
}

/// Whether a found node state lights its connections.
fn endpoint_lit(state: Option<NodeState>) -> (lit: bool)
    ensures
        lit == (state matches Some(s) && node_lights_connections(s)),
{
    match state {
        Some(NodeState::Active) | Some(NodeState::Start) | Some(NodeState::Target) => true,
        _ => false,
    }
}

/// Picks the color a connection is drawn in this frame.
pub fn connection_color(is_active: bool, a: Option<NodeState>, b: Option<NodeState>) -> (c: Rgb)
    ensures
        c == connection_color_spec(is_active, a, b),
{
    let a_lit = endpoint_lit(a);
    let b_lit = endpoint_lit(b);
    if is_active || (a_lit && b_lit) {
        Rgb { r: 255, g: 255, b: 0 }
    } else if a_lit || b_lit {
        Rgb { r: 255, g: 165, b: 0 }
    } else {
        Rgb { r: 128, g: 128, b: 128 }
    }
}

} // verus!
