//! The echo: the traveling signal bound to a path of nodes. Each frame it
//! advances a fixed-point fraction of the segment it is crossing, snapping
//! to the segment's far node when the fraction overflows, until it stands
//! on its path's final node.

use vstd::prelude::*;
use vstd::arithmetic::div_mod::lemma_div_nonincreasing;
use std::collections::VecDeque;
use crate::geom::{
    Pos,
    PROGRESS_ONE,
    dist_sq,
    dist_sq_spec,
    isqrt,
    isqrt_spec,
    lerp_pos,
    lerp_pos_spec,
};

verus! {

/// World units the echo travels per second.
pub const ECHO_SPEED: u64 = 150;

/// Caps on the echo's speed and on one frame's delta that keep the
/// fixed-point progress arithmetic inside u64.
pub const SPEED_LIMIT: u64 = 1000000;

pub const DT_LIMIT_MS: u64 = 1000000;

/// A traveling signal: the node it stands on or has last left, its whole
/// path and final target as node ids, its speed, and how far along the
/// current segment it has come, in millionths.
#[derive(Clone, Debug)]
pub struct DataEcho {
    pub current_node: usize,
    pub path: Vec<usize>,
    pub target_node: usize,
    pub speed: u64,
    pub progress_on_connection: u64,
    pub current_segment_index: usize,
}

impl DataEcho {
    /// The echo points at a real entry of its path, its progress is a
    /// proper fraction, it stands on the node its segment index names, its
    /// target is its path's last node, and its speed is within the
    /// arithmetic cap.
    pub open spec fn wf(&self) -> bool {
        &&& self.current_segment_index < self.path@.len()
        &&& self.progress_on_connection < PROGRESS_ONE
        &&& self.current_node == self.path@[self.current_segment_index as int]
        &&& self.target_node == self.path@.last()
        &&& self.speed <= SPEED_LIMIT
    }

    /// The echo stands on its path's final node and has nowhere further
    /// to go.
    pub open spec fn at_path_end(&self) -> bool {
        self.current_segment_index + 1 >= self.path@.len()
    }
}

/// The pending path the next echo will follow, as node ids, filled in by
/// the puzzle logic before the echo spawns and drained when it does.
#[derive(Debug)]
pub struct EchoPath {
    pub path_node_ids: VecDeque<usize>,
}

impl Default for EchoPath {
    /// No path is pending.
    fn default() -> (p: Self)
        ensures
            p.path_node_ids@ == Seq::<usize>::empty(),
    {
        EchoPath { path_node_ids: VecDeque::new() }
    }
}

impl EchoPath {
    /// Replaces the pending path.
    pub fn set_path(&mut self, path: Vec<usize>)
        ensures
            final(self).path_node_ids@ == path@,
    {
        self.path_node_ids.clear();
        let mut i: usize = 0;
        while i < path.len()
            invariant
                i <= path@.len(),
                self.path_node_ids@ == path@.take(i as int),
            decreases path@.len() - i,
        {
            self.path_node_ids.push_back(path[i]);
            proof {
                assert(path@.take(i as int + 1) =~= path@.take(i as int).push(path@[i as int]));
            }
            i += 1;
        }
        proof {
            assert(path@.take(path@.len() as int) =~= path@);
        }
    }

    /// Hands out and removes the path's first node id.
    pub fn get_next_node_in_path(&mut self) -> (r: Option<usize>)
        ensures
            old(self).path_node_ids@.len() == 0 ==> r is None && final(self).path_node_ids@ == old(
                self,
            ).path_node_ids@,
            old(self).path_node_ids@.len() > 0 ==> (r matches Some(id) && id == old(
                self,
            ).path_node_ids@[0] && final(self).path_node_ids@ == old(self).path_node_ids@.subrange(
                1,
                old(self).path_node_ids@.len() as int,
            )),
    {
        self.path_node_ids.pop_front()
    }

    /// Whether no path is pending.
    pub fn is_empty(&self) -> (e: bool)
        ensures
            e == (self.path_node_ids@.len() == 0),
    {
        self.path_node_ids.len() == 0
    }

    /// Drops the pending path.
    pub fn clear(&mut self)
        ensures
            final(self).path_node_ids@ == Seq::<usize>::empty(),
    {
        self.path_node_ids.clear();
    }
}

/// Plans the echo that a newly active start node launches: the pending path
/// must begin at the start node; the echo then takes the whole path, aims
/// at its last node, and starts at the path's first segment with no
/// progress. A successful plan drains the pending path.
pub fn plan_echo_spawn(path: &mut EchoPath, start_node: usize, speed: u64) -> (r: Option<DataEcho>)
    requires
        speed <= SPEED_LIMIT,
    ensures
        (old(path).path_node_ids@.len() > 0 && old(path).path_node_ids@[0] == start_node) <==> (
        r is Some),
        r matches Some(e) ==> ({
            &&& e.wf()
            &&& e.current_node == start_node
            &&& e.path@ == old(path).path_node_ids@
            &&& e.target_node == old(path).path_node_ids@.last()
            &&& e.speed == speed
            &&& e.progress_on_connection == 0
            &&& e.current_segment_index == 0
            &&& final(path).path_node_ids@ == Seq::<usize>::empty()
        }),
        r is None ==> final(path).path_node_ids@ == old(path).path_node_ids@,
{
    if path.path_node_ids.len() == 0 {
        return None;
    }
    let first = path.path_node_ids[0];
    if first != start_node {
        return None;
    }
    let mut full_path: Vec<usize> = Vec::new();
    let mut i: usize = 0;
    while i < path.path_node_ids.len()
        invariant
            i <= path.path_node_ids@.len(),
            full_path@ == path.path_node_ids@.take(i as int),
        decreases path.path_node_ids@.len() - i,
    {
        full_path.push(path.path_node_ids[i]);
        proof {
            assert(path.path_node_ids@.take(i as int + 1) =~= path.path_node_ids@.take(
                i as int,
            ).push(path.path_node_ids@[i as int]));
        }
        i += 1;
    }
    proof {
        assert(path.path_node_ids@.take(path.path_node_ids@.len() as int)
            =~= path.path_node_ids@);
    }
    let target = full_path[full_path.len() - 1];
    let echo = DataEcho {
        current_node: start_node,
        path: full_path,
        target_node: target,
        speed,
        progress_on_connection: 0,
        current_segment_index: 0,
    };
    path.clear();
    Some(echo)
}

/// The fraction of the current segment covered after one frame, in
/// millionths: a zero-length segment is crossed at once; otherwise the
/// echo advances speed * dt scaled to the segment's length.
pub open spec fn advanced_progress(progress: int, speed: int, dt_ms: int, seg_len: int) -> int {
    if seg_len == 0 {
        PROGRESS_ONE as int
    } else {
        progress + (speed * dt_ms * (PROGRESS_ONE as int)) / (1000 * seg_len)
    }
}

/// Where the echo's current segment starts: the node its segment index
/// names.
pub open spec fn segment_start(e: DataEcho, positions: Seq<Pos>) -> Pos {
    positions[e.path@[e.current_segment_index as int] as int]
}

/// Where the echo's current segment ends: the following node of its path.
pub open spec fn segment_end(e: DataEcho, positions: Seq<Pos>) -> Pos {
    positions[e.path@[e.current_segment_index as int + 1] as int]
}

/// The length of the echo's current segment, in world units, rounded down.
pub open spec fn segment_len(e: DataEcho, positions: Seq<Pos>) -> int {
    isqrt_spec(dist_sq_spec(segment_start(e, positions), segment_end(e, positions)) as nat) as int
}

/// One frame of echo movement along its path. `positions` maps each node
/// id to its world position. Returns the echo's new world position, or
/// None when the echo already stands at its path's end and stays put.
pub fn update_echo_movement(echo: &mut DataEcho, positions: &Vec<Pos>, dt_ms: u64) -> (pos: Option<
    Pos,
>)
    requires
        old(echo).wf(),
        dt_ms <= DT_LIMIT_MS,
        forall|k: int|
            0 <= k < old(echo).path@.len() ==> (#[trigger] old(echo).path@[k]) < positions@.len(),
        forall|k: int| 0 <= k < positions@.len() ==> (#[trigger] positions@[k]).in_bounds(),
    ensures
        final(echo).wf(),
        final(echo).path == old(echo).path,
        final(echo).target_node == old(echo).target_node,
        final(echo).speed == old(echo).speed,
        old(echo).at_path_end() ==> *final(echo) == *old(echo) && pos is None,
        !old(echo).at_path_end() ==> ({
            let a = segment_start(*old(echo), positions@);
            let b = segment_end(*old(echo), positions@);
            let p = advanced_progress(
                old(echo).progress_on_connection as int,
                old(echo).speed as int,
                dt_ms as int,
                segment_len(*old(echo), positions@),
            );
            if p >= PROGRESS_ONE {
                &&& final(echo).progress_on_connection == 0
                &&& final(echo).current_segment_index == old(echo).current_segment_index + 1
                &&& final(echo).current_node == old(echo).path@[old(
                    echo,
                ).current_segment_index as int + 1]
                &&& pos == Some(b)
            } else {
                &&& final(echo).progress_on_connection == p
                &&& final(echo).current_segment_index == old(echo).current_segment_index
                &&& final(echo).current_node == old(echo).current_node
                &&& pos == Some(lerp_pos_spec(a, b, p))
            }
        }),
{
    if echo.current_segment_index >= echo.path.len() - 1 {
        return None;
    }
    let a: Pos = positions[echo.path[echo.current_segment_index]];
    let b: Pos = positions[echo.path[echo.current_segment_index + 1]];
    let d2: u64 = dist_sq(a, b);
    let d: u64 = isqrt(d2);
    proof {
        assert(d2 <= 0x800_0000_0000) by {
            let dx = b.x - a.x;
            let dy = b.y - a.y;
            assert(0 <= dx * dx <= 0x400_0000_0000) by (nonlinear_arith)
                requires -0x20_0000 <= dx <= 0x20_0000;
            assert(0 <= dy * dy <= 0x400_0000_0000) by (nonlinear_arith)
                requires -0x20_0000 <= dy <= 0x20_0000;
        }
        assert(d < 0x40_0000) by (nonlinear_arith)
            requires d * d <= 0x800_0000_0000;
    }
    let p: u64;
    if d == 0 {
        p = PROGRESS_ONE;
    } else {
        proof {
            assert(echo.speed * dt_ms <= 1000000000000) by (nonlinear_arith)
                requires 0 <= echo.speed <= 1000000 && 0 <= dt_ms <= 1000000;
        }
        let num: u64 = echo.speed * dt_ms * PROGRESS_ONE;
        let den: u64 = 1000 * d;
        let delta: u64 = num / den;
        proof {
            lemma_div_nonincreasing(num as int, den as int);
        }
        p = echo.progress_on_connection + delta;
    }
    if p >= PROGRESS_ONE {
        echo.progress_on_connection = 0;
        echo.current_segment_index = echo.current_segment_index + 1;
        echo.current_node = echo.path[echo.current_segment_index];
        Some(b)
    } else {
        echo.progress_on_connection = p;
        Some(lerp_pos(a, b, p))
    }
}

/// Whether the echo has arrived: it stands on its own target node and has
/// finished its path. Such an echo is retired by the shell.
pub fn echo_at_target(echo: &DataEcho) -> (arrived: bool)
    requires
        echo.wf(),
    ensures
        arrived == (echo.current_node == echo.target_node && echo.at_path_end()),
{
    echo.current_node == echo.target_node && echo.current_segment_index >= echo.path.len() - 1
}

} // verus!
