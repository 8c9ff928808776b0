//! The connection-drawing puzzle: the player drags edges between nodes and
//! wins when the drawn set of connections equals the puzzle's correct set.
//! Connections are stored as normalized id pairs (smaller id first) without
//! duplicates.

use vstd::prelude::*;
use crate::geom::Pos;
use crate::node::click_hits;
use crate::state::{GameButtonAction, GameState};

verus! {

/// How many connection puzzles the table holds.
pub const MAX_LEVELS: usize = 2;

/// A pair of node ids ordered with the smaller first, however the
/// connection was drawn.
pub open spec fn normalize_pair_spec(a: usize, b: usize) -> (usize, usize) {
    if a < b {
        (a, b)
    } else {
        (b, a)
    }
}

/// Normalizes a drawn connection's endpoints.
pub fn normalize_pair(a: usize, b: usize) -> (p: (usize, usize))
    ensures
        p == normalize_pair_spec(a, b),
{
    if a < b {
        (a, b)
    } else {
        (b, a)
    }
}

/// Whether a list of id pairs contains the given pair.
fn contains_pair(pairs: &Vec<(usize, usize)>, p: (usize, usize)) -> (b: bool)
    ensures
        b == pairs@.contains(p),
{
    let mut i: usize = 0;
    while i < pairs.len()
        invariant
            i <= pairs@.len(),
            forall|k: int| 0 <= k < i ==> pairs@[k] != p,
        decreases pairs@.len() - i,
    {
        let q = pairs[i];
        if q.0 == p.0 && q.1 == p.1 {
            assert(pairs@[i as int] == p);
            return true;
        }
        i += 1;
    }
    false
}

/// Every element of `xs` also stands in `ys`.
fn pairs_subset(xs: &Vec<(usize, usize)>, ys: &Vec<(usize, usize)>) -> (r: bool)
    ensures
        r == forall|k: int| 0 <= k < xs@.len() ==> ys@.contains(#[trigger] xs@[k]),
{
    let mut i: usize = 0;
    while i < xs.len()
        invariant
            i <= xs@.len(),
            forall|k: int| 0 <= k < i ==> ys@.contains(#[trigger] xs@[k]),
        decreases xs@.len() - i,
    {
        if !contains_pair(ys, xs[i]) {
            return false;
        }
        i += 1;
    }
    true
}

/// The connections the player has drawn this attempt.
#[derive(Clone, Debug)]
pub struct PlayerAttempt {
    pub drawn_connections: Vec<(usize, usize)>,
}

impl Default for PlayerAttempt {
    /// No connection drawn yet.
    fn default() -> (a: Self)
        ensures
            a.drawn_connections@ == Seq::<(usize, usize)>::empty(),
            a.wf(),
    {
        PlayerAttempt { drawn_connections: Vec::new() }
    }
}

impl PlayerAttempt {
    /// Each drawn connection is a normalized pair, recorded once.
    pub open spec fn wf(&self) -> bool {
        &&& self.drawn_connections@.no_duplicates()
        &&& forall|k: int|
            0 <= k < self.drawn_connections@.len() ==> (#[trigger] self.drawn_connections@[k]).0
                <= self.drawn_connections@[k].1
    }

    /// Forgets every drawn connection, for a fresh attempt.
    pub fn clear(&mut self)
        ensures
            final(self).drawn_connections@ == Seq::<(usize, usize)>::empty(),
            final(self).wf(),
    {
        self.drawn_connections.clear();
    }

    /// Records an attempted connection between two nodes: the pair is
    /// normalized and appended unless it was already drawn. Returns whether
    /// it was new.
    pub fn record_connection_attempt(&mut self, id1: usize, id2: usize) -> (inserted: bool)
        ensures
            inserted == !old(self).drawn_connections@.contains(normalize_pair_spec(id1, id2)),
            inserted ==> final(self).drawn_connections@ == old(self).drawn_connections@.push(
                normalize_pair_spec(id1, id2),
            ),
            !inserted ==> final(self).drawn_connections@ == old(self).drawn_connections@,
            old(self).wf() ==> final(self).wf(),
    {
        let p = normalize_pair(id1, id2);
        if contains_pair(&self.drawn_connections, p) {
            false
        } else {
            let ghost prev = self.drawn_connections@;
            self.drawn_connections.push(p);
            proof {
                if prev.no_duplicates() {
                    assert forall|i: int, j: int|
                        0 <= i < self.drawn_connections@.len() && 0 <= j
                            < self.drawn_connections@.len() && i != j implies self.drawn_connections@[i]
                        != self.drawn_connections@[j] by {
                        if i == prev.len() {
                            assert(!prev.contains(p));
                        } else if j == prev.len() {
                            assert(!prev.contains(p));
                        }
                    }
                }
            }
            true
        }
    }
}

/// One connection puzzle: where its nodes sit, and the set of connections,
/// as normalized id pairs, that solves it.
#[derive(Clone, Debug)]
pub struct PuzzleSpec {
    pub node_positions: Vec<Pos>,
    pub correct_connections: Vec<(usize, usize)>,
}

impl PuzzleSpec {
    /// The solution names each connection once, normalized, between nodes
    /// of the puzzle, and every node sits within the playfield's bounds.
    pub open spec fn wf(&self) -> bool {
        &&& self.correct_connections@.no_duplicates()
        &&& forall|k: int|
            0 <= k < self.correct_connections@.len() ==> (
            #[trigger] self.correct_connections@[k]).0 <= self.correct_connections@[k].1
                && self.correct_connections@[k].1 < self.node_positions@.len()
        &&& forall|k: int|
            0 <= k < self.node_positions@.len() ==> (#[trigger] self.node_positions@[k]).in_bounds()
    }
}

impl Default for PuzzleSpec {
    /// The trivial two-node puzzle: connect the pair.
    fn default() -> (s: Self)
        ensures
            s.wf(),
            s.node_positions@ =~= seq![Pos { x: -100i64, y: 0i64 }, Pos { x: 100i64, y: 0i64 }],
            s.correct_connections@ =~= seq![(0usize, 1usize)],
    {
        PuzzleSpec {
            node_positions: vec![Pos { x: -100, y: 0 }, Pos { x: 100, y: 0 }],
            correct_connections: vec![(0, 1)],
        }
    }
}

/// The node layout of each connection puzzle: a three-node chevron, then a
/// five-node hourglass around a center node. Ids beyond the table fall back
/// to the first puzzle.
pub open spec fn puzzle_positions_spec(level_id: usize) -> Seq<Pos> {
    if level_id == 1 {
        seq![
            Pos { x: -200i64, y: 100i64 },
            Pos { x: -200i64, y: -100i64 },
            Pos { x: 0i64, y: 0i64 },
            Pos { x: 200i64, y: 100i64 },
            Pos { x: 200i64, y: -100i64 },
        ]
    } else {
        seq![Pos { x: -150i64, y: 0i64 }, Pos { x: 0i64, y: 100i64 }, Pos { x: 150i64, y: 0i64 }]
    }
}

/// The solving connections of each puzzle: the chevron's two edges, or the
/// hourglass's four spokes through the center.
pub open spec fn puzzle_connections_spec(level_id: usize) -> Seq<(usize, usize)> {
    if level_id == 1 {
        seq![(0usize, 2usize), (1usize, 2usize), (2usize, 3usize), (2usize, 4usize)]
    } else {
        seq![(0usize, 1usize), (1usize, 2usize)]
    }
}

/// Builds the puzzle a level id names.
pub fn get_level_spec(level_id: usize) -> (s: PuzzleSpec)
    ensures
        s.wf(),
        s.node_positions@ == puzzle_positions_spec(level_id),
        s.correct_connections@ == puzzle_connections_spec(level_id),
{
    let s = if level_id == 1 {
        PuzzleSpec {
            node_positions: vec![
                Pos { x: -200, y: 100 },
                Pos { x: -200, y: -100 },
                Pos { x: 0, y: 0 },
                Pos { x: 200, y: 100 },
                Pos { x: 200, y: -100 },
            ],
            correct_connections: vec![(0, 2), (1, 2), (2, 3), (2, 4)],
        }
    } else {
        PuzzleSpec {
            node_positions: vec![Pos { x: -150, y: 0 }, Pos { x: 0, y: 100 }, Pos { x: 150, y: 0 }],
            correct_connections: vec![(0, 1), (1, 2)],
        }
    };
    proof {
        assert(s.node_positions@ =~= puzzle_positions_spec(level_id));
        assert(s.correct_connections@ =~= puzzle_connections_spec(level_id));
    }
    s
}

/// Which connection puzzle is being played, and how many the table holds.
#[derive(Clone, Copy, Debug)]
pub struct CurrentLevel {
    pub level_id: usize,
    pub total_levels: usize,
}

impl Default for CurrentLevel {
    /// Play opens on the first puzzle, before the table's size is known.
    fn default() -> (c: Self)
        ensures
            c.level_id == 0,
            c.total_levels == 0,
    {
        CurrentLevel { level_id: 0, total_levels: 0 }
    }
}

impl CurrentLevel {
    /// Whether a later puzzle follows the one being played.
    pub fn has_next_level(&self) -> (b: bool)
        requires
            self.total_levels >= 1,
        ensures
            b == (self.level_id < self.total_levels - 1),
    {
        self.level_id < self.total_levels - 1
    }
}

/// Prepares the level bookkeeping as a level loads: the table's size is
/// installed and an id past the table wraps to the first puzzle. Returns
/// the puzzle to set up.
pub fn begin_level(current: &mut CurrentLevel) -> (s: PuzzleSpec)
    ensures
        final(current).total_levels == MAX_LEVELS,
        final(current).level_id == if old(current).level_id >= MAX_LEVELS {
            0int
        } else {
            old(current).level_id as int
        },
        s.wf(),
        s.node_positions@ == puzzle_positions_spec(final(current).level_id),
        s.correct_connections@ == puzzle_connections_spec(final(current).level_id),
{
    current.total_levels = MAX_LEVELS;
    if current.level_id >= MAX_LEVELS {
        current.level_id = 0;
    }
    get_level_spec(current.level_id)
}

/// The puzzle is complete exactly when the drawn connections, as a set,
/// equal the correct ones.
pub fn check_puzzle_completion(attempt: &PlayerAttempt, puzzle: &PuzzleSpec) -> (complete: bool)
    requires
        attempt.wf(),
        puzzle.wf(),
    ensures
        complete == (attempt.drawn_connections@.to_set() == puzzle.correct_connections@.to_set()),
{
    let drawn = &attempt.drawn_connections;
    let correct = &puzzle.correct_connections;
    let len_eq = drawn.len() == correct.len();
    let drawn_sub = pairs_subset(drawn, correct);
    let correct_sub = pairs_subset(correct, drawn);
    let complete = len_eq && drawn_sub && correct_sub;
    proof {
        let ds = drawn@.to_set();
        let cs = correct@.to_set();
        if drawn_sub && correct_sub {
            assert(ds =~= cs);
            drawn@.unique_seq_to_set();
            correct@.unique_seq_to_set();
        }
        if complete {
            assert(ds == cs);
        } else {
            if drawn_sub && correct_sub {
                assert(drawn@.len() == correct@.len());
            } else if !drawn_sub {
                let k = choose|k: int|
                    0 <= k < drawn@.len() && !correct@.contains(#[trigger] drawn@[k]);
                assert(ds.contains(drawn@[k]));
                assert(!cs.contains(drawn@[k]));
            } else {
                let k = choose|k: int|
                    0 <= k < correct@.len() && !drawn@.contains(#[trigger] correct@[k]);
                assert(cs.contains(correct@[k]));
                assert(!ds.contains(correct@[k]));
            }
        }
    }
    complete
}

/// The state of a connection drag: the node it started from, if one is
/// under way.
#[derive(Clone, Copy, Debug)]
pub struct DragState {
    pub start_node: Option<usize>,
}

impl Default for DragState {
    /// No drag under way.
    fn default() -> (d: Self)
        ensures
            d.start_node is None,
    {
        DragState { start_node: None }
    }
}

/// Where a drag begins: only on the currently selected (activated) node,
/// and only when the press lands on it.
pub fn drag_press(activated: Option<usize>, positions: &Vec<Pos>, click: Pos) -> (r: Option<usize>)
    requires
        click.in_bounds(),
        activated matches Some(i) ==> i < positions@.len(),
        forall|k: int| 0 <= k < positions@.len() ==> (#[trigger] positions@[k]).in_bounds(),
    ensures
        r == (if activated matches Some(i) && click_hits(click, positions@[i as int]) {
            activated
        } else {
            None::<usize>
        }),
{
    match activated {
        Some(i) => {
            let d = crate::geom::dist_sq(click, positions[i]);
            if d < crate::node::NODE_CLICK_RADIUS * crate::node::NODE_CLICK_RADIUS {
                Some(i)
            } else {
                None
            }
        },
        None => None,
    }
}

/// Where a drag ends: the first node other than the drag's start that the
/// release lands on, scanning in id order.
pub fn drag_release(start: usize, positions: &Vec<Pos>, release: Pos) -> (r: Option<usize>)
    requires
        release.in_bounds(),
        forall|k: int| 0 <= k < positions@.len() ==> (#[trigger] positions@[k]).in_bounds(),
    ensures
        r matches Some(j) ==> 0 <= j < positions@.len() && j != start && click_hits(
            release,
            positions@[j as int],
        ) && (forall|k: int| 0 <= k < j && k != start ==> !click_hits(release, positions@[k])),
        r is None ==> forall|k: int|
            0 <= k < positions@.len() && k != start ==> !click_hits(release, positions@[k]),
{
    let mut i: usize = 0;
    while i < positions.len()
        invariant
            i <= positions@.len(),
            release.in_bounds(),
            forall|k: int| 0 <= k < positions@.len() ==> (#[trigger] positions@[k]).in_bounds(),
            forall|k: int| 0 <= k < i && k != start ==> !click_hits(release, positions@[k]),
        decreases positions@.len() - i,
    {
        if i != start {
            let d = crate::geom::dist_sq(release, positions[i]);
            if d < crate::node::NODE_CLICK_RADIUS * crate::node::NODE_CLICK_RADIUS {
                return Some(i);
            }
        }
        i += 1;
    }
    None
}

/// What a press on a level-complete-screen button does: the next-level
/// button advances the level and reloads while a later puzzle exists; the
/// menu button returns to the main menu; the restart button is not wired.
pub fn level_complete_button_action(action: GameButtonAction, current: &mut CurrentLevel) -> (r:
    Option<GameState>)
    requires
        old(current).total_levels >= 1,
    ensures
        match action {
            GameButtonAction::NextLevel => {
                if old(current).level_id < old(current).total_levels - 1 {
                    &&& final(current).level_id == old(current).level_id + 1
                    &&& final(current).total_levels == old(current).total_levels
                    &&& r == Some(GameState::LoadingLevel)
                } else {
                    &&& *final(current) == *old(current)
                    &&& r is None
                }
            },
            GameButtonAction::BackToMenu => *final(current) == *old(current) && r == Some(
                GameState::MainMenu,
            ),
            GameButtonAction::RestartLevel => *final(current) == *old(current) && r is None,
        },
{
    match action {
        GameButtonAction::NextLevel => {
            if current.level_id < current.total_levels - 1 {
                current.level_id = current.level_id + 1;
                Some(GameState::LoadingLevel)
            } else {
                None
            }
        },
        GameButtonAction::BackToMenu => Some(GameState::MainMenu),
        GameButtonAction::RestartLevel => None,
    }
}

} // verus!
