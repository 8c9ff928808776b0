//! Level descriptors and the level manager: the static table of puzzles,
//! which one is being played, and how play moves from one to the next.

use vstd::prelude::*;
use crate::geom::Pos;
use crate::node::NodeState;

verus! {

/// Extra puzzle metadata a node may carry: the position it must take in the
/// activation order, and an optional per-node activation time limit.
#[derive(Clone, Copy, Debug)]
pub struct PuzzleElement {
    pub required_order: Option<usize>,
    pub activation_time_limit_ms: Option<u64>,
}

/// One node of a level: where it spawns, the state it starts in, and
/// optional puzzle metadata.
#[derive(Clone, Copy, Debug)]
pub struct NodeSpec {
    pub position: Pos,
    pub initial_state: NodeState,
    pub puzzle: Option<PuzzleElement>,
}

/// A static descriptor of one puzzle: its nodes, connections between them
/// as pairs of node indices, the designated start and target node, an
/// optional time limit, and an optional required activation order given as
/// node ids.
#[derive(Clone, Debug)]
pub struct Level {
    pub id: usize,
    pub name: String,
    pub nodes: Vec<NodeSpec>,
    pub connections: Vec<(usize, usize)>,
    pub start_node_index: usize,
    pub target_node_index: usize,
    pub time_limit_ms: Option<u64>,
    pub instructions: String,
    pub required_activation_sequence: Option<Vec<usize>>,
}

impl Level {
    /// Referential consistency: the start and target indices, every
    /// connection endpoint and every required id point at nodes of the
    /// level, and every node sits within the playfield's coordinate bounds.
    pub open spec fn wf(&self) -> bool {
        &&& self.nodes@.len() > 0
        &&& self.start_node_index < self.nodes@.len()
        &&& self.target_node_index < self.nodes@.len()
        &&& forall|k: int|
            0 <= k < self.connections@.len() ==> (#[trigger] self.connections@[k]).0
                < self.nodes@.len() && self.connections@[k].1 < self.nodes@.len()
        &&& forall|k: int|
            0 <= k < self.nodes@.len() ==> (#[trigger] self.nodes@[k]).position.in_bounds()
        &&& match self.required_activation_sequence {
            Some(req) => forall|k: int| 0 <= k < req@.len() ==> (#[trigger] req@[k])
                < self.nodes@.len(),
            None => true,
        }
    }
}

/// Holds the game's level table and the index of the level being played.
#[derive(Clone, Debug)]
pub struct LevelManager {
    pub levels: Vec<Level>,
    pub current_level_index: usize,
}

impl LevelManager {
    /// Every level of the table is referentially consistent.
    pub open spec fn wf(&self) -> bool {
        forall|k: int| 0 <= k < self.levels@.len() ==> (#[trigger] self.levels@[k]).wf()
    }

    /// The level being played, while the index points into the table.
    pub fn get_current_level(&self) -> (r: Option<&Level>)
        ensures
            self.current_level_index < self.levels@.len() ==> (r matches Some(l) && *l
                == self.levels@[self.current_level_index as int]),
            self.current_level_index >= self.levels@.len() ==> r is None,
    {
        if self.current_level_index < self.levels.len() {
            Some(&self.levels[self.current_level_index])
        } else {
            None
        }
    }

    /// Moves on to the next level if one exists; reports whether it did.
    pub fn load_next_level(&mut self) -> (advanced: bool)
        ensures
            advanced == (old(self).current_level_index + 1 < old(self).levels@.len()),
            advanced ==> final(self).current_level_index == old(self).current_level_index + 1,
            !advanced ==> final(self).current_level_index == old(self).current_level_index,
            final(self).levels == old(self).levels,
    {
        if self.levels.len() > 0 && self.current_level_index < self.levels.len() - 1 {
            self.current_level_index = self.current_level_index + 1;
            true
        } else {
            false
        }
    }

    /// Brings the level index back into range: an index past the table's
    /// end wraps to the first level, anything else is kept.
    pub fn reset_current_level(&mut self)
        ensures
            final(self).levels == old(self).levels,
            final(self).current_level_index == if old(self).current_level_index >= old(
                self,
            ).levels@.len() {
                0int
            } else {
                old(self).current_level_index as int
            },
    {
        if self.current_level_index >= self.levels.len() {
            self.current_level_index = 0;
        }
    }

    /// Whether a later level follows the one being played.
    pub fn has_next_level(&self) -> (b: bool)
        ensures
            b == (self.current_level_index + 1 < self.levels@.len()),
    {
        self.levels.len() > 0 && self.current_level_index < self.levels.len() - 1
    }
}

impl Default for LevelManager {
    /// The built-in level table: a straight line, a fork with a decoy
    /// branch, and an ordered-activation puzzle; play opens on the first.
    fn default() -> (m: Self)
        ensures
            m.current_level_index == 0,
            m.levels@.len() == 3,
            m.wf(),
            forall|k: int| 0 <= k < m.levels@.len() ==> (#[trigger] m.levels@[k]).id == k + 1,
            forall|k: int|
                0 <= k < m.levels@.len() ==> (#[trigger] m.levels@[k]).start_node_index == 0 && (
                m.levels@[k]).time_limit_ms is Some && (
                m.levels@[k]).required_activation_sequence is Some,
            m.levels@[0].nodes@.len() == 3 && m.levels@[0].target_node_index == 2,
            m.levels@[1].nodes@.len() == 4 && m.levels@[1].target_node_index == 3,
            m.levels@[2].nodes@.len() == 5 && m.levels@[2].target_node_index == 4,
            m.levels@[0].connections@ == seq![(0usize, 1usize), (1usize, 2usize)],
            m.levels@[1].connections@ == seq![(0usize, 1usize), (1usize, 2usize), (1usize, 3usize)],
            m.levels@[2].connections@ == seq![
                (0usize, 2usize),
                (2usize, 1usize),
                (1usize, 3usize),
                (3usize, 4usize),
            ],
            m.levels@[0].time_limit_ms == Some(30000u64),
            m.levels@[1].time_limit_ms == Some(25000u64),
            m.levels@[2].time_limit_ms == Some(45000u64),
            (m.levels@[0].required_activation_sequence matches Some(r) && r@ == seq![
                0usize,
                1usize,
                2usize,
            ]),
            (m.levels@[1].required_activation_sequence matches Some(r) && r@ == seq![
                0usize,
                1usize,
                3usize,
            ]),
            (m.levels@[2].required_activation_sequence matches Some(r) && r@ == seq![
                0usize,
                2usize,
                1usize,
            ]),
            forall|k: int, j: int|
                0 <= k < 3 && 0 <= j < m.levels@[k].nodes@.len()
                    ==> (#[trigger] m.levels@[k].nodes@[j]).initial_state == (if j
                    == m.levels@[k].start_node_index {
                    NodeState::Start
                } else if j == m.levels@[k].target_node_index {
                    NodeState::Target
                } else {
                    NodeState::Idle
                }),
    {
        let mut levels: Vec<Level> = Vec::new();

        // A straight line: activate the three nodes left to right.
        let level1 = Level {
            id: 1,
            name: "The Basics".to_string(),
            nodes: vec![
                NodeSpec {
                    position: Pos { x: -200, y: 0 },
                    initial_state: NodeState::Start,
                    puzzle: None,
                },
                NodeSpec { position: Pos { x: 0, y: 0 }, initial_state: NodeState::Idle, puzzle: None },
                NodeSpec {
                    position: Pos { x: 200, y: 0 },
                    initial_state: NodeState::Target,
                    puzzle: None,
                },
            ],
            connections: vec![(0, 1), (1, 2)],
            start_node_index: 0,
            target_node_index: 2,
            time_limit_ms: Some(30000),
            instructions: "Activate nodes in sequence to guide the echo to the target.".to_string(),
            required_activation_sequence: Some(vec![0, 1, 2]),
        };
        assert(level1.wf());
        levels.push(level1);

        // A fork: one branch is a decoy, the other carries the target.
        let level2 = Level {
            id: 2,
            name: "A Fork in the Road".to_string(),
            nodes: vec![
                NodeSpec {
                    position: Pos { x: -300, y: 0 },
                    initial_state: NodeState::Start,
                    puzzle: None,
                },
                NodeSpec {
                    position: Pos { x: -100, y: 0 },
                    initial_state: NodeState::Idle,
                    puzzle: None,
                },
                NodeSpec {
                    position: Pos { x: 100, y: 100 },
                    initial_state: NodeState::Idle,
                    puzzle: None,
                },
                NodeSpec {
                    position: Pos { x: 100, y: -100 },
                    initial_state: NodeState::Target,
                    puzzle: None,
                },
            ],
            connections: vec![(0, 1), (1, 2), (1, 3)],
            start_node_index: 0,
            target_node_index: 3,
            time_limit_ms: Some(25000),
            instructions: "Choose the correct path to the target node.".to_string(),
            required_activation_sequence: Some(vec![0, 1, 3]),
        };
        assert(level2.wf());
        levels.push(level2);

        // Ordered activation: the marked nodes must be taken in their
        // displayed numerical order.
        let level3 = Level {
            id: 3,
            name: "Ordered Activation".to_string(),
            nodes: vec![
                NodeSpec {
                    position: Pos { x: -400, y: 0 },
                    initial_state: NodeState::Start,
                    puzzle: Some(
                        PuzzleElement { required_order: Some(0), activation_time_limit_ms: None },
                    ),
                },
                NodeSpec {
                    position: Pos { x: -200, y: 100 },
                    initial_state: NodeState::Idle,
                    puzzle: Some(
                        PuzzleElement { required_order: Some(2), activation_time_limit_ms: None },
                    ),
                },
                NodeSpec {
                    position: Pos { x: 0, y: 0 },
                    initial_state: NodeState::Idle,
                    puzzle: Some(
                        PuzzleElement { required_order: Some(1), activation_time_limit_ms: None },
                    ),
                },
                NodeSpec {
                    position: Pos { x: 200, y: 100 },
                    initial_state: NodeState::Idle,
                    puzzle: None,
                },
                NodeSpec {
                    position: Pos { x: 400, y: 0 },
                    initial_state: NodeState::Target,
                    puzzle: None,
                },
            ],
            connections: vec![(0, 2), (2, 1), (1, 3), (3, 4)],
            start_node_index: 0,
            target_node_index: 4,
            time_limit_ms: Some(45000),
            instructions: "Activate nodes in the displayed numerical order.".to_string(),
            required_activation_sequence: Some(vec![0, 2, 1]),
        };
        assert(level3.wf());
        levels.push(level3);

        LevelManager { levels, current_level_index: 0 }
    }
}

} // verus!
