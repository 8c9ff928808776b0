//! Core logic of EchoNet, a 2D node-routing puzzle game.
//!
//! The playfield is a graph of nodes; the player activates nodes (or draws
//! connections between them) to route a traveling signal, the echo, from a
//! start node to a target node, optionally under a time limit and a required
//! activation order. This crate holds the game's data model and per-frame
//! decision logic: positions and distances in whole world units, level
//! tables, activation sequences, echo movement along a path, and the
//! completion and failure checks. A host shell owns the window, input and
//! rendering, and feeds plain values in and out of these functions.

pub mod connect;
pub mod echo;
pub mod geom;
pub mod level;
pub mod node;
pub mod puzzle;
pub mod sequence;
pub mod state;
pub mod timer;
