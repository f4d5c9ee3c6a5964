//! Foundational primitives of a turn-based dungeon simulation: a singly-linked
//! sequence container, a bounded stat that reports by how much an update left
//! its range, the creature state built on that stat, and the grid of terrain
//! that the creatures walk on.

pub mod creatures;
pub mod list;
pub mod stat;
pub mod terrain;
