//! Core of an interactive Euclidean-construction kernel: the construction
//! space that owns points, lines and circles by identifier, its append-only
//! history, the symbolic part of the symmetry algebra, colours, timing and
//! the collection layer's bookkeeping.

pub mod ids;
pub mod table;
pub mod geometry;
pub mod construction;
pub mod symmetry;
pub mod color;
pub mod perf;
pub mod collection;
pub mod command;
