//! Hardware identification heuristics, parsers and report logic for a
//! hardware diagnostic suite.
use vstd::prelude::*;

pub mod theme;
pub mod text;
pub mod cpu;
pub mod motherboard;
pub mod storage;
pub mod memory;
pub mod gpu;
pub mod ui_state;
pub mod bench;
pub mod power;
pub mod report;
