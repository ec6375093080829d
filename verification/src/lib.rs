//! Extraction of CPU frequency/voltage tables from kernel source text and
//! their rendering as devicetree operating-performance-point nodes.

pub mod decimal;
pub mod error;
pub mod matcher;
pub mod row;
pub mod merge;
pub mod tiers;
pub mod render;
pub mod levels;
pub mod table;
