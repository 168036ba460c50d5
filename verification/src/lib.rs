//! Bubble level for a board with a 3-axis accelerometer and a 5x5 LED matrix.
//!
//! The library holds the decisions of the level: which sensitivity mode the
//! two buttons select, which cell of the matrix a gravity reading lights, and
//! what the frame loop does with each poll of the hardware. The hardware
//! itself is driven by the caller.
pub mod point;
pub mod mode;
pub mod mapper;
pub mod frame;
pub mod level;
