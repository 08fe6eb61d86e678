//! Mouse pointer shapes for a terminal multiplexer: choosing the shape from
//! the hover position and drag state, and encoding it as an OSC 22 sequence.
pub mod cursor_shape;
pub mod geometry;
pub mod pointer;
pub mod terminal_notify;
