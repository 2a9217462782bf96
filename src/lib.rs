//! Coordination core of a wireless scrolling-text display: the hand-off of a
//! message from the radio callbacks to the renderer, the table of connected
//! peers, the peripheral's event policy and the UART notification fan-out.

pub mod message;
pub mod connections;
pub mod peripheral;
pub mod bridge;
pub mod render;
pub mod storage;
pub mod uuid128;
