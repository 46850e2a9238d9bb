//! Verified core of a lunar-phase display for the JD79661 e-paper panel.
//!
//! The crate holds the panel's command catalogue, the wire framing of each
//! command, the scripts of the panel's lifecycle operations, the packed
//! two-bits-per-pixel frame buffer and the renderer that paints the lunar
//! readout onto it. It performs no I/O: the driver hands out scripts of bus
//! actions, and whoever owns the hardware carries them out.

pub mod bus;
pub mod command;
pub mod framebuffer;
pub mod jd79661;
pub mod logic;
pub mod moon;
pub mod rtclock;
pub mod surface;
pub mod theme;
