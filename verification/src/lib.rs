//! Decision logic for a presence-to-display bridge: select a pixel-display
//! device from a discovery result, map a presence status to the animation to
//! render, and decide what each subscription event means for the display.
//! All network traffic (discovery, authentication, the event stream, render
//! commands) lives outside this crate; the functions here are pure and carry
//! full contracts.

pub mod device;
pub mod error;
pub mod event;
pub mod status;
