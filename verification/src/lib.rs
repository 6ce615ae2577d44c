//! Camera discovery and capture as verified state machines.
//!
//! The crate holds the decisions of a video-capture client: how the control
//! call codes are composed, in which order a capture device is negotiated
//! with its driver, how its single buffer cycles between the driver and the
//! process, and how a watcher of the device directory keeps track of the
//! nodes it has opened. Every system call is made by the host program, which
//! performs the action a state machine hands out and reports back what
//! happened.

pub mod camera;
pub mod codes;
pub mod frame;
pub mod notice;
pub mod records;
pub mod rig;
pub mod watch;
