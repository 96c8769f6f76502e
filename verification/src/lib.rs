//! Decision logic of the APEX robot firmware, verified with Verus.
//!
//! The firmware itself (hardware setup, async tasks, floating-point geometry
//! and control) runs around these functions: it performs the actions they
//! choose and reports back what happened.
pub mod buzzer;
pub mod motion;
pub mod network;
pub mod path;
