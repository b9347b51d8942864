//! Verified core of a rotating-cube rendering demo.
//!
//! The library models the decisions of the demo — the one-time
//! initialization guard, the setup sequence with its abort points, the
//! per-frame animation step, the cube mesh, and the rotation transform —
//! as pure functions and small state machines with contracts. A host
//! (a browser shell or any other driver) performs the actual graphics
//! calls that the library's command values describe.

pub mod command;
pub mod frame;
pub mod guard;
pub mod matrix;
pub mod mesh;
pub mod setup;
