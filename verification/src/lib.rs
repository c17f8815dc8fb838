//! An emulation of an immediate-mode graphics API and of the layer that binds
//! it to a window system: the commands of the API and their display lists,
//! the graphics context that interprets them against two matrix stacks, and
//! the runtime that makes windowing contexts current on threads.
//!
//! Numbers with a fraction are carried as bit patterns. Whoever uses the
//! library multiplies the matrices and draws.

pub mod gl;
pub mod glx;
pub mod launch;
