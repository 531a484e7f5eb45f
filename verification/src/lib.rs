//! Decisions of a small windowed OpenGL viewer: how window events are
//! answered, how shader sources and uniforms are prepared for the GPU, and
//! what is reported of the shader program.
//!
//! Everything here works on plain values. Opening the window, talking to the
//! GPU and computing the camera matrices is left to the program that uses
//! this library.

pub mod event;
pub mod shader;
pub mod report;
