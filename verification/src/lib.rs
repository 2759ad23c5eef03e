//! Verified core of a live shader-preview viewer.
//!
//! The viewer opens a window, drives a GPU pipeline that draws one
//! full-screen triangle, and lets the operator edit a fragment shader on
//! disk and hot-swap it into the running process. The window system and
//! the GPU backend are external collaborators; this crate holds the logic
//! that decides what happens: the cooperative single-task executor, the
//! bootstrap state machine, the frame uniform record and its byte layout,
//! and the shader-reload protocol.

pub mod report;
pub mod uniforms;
pub mod executor;
pub mod graphics;
pub mod bootstrap;
