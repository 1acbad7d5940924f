//! Operations on framebuffers.

pub mod blit;
pub mod clear;
pub mod draw;
pub mod read;
