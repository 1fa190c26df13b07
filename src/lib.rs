//! Core logic of a small image-sequence viewer: an aspect-preserving layout
//! of the displayed image inside the window, and a frame store that decodes
//! each frame lazily, at most once, and keeps it.

pub mod frames;
pub mod layout;
pub mod viewer;
