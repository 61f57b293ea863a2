//! Frame-by-frame logic of a text animation in which one character at a
//! time is shown in upper case.

pub mod text;
pub mod letters;
pub mod cursor;
pub mod timer;
pub mod input;
pub mod render;
pub mod animator;
