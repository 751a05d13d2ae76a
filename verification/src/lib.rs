//! The engine of a modal text editor for the terminal: the text and the cursor in it, the
//! motions that single keys stand for, the modes in which keys are read, and the part of the
//! text that a terminal of a given size shows.

pub mod document;
pub mod editor;
pub mod key;
pub mod motion;
pub mod text;
pub mod viewport;
pub mod window;
