//! The verified core of a word highlight assistant: it watches the mouse, reads the
//! text selected in any application after a mouse button is released, and places a toolbar beside
//! the cursor.
use vstd::prelude::*;

pub mod commands;
pub mod listener;
pub mod logger;
pub mod placement;
pub mod popup;
pub mod selection;
pub mod text;
