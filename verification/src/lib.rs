//! Core of a small GUI toolkit: a styled-text model that maps formatting
//! attributes onto byte ranges of a UTF-8 buffer, and a window core that owns
//! a root widget and routes platform callbacks through per-pass contexts.

pub mod attribute;
pub mod env;
pub mod geometry;
pub mod rich_text;
pub mod spans;
pub mod widget;
pub mod window;

use vstd::prelude::*;

verus! {

} // verus!
