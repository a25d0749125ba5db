//! Side-by-side comparison of two equally sized images.
//!
//! Both images are shown in one canvas, divided by a vertical cut that follows
//! the pointer: left of the cut the first image shows, right of it the second.
//! This library holds the rules of that viewer: the comparison of the images'
//! dimensions, the cut position and its clamping, the two draw calls of a frame,
//! and the decisions of the event loop. Windows, files and textures are the
//! caller's business; the library takes and gives plain values.

pub mod cli;
pub mod compositor;
pub mod dimensions;
pub mod driver;
pub mod error;
pub mod split;
pub mod textures;

pub use crate::cli::{parse_args, CLIParams};
pub use crate::compositor::{background, render, DrawCall, Frame, Rect, Rgba, Side};
pub use crate::dimensions::{check_dimensions, Dimensions};
pub use crate::driver::{Action, Event, LoopState, Viewer};
pub use crate::error::{exit_code, ViewerError};
pub use crate::split::SplitState;
pub use crate::textures::{build_textures, TexturePair};
