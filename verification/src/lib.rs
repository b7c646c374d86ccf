//! Enumeration and description of the windows of an X11 display.
//!
//! Nothing here talks to a window system. The caller makes the round trips
//! and hands over what came back: [`enumerate::DisplayReplies`] for one pass
//! over a display, with [`enumerate::ClientReplies`] for each listed window.
//! A reply that is missing, because the round trip failed or could not be
//! made, is `None`. From the replies this crate decides which windows there
//! are, what is said of each, and in what order they come; every function
//! states its result as a function of the replies.
//!
//! - [`request`]: the property reads that the replies answer.
//! - [`atom`]: the names to look up, and the reading of a lookup.
//! - [`text`]: decoding of text properties, and the application name.
//! - [`state`]: the minimized and maximized flags.
//! - [`rect`] and [`monitor`]: overlap of rectangles, and the monitor that
//!   a window belongs to.
//! - [`window`]: the description of one window.
//! - [`enumerate`]: the enumeration of all windows.

pub mod atom;
pub mod enumerate;
pub mod error;
pub mod monitor;
pub mod rect;
pub mod request;
pub mod state;
pub mod text;
pub mod window;
