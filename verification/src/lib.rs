//! Ordo — a small UI kit for games: the decisions it makes, verified.
//!
//! Two ideas carry the whole thing. **The game owns the palette**: Ordo names
//! roles and metrics, and the game says what they are. **Nothing is painted at
//! spawn**: a widget carries tags saying which role and metric it follows, and
//! a pass fills them in afterward from the theme.
//!
//! This crate holds the part of that which is decision rather than drawing:
//! the theme store and the file tables that fill it, the queues that float
//! notices and proclamations above the interface, which tab is open, where an
//! anchored panel sits, how a button or a wedge is painted, and which window
//! is in front.

pub mod theme;
pub mod overlay;
pub mod tabs;
pub mod widgets;
pub mod radial;
pub mod window;
