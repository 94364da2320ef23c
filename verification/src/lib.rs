//! Verified core of a notification-area status indicator.
//!
//! The indicator renders a pair of live numeric values (cursor
//! coordinates in the reference deployment) as two four-digit rows on a
//! small square raster, realizes that raster as a platform icon, and
//! republishes it on a fixed cadence while reacting to menu selections
//! and live color edits.
//!
//! This crate holds the part worth proving: the digit font, the canvas
//! compositor, the ownership discipline for the live icon handle, and
//! the session state machine. Platform plumbing (window classes, the
//! message pump, icon realization, dialogs) lives with the embedding
//! program, which drives the state machine here with plain events and
//! carries out the actions it returns.

pub mod canvas;
pub mod color;
pub mod digits;
pub mod glyphs;
pub mod icon;
pub mod session;
