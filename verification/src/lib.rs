//! A frame transition engine for small SPI-attached LCD panels.
//!
//! The library drives a sequence of rendered frames toward a display at a
//! target frame rate.  A [`transition::Transition`] owns a pair of images, a
//! frame generator and a schedule; on each advance it computes the step that
//! should be visible for the current wall-clock time, renders that step and
//! skips the stale ones, so a slow renderer drops frames instead of falling
//! behind.  Concrete generators reveal a growing region of an image
//! ([`sweep`]), pan a window across it ([`transverse`]) or blend two images
//! pixel by pixel ([`dissolve`]).
//!
//! Time is handled as plain millisecond counts supplied by the caller, so the
//! engine itself is independent of any particular clock or sleeping
//! primitive; an embedding runs the loop and performs the waits.

pub mod crop;
pub mod dissolve;
pub mod errors;
pub mod generator;
pub mod image;
pub mod logger;
pub mod sweep;
pub mod transition;
pub mod transverse;
