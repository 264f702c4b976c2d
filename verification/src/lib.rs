//! Core logic of a terminal viewer that repeatedly fetches a random media
//! post from a remote catalog, filters it by file type, streams it to a
//! scratch file with clamped progress reporting, renders it, and lets a
//! keypress decide whether to continue or quit.
//!
//! Everything here is plain computation with verified contracts; the
//! network, file and terminal plumbing lives outside the library.

pub mod catalog;
pub mod download;
pub mod errors;
pub mod filter;
pub mod model;
pub mod permalink;
pub mod spinner;
pub mod state;
