//! Backend logic of a small desktop web browser: session state that is
//! persisted as JSON, download records, an installable module directory,
//! and an update check against a remote release listing.
//!
//! Everything here is pure computation over plain values; the surrounding
//! application performs the file and network traffic and hands the results
//! to these functions.

pub mod downloads;
pub mod modules;
pub mod state;
pub mod text;
pub mod updater;
