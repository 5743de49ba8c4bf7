//! Release notifier core: polls configured sources (GitHub repositories or
//! syndication feeds) for a release inside a recent day window and prepares
//! one tracking-issue notification per qualifying release.
//!
//! The library holds the pure logic: source-list resolution, release
//! normalization, the date-window decision, and the notification builder.
//! Network transport and configuration ingestion stay outside; they hand the
//! library plain values and drive its per-source step functions.

pub mod feed;
pub mod gh;
pub mod input;
pub mod notify;
pub mod outcome;
pub mod source;
pub mod text;
pub mod time;
