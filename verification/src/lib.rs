//! Synchronization engine for mirroring a local directory tree onto a
//! remote object-storage bucket: change detection by content fingerprint,
//! retry classification for the upload pipeline, job registry with
//! pause/cancel control, and progress accounting.

pub mod api;
pub mod controller;
pub mod data;
pub mod errors;
pub mod etag;
pub mod progress;
pub mod registry;
pub mod structs;
pub mod text;
pub mod transfer;
pub mod walker;
