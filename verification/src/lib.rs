//! Version/build resolution and streaming-download pipeline for a Minecraft
//! server installer.
//!
//! The library covers the logic of the installer: choosing the metadata
//! endpoint for a distribution, extracting version and build lists from the
//! endpoint's JSON replies, selecting the latest build, building the artifact
//! download URL, and accounting for a chunked download with a known total
//! length. Network and file I/O live outside the library; callers hand in
//! response bodies and chunk events and take plain values back.

pub mod decimal;
pub mod distribution;
pub mod download;
pub mod json;
pub mod metadata;
pub mod target;
pub mod urls;
