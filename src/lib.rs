//! Verified core of a native media runtime: symbol-table loading decisions,
//! audio format tables, the export and remux pumps, and an emulation of two
//! media command-line tools built on top of them.
use vstd::prelude::*;

pub mod export;
pub mod ffmpeg;
pub mod ffmpeg_dlopen;
pub mod ffmpeg_runtime;
pub mod ffmpeg_shim;
pub mod http;
pub mod media;
pub mod pipeline;
pub mod text;
pub mod youtube;

verus! {

/// The operating system that native library file names are chosen for.
#[derive(Debug, Clone, Copy, PartialEq, Eq, Structural)]
pub enum TargetOs {
    MacOs,
    Linux,
    Windows,
    Ios,
    Android,
    Other,
}

/// Metadata of a video as its embed service describes it.
#[derive(Debug, Clone)]
pub struct VideoMetadata {
    pub title: String,
    pub author_name: String,
    pub author_url: String,
    pub thumbnail_url: String,
    pub video_id: String,
}

} // verus!
