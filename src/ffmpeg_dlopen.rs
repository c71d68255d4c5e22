//! Facts of the single-file media library that older call paths load per call.
use vstd::prelude::*;
use crate::TargetOs;

verus! {

/// Outcome of one run of a media command through the single-file library.
#[derive(Debug, Clone)]
pub struct FFmpegResult {
    pub exit_code: i32,
    pub was_aborted: bool,
    pub stdout: String,
    pub stderr: String,
    pub error: Option<String>,
}

/// File name of the single-file library on each platform.
pub open spec fn library_file(os: TargetOs) -> Seq<char> {
    match os {
        TargetOs::MacOs | TargetOs::Ios => "libffmpeg.dylib"@,
        TargetOs::Windows => "ffmpeg.dll"@,
        _ => "libffmpeg.so"@,
    }
}

/// File name of the single-file library for the platform `os`.
pub fn get_ffmpeg_lib_name(os: TargetOs) -> (r: &'static str)
    ensures
        r@ == library_file(os),
{
    match os {
        TargetOs::MacOs | TargetOs::Ios => "libffmpeg.dylib",
        TargetOs::Windows => "ffmpeg.dll",
        _ => "libffmpeg.so",
    }
}

/// The version banner reported when no library answers the capability query.
pub const FALLBACK_BANNER: &'static str = "ffmpeg version 5.1.4 Copyright (c) 2000-2023 the FFmpeg developers\n  built with clang\n  configuration: --enable-shared --enable-gpl\n  libavutil      57. 28.100 / 57. 28.100\n  libavcodec     59. 37.100 / 59. 37.100\n  libavformat    59. 27.100 / 59. 27.100\n  libavfilter     8. 44.100 /  8. 44.100\n  libswscale      6.  7.100 /  6.  7.100\n  libswresample   4.  7.100 /  4.  7.100";

/// A successful capability reply that needs no native library.
pub fn get_static_capabilities() -> (r: FFmpegResult)
    ensures
        r.exit_code == 0,
        !r.was_aborted,
        r.stdout@ == crate::ffmpeg::STATIC_FILTER_LIST@,
        r.stderr@ == FALLBACK_BANNER@,
        r.error is None,
{
    FFmpegResult {
        exit_code: 0,
        was_aborted: false,
        stdout: String::from_str(crate::ffmpeg::STATIC_FILTER_LIST),
        stderr: String::from_str(FALLBACK_BANNER),
        error: None,
    }
}

} // verus!
