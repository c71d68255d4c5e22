//! Audio formats as the command surface names them, and the fixed replies of
//! the capability query.
use vstd::prelude::*;
use crate::text::{keyword_matches, matches_keyword, same_ignoring_ascii_case};
use crate::TargetOs;

verus! {

/// Target audio format of an extraction or an export.
#[derive(Debug, Clone, Copy, PartialEq, Eq, Structural)]
pub enum AudioFormat {
    Mp3,
    Aac,
    Flac,
    Wav,
    /// Keep the source's coded audio as it is.
    Copy,
}

/// The format that a file-name extension selects, ignoring ASCII case;
/// anything unrecognised selects `Copy`.
pub open spec fn format_for_extension(ext: Seq<char>) -> AudioFormat {
    if matches_keyword(ext, seq!['m', 'p', '3']) {
        AudioFormat::Mp3
    } else if matches_keyword(ext, seq!['a', 'a', 'c']) || matches_keyword(ext, seq!['m', '4', 'a']) {
        AudioFormat::Aac
    } else if matches_keyword(ext, seq!['f', 'l', 'a', 'c']) {
        AudioFormat::Flac
    } else if matches_keyword(ext, seq!['w', 'a', 'v']) {
        AudioFormat::Wav
    } else {
        AudioFormat::Copy
    }
}

/// The encoder that produces each format.
pub open spec fn encoder_of(f: AudioFormat) -> Seq<char> {
    match f {
        AudioFormat::Mp3 => seq!['l', 'i', 'b', 'm', 'p', '3', 'l', 'a', 'm', 'e'],
        AudioFormat::Aac => seq!['a', 'a', 'c'],
        AudioFormat::Flac => seq!['f', 'l', 'a', 'c'],
        AudioFormat::Wav => seq!['p', 'c', 'm', '_', 's', '1', '6', 'l', 'e'],
        AudioFormat::Copy => seq!['c', 'o', 'p', 'y'],
    }
}

/// Extension lookup ignores ASCII case: two extensions that differ only in
/// the case of their letters select the same format, both for the command
/// surface and for the export engine.
pub proof fn lemma_extension_case_insensitive(s: Seq<char>, t: Seq<char>)
    requires
        same_ignoring_ascii_case(s, t),
    ensures
        format_for_extension(s) == format_for_extension(t),
        crate::ffmpeg_runtime::target_for_extension(s) == crate::ffmpeg_runtime::target_for_extension(t),
{
    assert forall|kw: Seq<char>| matches_keyword(s, kw) <==> matches_keyword(t, kw) by {
        if matches_keyword(s, kw) {
            assert forall|i: int| 0 <= i < t.len() implies crate::text::folded_code(#[trigger] t[i]) == kw[i] as u32 by {
                assert(crate::text::folded_code(s[i]) == kw[i] as u32);
            }
        }
        if matches_keyword(t, kw) {
            assert forall|i: int| 0 <= i < s.len() implies crate::text::folded_code(#[trigger] s[i]) == kw[i] as u32 by {
                assert(crate::text::folded_code(t[i]) == kw[i] as u32);
            }
        }
    }
}

/// Every extension of the format table selects the encoder the table names,
/// whatever the case of its letters.
pub proof fn lemma_extension_table(ext: Seq<char>)
    ensures
        matches_keyword(ext, seq!['m', 'p', '3']) ==> encoder_of(format_for_extension(ext)) == seq![
            'l',
            'i',
            'b',
            'm',
            'p',
            '3',
            'l',
            'a',
            'm',
            'e',
        ],
        matches_keyword(ext, seq!['a', 'a', 'c']) || matches_keyword(ext, seq!['m', '4', 'a'])
            ==> encoder_of(format_for_extension(ext)) == seq!['a', 'a', 'c'],
        matches_keyword(ext, seq!['f', 'l', 'a', 'c']) ==> encoder_of(format_for_extension(ext)) == seq![
            'f',
            'l',
            'a',
            'c',
        ],
        matches_keyword(ext, seq!['w', 'a', 'v']) ==> encoder_of(format_for_extension(ext)) == seq![
            'p',
            'c',
            'm',
            '_',
            's',
            '1',
            '6',
            'l',
            'e',
        ],
{
    let mp3 = seq!['m', 'p', '3'];
    let aac = seq!['a', 'a', 'c'];
    let m4a = seq!['m', '4', 'a'];
    let flac = seq!['f', 'l', 'a', 'c'];
    let wav = seq!['w', 'a', 'v'];
    if matches_keyword(ext, aac) || matches_keyword(ext, m4a) {
        if matches_keyword(ext, mp3) {
            if matches_keyword(ext, aac) {
                assert(mp3[0] as u32 == crate::text::folded_code(ext[0]) == aac[0] as u32);
            } else {
                assert(mp3[1] as u32 == crate::text::folded_code(ext[1]) == m4a[1] as u32);
            }
        }
    }
    if matches_keyword(ext, flac) {
        assert(!matches_keyword(ext, mp3) && !matches_keyword(ext, aac) && !matches_keyword(ext, m4a));
    }
    if matches_keyword(ext, wav) {
        assert(crate::text::folded_code(ext[0]) == wav[0] as u32);
        assert(!matches_keyword(ext, mp3) && !matches_keyword(ext, aac) && !matches_keyword(ext, m4a));
    }
}

impl AudioFormat {
    /// Name of the encoder for this format ("copy" for pass-through).
    pub fn encoder_name(&self) -> (r: &'static str)
        ensures
            r@ == encoder_of(*self),
    {
        match self {
            AudioFormat::Mp3 => {
                proof { reveal_strlit("libmp3lame"); }
                "libmp3lame"
            },
            AudioFormat::Aac => {
                proof { reveal_strlit("aac"); }
                "aac"
            },
            AudioFormat::Flac => {
                proof { reveal_strlit("flac"); }
                "flac"
            },
            AudioFormat::Wav => {
                proof { reveal_strlit("pcm_s16le"); }
                "pcm_s16le"
            },
            AudioFormat::Copy => {
                proof { reveal_strlit("copy"); }
                "copy"
            },
        }
    }

    /// The format selected by a file-name extension, ignoring ASCII case.
    pub fn from_extension(ext: &str) -> (r: AudioFormat)
        ensures
            r == format_for_extension(ext@),
    {
        proof {
            reveal_strlit("mp3");
            reveal_strlit("aac");
            reveal_strlit("m4a");
            reveal_strlit("flac");
            reveal_strlit("wav");
        }
        if keyword_matches(ext, "mp3") {
            AudioFormat::Mp3
        } else if keyword_matches(ext, "aac") || keyword_matches(ext, "m4a") {
            AudioFormat::Aac
        } else if keyword_matches(ext, "flac") {
            AudioFormat::Flac
        } else if keyword_matches(ext, "wav") {
            AudioFormat::Wav
        } else {
            AudioFormat::Copy
        }
    }
}

impl Default for AudioFormat {
    fn default() -> (r: AudioFormat)
        ensures
            r == AudioFormat::Mp3,
    {
        AudioFormat::Mp3
    }
}

/// Outcome of one run of a media command.
#[derive(Debug, Clone)]
pub struct FFmpegResult {
    pub exit_code: i32,
    pub was_aborted: bool,
    pub stdout: String,
    pub stderr: String,
    pub error: Option<String>,
}

/// File name of the single-file media library on each platform.
pub open spec fn single_library_file(os: TargetOs) -> Seq<char> {
    match os {
        TargetOs::MacOs => "libffmpeg.dylib"@,
        TargetOs::Windows => "ffmpeg.dll"@,
        _ => "libffmpeg.so"@,
    }
}

/// File name of the single-file media library for the platform `os`.
pub fn get_ffmpeg_lib_name(os: TargetOs) -> (r: &'static str)
    ensures
        r@ == single_library_file(os),
{
    match os {
        TargetOs::MacOs => "libffmpeg.dylib",
        TargetOs::Windows => "ffmpeg.dll",
        _ => "libffmpeg.so",
    }
}

/// The bitstream-filter catalogue that the capability query reports.
pub const STATIC_FILTER_LIST: &'static str = "Bitstream filters:\naac_adtstoasc\nav1_frame_merge\nav1_frame_split\nav1_metadata\nchomp\ndump_extra\ndca_core\ndv_error_marker\neac3_core\nextract_extradata\nfilter_units\nh264_metadata\nh264_mp4toannexb\nh264_redundant_pps\nhapqa_extract\nhevc_metadata\nhevc_mp4toannexb\nimxdump\nmjpeg2jpeg\nmjpegadump\nmp3decomp\nmpeg2_metadata\nmpeg4_unpack_bframes\nmov2textsub\nnoise\nnull\nopus_metadata\npcm_rechunk\npgs_frame_merge\nprores_metadata\nremove_extra\nsetts\ntext2movsub\ntrace_headers\ntruehd_core\nvp9_metadata\nvp9_raw_reorder\nvp9_superframe\nvp9_superframe_split";

/// The version banner that the capability query reports.
pub const STATIC_BANNER: &'static str = "ffmpeg version 7.0 Copyright (c) 2000-2024 the FFmpeg developers\n  built with clang\n  configuration: --enable-shared --enable-gpl\n  libavutil      59.  8.100 / 59.  8.100\n  libavcodec     61.  3.100 / 61.  3.100\n  libavformat    61.  1.100 / 61.  1.100\n  libavfilter    10.  1.100 / 10.  1.100\n  libswscale      8.  1.100 /  8.  1.100\n  libswresample   5.  1.100 /  5.  1.100";

/// A successful capability reply that needs no native library.
pub fn get_static_capabilities() -> (r: FFmpegResult)
    ensures
        r.exit_code == 0,
        !r.was_aborted,
        r.stdout@ == STATIC_FILTER_LIST@,
        r.stderr@ == STATIC_BANNER@,
        r.error is None,
{
    FFmpegResult {
        exit_code: 0,
        was_aborted: false,
        stdout: String::from_str(STATIC_FILTER_LIST),
        stderr: String::from_str(STATIC_BANNER),
        error: None,
    }
}

/// The emulated media tool that a command name selects.
#[derive(Debug, Clone, Copy, PartialEq, Eq, Structural)]
pub enum MediaTool {
    Probe,
    Convert,
}

pub open spec fn tool_for(name: Seq<char>) -> Option<MediaTool> {
    if name == "ffprobe"@ {
        Some(MediaTool::Probe)
    } else if name == "ffmpeg"@ {
        Some(MediaTool::Convert)
    } else {
        None
    }
}

/// The tool named `name`, or an "Unknown command" error.
pub fn tool_named(name: &String) -> (r: Result<MediaTool, String>)
    ensures
        match tool_for(name@) {
            Some(t) => r == Ok::<MediaTool, String>(t),
            None => r matches Err(e) && e@ == "Unknown command: "@ + name@,
        },
{
    if *name == String::from_str("ffprobe") {
        Ok(MediaTool::Probe)
    } else if *name == String::from_str("ffmpeg") {
        Ok(MediaTool::Convert)
    } else {
        Err(String::from_str("Unknown command: ").concat(name.as_str()))
    }
}

/// A command outcome as the front end receives it: never aborted, and with
/// the error stream repeated as the error when the exit code is not zero.
pub fn from_shim_result(r: crate::ffmpeg_shim::ShimResult) -> (res: FFmpegResult)
    ensures
        res.exit_code == r.exit_code,
        !res.was_aborted,
        res.stdout == r.stdout,
        res.stderr == r.stderr,
        r.exit_code != 0 ==> res.error == Some(r.stderr),
        r.exit_code == 0 ==> res.error is None,
{
    let error = if r.exit_code != 0 {
        Some(r.stderr.clone())
    } else {
        None
    };
    FFmpegResult { exit_code: r.exit_code, was_aborted: false, stdout: r.stdout, stderr: r.stderr, error }
}

} // verus!
