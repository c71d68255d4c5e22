//! Emulation of two media command-line tools: a constrained argument grammar,
//! the steps each command takes, and the text it prints.
use vstd::prelude::*;
use crate::text::{dec, decimal, fixed, fixed_point, idec, pad_left, padded, seconds_seq, seconds_text, signed_decimal};
use crate::ffmpeg_runtime::{LibVersions, ffmpeg_version, versions_seq};
use crate::media::StreamInfo;

verus! {

/// Outcome of an emulated command: exit code and the two output streams.
#[derive(Debug)]
pub struct ShimResult {
    pub exit_code: i32,
    pub stdout: String,
    pub stderr: String,
}

/// The audio codec a conversion asks for.
#[derive(Debug, Clone, Copy, PartialEq, Eq, Structural)]
pub enum AudioCodec {
    Copy,
    Aac,
    Mp3,
    Flac,
    PcmS16Le,
}

/// The codec each accepted name selects (names are case-sensitive).
pub open spec fn codec_named(s: Seq<char>) -> Option<AudioCodec> {
    if s == "copy"@ {
        Some(AudioCodec::Copy)
    } else if s == "aac"@ {
        Some(AudioCodec::Aac)
    } else if s == "libmp3lame"@ || s == "mp3"@ {
        Some(AudioCodec::Mp3)
    } else if s == "flac"@ {
        Some(AudioCodec::Flac)
    } else if s == "pcm_s16le"@ {
        Some(AudioCodec::PcmS16Le)
    } else {
        None
    }
}

/// Whether `a` is the literal `lit`.
fn arg_is(a: &String, lit: &str) -> (r: bool)
    ensures
        r == (a@ == lit@),
{
    let l = String::from_str(lit);
    *a == l
}

impl AudioCodec {
    /// The codec named `s`, if any.
    pub fn from_str(s: &String) -> (r: Option<AudioCodec>)
        ensures
            r == codec_named(s@),
    {
        if arg_is(s, "copy") {
            Some(AudioCodec::Copy)
        } else if arg_is(s, "aac") {
            Some(AudioCodec::Aac)
        } else if arg_is(s, "libmp3lame") || arg_is(s, "mp3") {
            Some(AudioCodec::Mp3)
        } else if arg_is(s, "flac") {
            Some(AudioCodec::Flac)
        } else if arg_is(s, "pcm_s16le") {
            Some(AudioCodec::PcmS16Le)
        } else {
            None
        }
    }
}

/// A parsed probe command.
#[derive(Debug)]
pub enum FfprobeCommand {
    ListBitstreamFilters,
    ShowStreams { input: String },
    Version,
}

/// A probe command as a mathematical value.
pub enum ProbeRequest {
    ListBitstreamFilters,
    ShowStreams(Seq<char>),
    Version,
}

impl FfprobeCommand {
    pub open spec fn view(&self) -> ProbeRequest {
        match self {
            FfprobeCommand::ListBitstreamFilters => ProbeRequest::ListBitstreamFilters,
            FfprobeCommand::ShowStreams { input } => ProbeRequest::ShowStreams(input@),
            FfprobeCommand::Version => ProbeRequest::Version,
        }
    }
}

/// The probe command named by the first recognised flag at or after position
/// `i`; the stream query reads its input from the last argument.
pub open spec fn probe_parse_at(args: Seq<String>, i: int) -> Option<ProbeRequest>
    decreases args.len() - i,
{
    if i < 0 || i >= args.len() {
        None
    } else if args[i]@ == "-bsfs"@ {
        Some(ProbeRequest::ListBitstreamFilters)
    } else if args[i]@ == "-version"@ {
        Some(ProbeRequest::Version)
    } else if args[i]@ == "-show_streams"@ || args[i]@ == "-show_format"@ {
        Some(ProbeRequest::ShowStreams(args.last()@))
    } else {
        probe_parse_at(args, i + 1)
    }
}

/// Parses probe arguments: the first of `-bsfs`, `-version`,
/// `-show_streams`/`-show_format` decides; none of them is an error.
pub fn parse_ffprobe_args(args: &[String]) -> (r: Result<FfprobeCommand, String>)
    ensures
        probe_parse_at(args@, 0) is None <==> r is Err,
        r matches Err(e) ==> e@ == "Unknown ffprobe command"@,
        r matches Ok(c) ==> probe_parse_at(args@, 0) == Some(c.view()),
{
    let mut i: usize = 0;
    while i < args.len()
        invariant
            i <= args@.len(),
            probe_parse_at(args@, 0) == probe_parse_at(args@, i as int),
        decreases args@.len() - i,
    {
        if arg_is(&args[i], "-bsfs") {
            return Ok(FfprobeCommand::ListBitstreamFilters);
        } else if arg_is(&args[i], "-version") {
            return Ok(FfprobeCommand::Version);
        } else if arg_is(&args[i], "-show_streams") || arg_is(&args[i], "-show_format") {
            let input = args[args.len() - 1].clone();
            return Ok(FfprobeCommand::ShowStreams { input });
        }
        i = i + 1;
    }
    Err(String::from_str("Unknown ffprobe command"))
}

/// A parsed conversion command.
#[derive(Debug)]
pub struct FfmpegRemux {
    pub input: String,
    pub output: String,
    pub audio_codec: AudioCodec,
    pub output_format: String,
    pub no_video: bool,
    pub overwrite: bool,
}

/// What the conversion parser has gathered so far.
pub struct ConvertArgs {
    pub input: Option<Seq<char>>,
    pub output: Option<Seq<char>>,
    pub codec: AudioCodec,
    pub format: Seq<char>,
    pub no_video: bool,
    pub overwrite: bool,
}

pub open spec fn initial_convert_args() -> ConvertArgs {
    ConvertArgs {
        input: None,
        output: None,
        codec: AudioCodec::Copy,
        format: Seq::empty(),
        no_video: false,
        overwrite: false,
    }
}

pub open spec fn starts_with_dash(s: Seq<char>) -> bool {
    s.len() > 0 && s[0] == '-'
}

/// The conversion grammar from position `i` on: `-i <input>`,
/// `-c:a|-acodec <codec>`, `-f <format>`, `-vn`, `-y`, `-v|-loglevel <level>`
/// (ignored), `-hide_banner`, `-nostdin` (ignored), and a last argument not
/// starting with a dash as the output. A flag that lacks its value at the end
/// of the line is ignored; an unknown codec name is an error.
pub open spec fn convert_parse_from(args: Seq<String>, i: int, st: ConvertArgs) -> Result<ConvertArgs, Seq<char>>
    decreases args.len() - i,
{
    if i < 0 || i >= args.len() {
        Ok(st)
    } else {
        let a = args[i]@;
        let has_value = i + 1 < args.len();
        if a == "-i"@ {
            if has_value {
                convert_parse_from(args, i + 2, ConvertArgs { input: Some(args[i + 1]@), ..st })
            } else {
                Ok(st)
            }
        } else if a == "-c:a"@ || a == "-acodec"@ {
            if has_value {
                match codec_named(args[i + 1]@) {
                    Some(c) => convert_parse_from(args, i + 2, ConvertArgs { codec: c, ..st }),
                    None => Err("Unknown audio codec: "@ + args[i + 1]@),
                }
            } else {
                Ok(st)
            }
        } else if a == "-f"@ {
            if has_value {
                convert_parse_from(args, i + 2, ConvertArgs { format: args[i + 1]@, ..st })
            } else {
                Ok(st)
            }
        } else if a == "-vn"@ {
            convert_parse_from(args, i + 1, ConvertArgs { no_video: true, ..st })
        } else if a == "-y"@ {
            convert_parse_from(args, i + 1, ConvertArgs { overwrite: true, ..st })
        } else if a == "-v"@ || a == "-loglevel"@ {
            if has_value {
                convert_parse_from(args, i + 2, st)
            } else {
                Ok(st)
            }
        } else if !starts_with_dash(a) && i == args.len() - 1 {
            convert_parse_from(args, i + 1, ConvertArgs { output: Some(a), ..st })
        } else {
            convert_parse_from(args, i + 1, st)
        }
    }
}

/// A conversion command as a mathematical value.
pub struct RemuxRequest {
    pub input: Seq<char>,
    pub output: Seq<char>,
    pub codec: AudioCodec,
    pub format: Seq<char>,
    pub no_video: bool,
    pub overwrite: bool,
}

impl FfmpegRemux {
    pub open spec fn view(&self) -> RemuxRequest {
        RemuxRequest {
            input: self.input@,
            output: self.output@,
            codec: self.audio_codec,
            format: self.output_format@,
            no_video: self.no_video,
            overwrite: self.overwrite,
        }
    }
}

/// The whole conversion command line: the grammar, then an input and an
/// output must both have been given.
pub open spec fn convert_parse(args: Seq<String>) -> Result<RemuxRequest, Seq<char>> {
    match convert_parse_from(args, 0, initial_convert_args()) {
        Err(e) => Err(e),
        Ok(st) => match st.input {
            None => Err("No input file specified"@),
            Some(input) => match st.output {
                None => Err("No output file specified"@),
                Some(output) => Ok(
                    RemuxRequest {
                        input,
                        output,
                        codec: st.codec,
                        format: st.format,
                        no_video: st.no_video,
                        overwrite: st.overwrite,
                    },
                ),
            },
        },
    }
}

pub open spec fn opt_view(o: Option<String>) -> Option<Seq<char>> {
    match o {
        Some(s) => Some(s@),
        None => None,
    }
}

fn starts_with_dash_exec(s: &String) -> (r: bool)
    ensures
        r == starts_with_dash(s@),
{
    let t = s.as_str();
    t.unicode_len() > 0 && t.get_char(0) == '-'
}

/// Parses conversion arguments as `convert_parse` describes.
pub fn parse_ffmpeg_args(args: &[String]) -> (r: Result<FfmpegRemux, String>)
    ensures
        match convert_parse(args@) {
            Ok(req) => r matches Ok(c) && c.view() == req,
            Err(e) => r matches Err(m) && m@ == e,
        },
{
    let mut input: Option<String> = None;
    let mut output: Option<String> = None;
    let mut audio_codec = AudioCodec::Copy;
    let mut output_format = String::new();
    let mut no_video = false;
    let mut overwrite = false;
    let n = args.len();
    let mut i: usize = 0;
    while i < n
        invariant
            n == args@.len(),
            convert_parse_from(args@, 0, initial_convert_args()) == convert_parse_from(
                args@,
                i as int,
                ConvertArgs {
                    input: opt_view(input),
                    output: opt_view(output),
                    codec: audio_codec,
                    format: output_format@,
                    no_video,
                    overwrite,
                },
            ),
        decreases n - i,
    {
        let a = &args[i];
        if arg_is(a, "-i") {
            if i + 1 < n {
                input = Some(args[i + 1].clone());
                i = i + 2;
            } else {
                i = n;
            }
        } else if arg_is(a, "-c:a") || arg_is(a, "-acodec") {
            if i + 1 < n {
                match AudioCodec::from_str(&args[i + 1]) {
                    Some(c) => {
                        audio_codec = c;
                        i = i + 2;
                    },
                    None => {
                        return Err(String::from_str("Unknown audio codec: ").concat(args[i + 1].as_str()));
                    },
                }
            } else {
                i = n;
            }
        } else if arg_is(a, "-f") {
            if i + 1 < n {
                output_format = args[i + 1].clone();
                i = i + 2;
            } else {
                i = n;
            }
        } else if arg_is(a, "-vn") {
            no_video = true;
            i = i + 1;
        } else if arg_is(a, "-y") {
            overwrite = true;
            i = i + 1;
        } else if arg_is(a, "-v") || arg_is(a, "-loglevel") {
            if i + 1 < n {
                i = i + 2;
            } else {
                i = n;
            }
        } else if !starts_with_dash_exec(a) && i == n - 1 {
            output = Some(a.clone());
            i = i + 1;
        } else {
            i = i + 1;
        }
    }
    match input {
        None => Err(String::from_str("No input file specified")),
        Some(input) => match output {
            None => Err(String::from_str("No output file specified")),
            Some(output) => Ok(FfmpegRemux { input, output, audio_codec, output_format, no_video, overwrite }),
        },
    }
}


/// The version banner printed on the error stream.
pub open spec fn banner_seq(v: Option<LibVersions>) -> Seq<char> {
    "ffmpeg version 7.1 Copyright (c) 2000-2024 the FFmpeg developers\n  built with Rust shim\n  "@ + match v {
        Some(x) => versions_seq(x),
        None => "unknown"@,
    } + "\n"@
}

/// The version banner, with "unknown" when the library versions are not available.
pub fn ffmpeg_banner(versions: Option<LibVersions>) -> (r: String)
    ensures
        r@ == banner_seq(versions),
{
    let v = match versions {
        Some(x) => ffmpeg_version(&x),
        None => String::from_str("unknown"),
    };
    String::from_str("ffmpeg version 7.1 Copyright (c) 2000-2024 the FFmpeg developers\n  built with Rust shim\n  ")
        .concat(v.as_str()).concat("\n")
}

/// The bitstream-filter catalogue that the probe command lists.
pub const BITSTREAM_FILTERS: &'static str = "Bitstream filters:\naac_adtstoasc\nav1_frame_merge\nav1_frame_split\nav1_metadata\nchomp\ndca_core\ndts2pts\ndump_extra\ndv_error_marker\neac3_core\nevc_frame_merge\nextract_extradata\nfilter_units\nh264_metadata\nh264_mp4toannexb\nh264_redundant_pps\nhapqa_extract\nhevc_metadata\nhevc_mp4toannexb\nimxdump\nmedia100_to_mjpegb\nmjpeg2jpeg\nmjpegadump\nmov2textsub\nmp3decomp\nmpeg2_metadata\nmpeg4_unpack_bframes\nnoise\nnull\nopus_metadata\npcm_rechunk\npgs_frame_merge\nprores_metadata\nremove_extra\nsetts\nshowinfo\ntext2movsub\ntrace_headers\ntruehd_core\nvp9_metadata\nvp9_raw_reorder\nvp9_superframe\nvp9_superframe_split\nvvc_metadata\nvvc_mp4toannexb\n";

/// What a probe command needs next.
#[derive(Debug)]
pub enum ProbeStep {
    /// The command is answered.
    Done(ShimResult),
    /// Open `input` as an audio source and hand the outcome to `run_ffprobe_streams`.
    OpenInput { input: String },
}

fn failure(stderr: String) -> (r: ShimResult)
    ensures
        r.exit_code == 1,
        r.stdout@ == Seq::<char>::empty(),
        r.stderr == stderr,
{
    ShimResult { exit_code: 1, stdout: String::new(), stderr }
}

/// Runs a probe command line. Parse errors, the filter list and the version
/// query are answered at once; a stream query asks for its input to be opened.
pub fn execute_ffprobe(args: &[String], versions: Option<LibVersions>) -> (r: ProbeStep)
    ensures
        match probe_parse_at(args@, 0) {
            None => r matches ProbeStep::Done(res) && res.exit_code == 1 && res.stdout@.len() == 0
                && res.stderr@ == "Unknown ffprobe command"@,
            Some(ProbeRequest::ListBitstreamFilters) => r matches ProbeStep::Done(res) && res.exit_code == 0
                && res.stdout@ == BITSTREAM_FILTERS@ && res.stderr@ == banner_seq(versions),
            Some(ProbeRequest::Version) => r matches ProbeStep::Done(res) && res.exit_code == 0
                && res.stdout@.len() == 0 && res.stderr@ == banner_seq(versions),
            Some(ProbeRequest::ShowStreams(input)) => r matches ProbeStep::OpenInput { input: i } && i@ == input,
        },
{
    match parse_ffprobe_args(args) {
        Err(e) => ProbeStep::Done(failure(e)),
        Ok(cmd) => run_ffprobe(cmd, versions),
    }
}

/// Answers a parsed probe command; a stream query asks for its input to be opened.
pub fn run_ffprobe(cmd: FfprobeCommand, versions: Option<LibVersions>) -> (r: ProbeStep)
    ensures
        match cmd.view() {
            ProbeRequest::ListBitstreamFilters => r matches ProbeStep::Done(res) && res.exit_code == 0
                && res.stdout@ == BITSTREAM_FILTERS@ && res.stderr@ == banner_seq(versions),
            ProbeRequest::Version => r matches ProbeStep::Done(res) && res.exit_code == 0
                && res.stdout@.len() == 0 && res.stderr@ == banner_seq(versions),
            ProbeRequest::ShowStreams(input) => r matches ProbeStep::OpenInput { input: i } && i@ == input,
        },
{
    match cmd {
        FfprobeCommand::ListBitstreamFilters => ProbeStep::Done(
            ShimResult {
                exit_code: 0,
                stdout: String::from_str(BITSTREAM_FILTERS),
                stderr: ffmpeg_banner(versions),
            },
        ),
        FfprobeCommand::Version => ProbeStep::Done(
            ShimResult { exit_code: 0, stdout: String::new(), stderr: ffmpeg_banner(versions) },
        ),
        FfprobeCommand::ShowStreams { input } => ProbeStep::OpenInput { input },
    }
}

/// The stream report of an opened source.
pub open spec fn stream_report_seq(info: StreamInfo) -> Seq<char> {
    "[STREAM]\nindex=0\ncodec_type=audio\nsample_rate="@ + idec(info.sample_rate as int) + "\nchannels="@
        + idec(info.channels as int) + "\n[/STREAM]\n[FORMAT]\nduration="@ + seconds_seq(info.duration_us as int)
        + "\n[/FORMAT]\n"@
}

/// Answers a stream query from the outcome of opening `input`.
pub fn run_ffprobe_streams(input: &String, opened: Result<StreamInfo, String>, versions: Option<LibVersions>) -> (r: ShimResult)
    ensures
        match opened {
            Ok(info) => r.exit_code == 0 && r.stdout@ == stream_report_seq(info) && r.stderr@ == banner_seq(versions),
            Err(e) => r.exit_code == 1 && r.stdout@.len() == 0 && r.stderr@ == input@ + ": "@ + e@,
        },
{
    match opened {
        Ok(info) => {
            let rate = signed_decimal(info.sample_rate as i128);
            let channels = signed_decimal(info.channels as i128);
            let duration = seconds_text(info.duration_us);
            let stdout = String::from_str("[STREAM]\nindex=0\ncodec_type=audio\nsample_rate=").concat(rate.as_str())
                .concat("\nchannels=").concat(channels.as_str()).concat("\n[/STREAM]\n[FORMAT]\nduration=").concat(
                duration.as_str(),
            ).concat("\n[/FORMAT]\n");
            ShimResult { exit_code: 0, stdout, stderr: ffmpeg_banner(versions) }
        },
        Err(e) => failure(input.clone().concat(": ").concat(e.as_str())),
    }
}

/// Clock text `HH:MM:SS.cc` of a duration in microseconds, rounded to the
/// nearest hundredth of a second (halves up); negative durations read as zero.
pub open spec fn time_seq(us: int) -> Seq<char> {
    let cs = if us <= 0 { 0 } else { (us + 5000) / 10000 };
    pad_left(dec((cs / 360000) as nat), '0', 2) + seq![':'] + pad_left(dec(((cs / 6000) % 60) as nat), '0', 2)
        + seq![':'] + pad_left(dec(((cs % 6000) / 100) as nat), '0', 2) + seq!['.'] + pad_left(
        dec((cs % 100) as nat),
        '0',
        2,
    )
}

/// Clock text of a duration, as `time_seq` describes it.
pub fn format_time(us: i64) -> (r: String)
    ensures
        r@ == time_seq(us as int),
{
    let cs: u128 = if us <= 0 {
        0
    } else {
        ((us as u128) + 5000) / 10000
    };
    proof {
        reveal_strlit(":");
        reveal_strlit(".");
        reveal_strlit("0");
    }
    let h = padded(decimal(cs / 360000), "0", 2);
    let m = padded(decimal((cs / 6000) % 60), "0", 2);
    let s = padded(decimal((cs % 6000) / 100), "0", 2);
    let c = padded(decimal(cs % 100), "0", 2);
    let r = h.concat(":").concat(m.as_str()).concat(":").concat(s.as_str()).concat(".").concat(c.as_str());
    assert(r@ =~= time_seq(us as int));
    r
}


/// Statistics of a finished conversion, in fixed point.
#[derive(Debug, Clone, Copy, PartialEq, Eq, Structural)]
pub struct RemuxStats {
    /// Output size in whole kibibytes.
    pub size_kb: u64,
    pub duration_us: i64,
    /// Bit rate in tenths of kbit/s.
    pub bitrate_tenths: u128,
    /// Speed relative to real time, in hundredths.
    pub speed_hundredths: u128,
}

/// `a / b` rounded to nearest, halves up (for `a >= 0`, `b > 0`).
pub open spec fn round_div(a: int, b: int) -> int {
    (2 * a + b) / (2 * b)
}

/// Statistics of a stream copy of `total_bytes` bytes covering `duration_us`,
/// done in `elapsed_us` of wall time.
pub open spec fn copy_stats_of(total_bytes: int, duration_us: int, elapsed_us: int) -> RemuxStats {
    RemuxStats {
        size_kb: (total_bytes / 1024) as u64,
        duration_us: duration_us as i64,
        bitrate_tenths: if duration_us > 0 { round_div(total_bytes * 80000, duration_us) as u128 } else { 0 },
        speed_hundredths: if elapsed_us > 0 {
            round_div(if duration_us > 0 { duration_us * 100 } else { 0 }, elapsed_us) as u128
        } else {
            100
        },
    }
}

/// Statistics of a stream copy, as `copy_stats_of` states them.
pub fn copy_stats(total_bytes: u64, duration_us: i64, elapsed_us: u64) -> (r: RemuxStats)
    ensures
        r == copy_stats_of(total_bytes as int, duration_us as int, elapsed_us as int),
{
    let bitrate: u128 = if duration_us > 0 {
        let d = duration_us as u128;
        (2 * (total_bytes as u128) * 80000 + d) / (2 * d)
    } else {
        0
    };
    let speed: u128 = if elapsed_us > 0 {
        let d: u128 = if duration_us > 0 { duration_us as u128 * 100 } else { 0 };
        let e = elapsed_us as u128;
        (2 * d + e) / (2 * e)
    } else {
        100
    };
    RemuxStats { size_kb: total_bytes / 1024, duration_us, bitrate_tenths: bitrate, speed_hundredths: speed }
}

/// Statistics of a transcode: size from the output file when it could be
/// measured (else zero), bit rate from that size, speed one.
pub open spec fn transcode_stats_of(output_bytes: Option<u64>, duration_us: int) -> RemuxStats {
    let kb = match output_bytes {
        Some(b) => b / 1024,
        None => 0,
    };
    RemuxStats {
        size_kb: kb as u64,
        duration_us: duration_us as i64,
        bitrate_tenths: if duration_us > 0 { round_div(kb * 80000000, duration_us) as u128 } else { 0 },
        speed_hundredths: 100,
    }
}

/// Statistics of a transcode, as `transcode_stats_of` states them.
pub fn transcode_stats(output_bytes: Option<u64>, duration_us: i64) -> (r: RemuxStats)
    ensures
        r == transcode_stats_of(output_bytes, duration_us as int),
{
    let kb: u64 = match output_bytes {
        Some(b) => b / 1024,
        None => 0,
    };
    let bitrate: u128 = if duration_us > 0 {
        let d = duration_us as u128;
        (2 * (kb as u128) * 80000000 + d) / (2 * d)
    } else {
        0
    };
    RemuxStats { size_kb: kb, duration_us, bitrate_tenths: bitrate, speed_hundredths: 100 }
}

/// The closing lines of a successful conversion.
pub open spec fn stats_seq(st: RemuxStats) -> Seq<char> {
    "size="@ + pad_left(dec(st.size_kb as nat), ' ', 8) + "kB time="@ + time_seq(st.duration_us as int)
        + " bitrate="@ + pad_left(fixed(st.bitrate_tenths as nat, 1), ' ', 6) + "kbits/s speed="@ + fixed(
        st.speed_hundredths as nat,
        2,
    ) + "x\n"@ + "video:0kB audio:"@ + dec(st.size_kb as nat)
        + "kB subtitle:0kB other streams:0kB global headers:0kB muxing overhead: unknown\n"@
}

/// The closing lines of a successful conversion, as `stats_seq` describes them.
pub fn render_stats(st: &RemuxStats) -> (r: String)
    ensures
        r@ == stats_seq(*st),
{
    proof {
        reveal_strlit(" ");
    }
    let size = padded(decimal(st.size_kb as u128), " ", 8);
    let time = format_time(st.duration_us);
    let rate = padded(fixed_point(st.bitrate_tenths, 1), " ", 6);
    let speed = fixed_point(st.speed_hundredths, 2);
    let kb = decimal(st.size_kb as u128);
    String::from_str("size=").concat(size.as_str()).concat("kB time=").concat(time.as_str()).concat(
        " bitrate=",
    ).concat(rate.as_str()).concat("kbits/s speed=").concat(speed.as_str()).concat("x\n").concat(
        "video:0kB audio:",
    ).concat(kb.as_str()).concat("kB subtitle:0kB other streams:0kB global headers:0kB muxing overhead: unknown\n")
}

/// Running state of a stream copy: which input stream is carried over and how
/// many bytes have been handed to the output.
#[derive(Debug, Clone, Copy, PartialEq, Eq, Structural)]
pub struct CopyPump {
    pub stream_index: i32,
    pub total_bytes: u64,
}

impl CopyPump {
    pub fn new(stream_index: i32) -> (r: CopyPump)
        ensures
            r.stream_index == stream_index,
            r.total_bytes == 0,
    {
        CopyPump { stream_index, total_bytes: 0 }
    }

    /// Decides on a packet of stream `stream` carrying `size` bytes: only the
    /// selected stream's packets are written (as output stream 0), and their
    /// sizes are tallied, saturating at the largest `u64`.
    pub fn accept(&mut self, stream: i32, size: i32) -> (r: bool)
        ensures
            r == (stream == old(self).stream_index),
            final(self).stream_index == old(self).stream_index,
            final(self).total_bytes == if r {
                let t = old(self).total_bytes + if size > 0 { size as int } else { 0 };
                if t > u64::MAX { u64::MAX as int } else { t }
            } else {
                old(self).total_bytes as int
            },
    {
        if stream != self.stream_index {
            return false;
        }
        let add: u64 = if size > 0 { size as u64 } else { 0 };
        self.total_bytes = self.total_bytes.saturating_add(add);
        true
    }
}

/// Where a stream copy ended, and what it had learned by then.
#[derive(Debug)]
pub enum CopyReport {
    /// Failed before the input's duration was known.
    FailedOpening(String),
    /// Failed after the input was described, before the output was.
    FailedAfterInput { duration_us: i64, error: String },
    /// Failed after both sides were described.
    FailedAfterOutput { duration_us: i64, error: String },
    /// Finished: `total_bytes` written in `elapsed_us` of wall time.
    Finished { duration_us: i64, total_bytes: u64, elapsed_us: u64 },
}

/// How a transcode ended.
#[derive(Debug)]
pub enum TranscodeReport {
    Failed(String),
    /// Finished; the output's size when it could be measured.
    Finished { duration_us: i64, output_bytes: Option<u64> },
}

/// What a conversion command needs next.
#[derive(Debug)]
pub enum ConvertStep {
    /// The command is answered.
    Done(ShimResult),
    /// Tell whether the input and the output path exist (`run_ffmpeg_remux`).
    CheckPaths(FfmpegRemux),
    /// Load the native runtime and report its versions (`after_runtime_load`).
    LoadRuntime(FfmpegRemux),
    /// Copy the audio stream without decoding (`finish_copy`).
    RemuxCopy(FfmpegRemux, LibVersions),
    /// Re-encode the whole input through the export engine (`finish_transcode`).
    Transcode(FfmpegRemux, LibVersions),
}

/// Runs a conversion command line: parse errors are answered at once;
/// otherwise the paths are checked first, before anything native happens.
pub fn execute_ffmpeg(args: &[String]) -> (r: ConvertStep)
    ensures
        match convert_parse(args@) {
            Err(e) => r matches ConvertStep::Done(res) && res.exit_code == 1 && res.stdout@.len() == 0
                && res.stderr@ == e,
            Ok(req) => r matches ConvertStep::CheckPaths(c) && c.view() == req,
        },
{
    match parse_ffmpeg_args(args) {
        Err(e) => ConvertStep::Done(failure(e)),
        Ok(cmd) => ConvertStep::CheckPaths(cmd),
    }
}

/// Runs a parsed conversion once its paths are checked. A missing input fails
/// whatever the overwrite flag says; an existing output fails unless overwriting
/// was asked for. Either way nothing native is attempted.
pub fn run_ffmpeg_remux(cmd: FfmpegRemux, input_exists: bool, output_exists: bool) -> (r: ConvertStep)
    ensures
        !input_exists ==> (r matches ConvertStep::Done(res) && res.exit_code == 1 && res.stdout@.len() == 0
            && res.stderr@ == cmd.input@ + ": No such file or directory"@),
        input_exists && output_exists && !cmd.overwrite ==> (r matches ConvertStep::Done(res) && res.exit_code == 1
            && res.stdout@.len() == 0 && res.stderr@ == "File '"@ + cmd.output@
            + "' already exists. Overwrite? [y/N] Not overwriting - exiting"@),
        input_exists && (!output_exists || cmd.overwrite) ==> (r matches ConvertStep::LoadRuntime(c) && c.view()
            == cmd.view()),
{
    if !input_exists {
        let msg = cmd.input.clone().concat(": No such file or directory");
        return ConvertStep::Done(failure(msg));
    }
    if output_exists && !cmd.overwrite {
        let msg = String::from_str("File '").concat(cmd.output.as_str()).concat(
            "' already exists. Overwrite? [y/N] Not overwriting - exiting",
        );
        return ConvertStep::Done(failure(msg));
    }
    ConvertStep::LoadRuntime(cmd)
}

/// Continues a conversion once the runtime load is known: a load failure is
/// reported as such; otherwise the codec decides between copy and transcode.
pub fn after_runtime_load(cmd: FfmpegRemux, loaded: Result<LibVersions, String>) -> (r: ConvertStep)
    ensures
        loaded matches Err(e) ==> (r matches ConvertStep::Done(res) && res.exit_code == 1 && res.stdout@.len() == 0
            && res.stderr@ == "Failed to load FFmpeg: "@ + e@),
        loaded matches Ok(v) ==> if cmd.audio_codec == AudioCodec::Copy {
            r matches ConvertStep::RemuxCopy(c, w) && c.view() == cmd.view() && w == v
        } else {
            r matches ConvertStep::Transcode(c, w) && c.view() == cmd.view() && w == v
        },
{
    match loaded {
        Err(e) => ConvertStep::Done(failure(String::from_str("Failed to load FFmpeg: ").concat(e.as_str()))),
        Ok(v) => match cmd.audio_codec {
            AudioCodec::Copy => ConvertStep::RemuxCopy(cmd, v),
            _ => ConvertStep::Transcode(cmd, v),
        },
    }
}

/// The first lines of every conversion's error stream.
pub open spec fn convert_head_seq(cmd: RemuxRequest, v: LibVersions) -> Seq<char> {
    banner_seq(Some(v)) + "Input #0, from '"@ + cmd.input + "':\n"@
}

pub open spec fn input_desc_seq(duration_us: int) -> Seq<char> {
    "  Duration: "@ + time_seq(duration_us) + ", bitrate: N/A\n"@ + "  Stream #0:0: Audio\n"@
}

pub open spec fn output_desc_seq(cmd: RemuxRequest) -> Seq<char> {
    "Output #0, "@ + cmd.format + " to '"@ + cmd.output + "':\n"@ + "  Stream #0:0: Audio (copy)\n"@
        + "Stream mapping:\n"@ + "  Stream #0:0 -> #0:0 (copy)\n"@
}

/// What a stream copy reports, for each way it can end.
pub open spec fn copy_result_seq(cmd: RemuxRequest, v: LibVersions, report: CopyReport) -> (int, Seq<char>) {
    let head = convert_head_seq(cmd, v);
    match report {
        CopyReport::FailedOpening(e) => (1, head + "\nConversion failed: "@ + e@),
        CopyReport::FailedAfterInput { duration_us, error } => (
            1,
            head + input_desc_seq(duration_us as int) + "\nConversion failed: "@ + error@,
        ),
        CopyReport::FailedAfterOutput { duration_us, error } => (
            1,
            head + input_desc_seq(duration_us as int) + output_desc_seq(cmd) + "\nConversion failed: "@ + error@,
        ),
        CopyReport::Finished { duration_us, total_bytes, elapsed_us } => (
            0,
            head + input_desc_seq(duration_us as int) + output_desc_seq(cmd) + stats_seq(
                copy_stats_of(total_bytes as int, duration_us as int, elapsed_us as int),
            ),
        ),
    }
}

fn convert_head(cmd: &FfmpegRemux, v: LibVersions) -> (r: String)
    ensures
        r@ == convert_head_seq(cmd.view(), v),
{
    ffmpeg_banner(Some(v)).concat("Input #0, from '").concat(cmd.input.as_str()).concat("':\n")
}

fn input_desc(duration_us: i64) -> (r: String)
    ensures
        r@ == input_desc_seq(duration_us as int),
{
    let t = format_time(duration_us);
    String::from_str("  Duration: ").concat(t.as_str()).concat(", bitrate: N/A\n").concat("  Stream #0:0: Audio\n")
}

fn output_desc(cmd: &FfmpegRemux) -> (r: String)
    ensures
        r@ == output_desc_seq(cmd.view()),
{
    String::from_str("Output #0, ").concat(cmd.output_format.as_str()).concat(" to '").concat(cmd.output.as_str())
        .concat("':\n").concat("  Stream #0:0: Audio (copy)\n").concat("Stream mapping:\n").concat(
        "  Stream #0:0 -> #0:0 (copy)\n",
    )
}

/// Answers a conversion whose stream copy ended as `report` says.
pub fn finish_copy(cmd: &FfmpegRemux, versions: LibVersions, report: CopyReport) -> (r: ShimResult)
    ensures
        r.exit_code == copy_result_seq(cmd.view(), versions, report).0,
        r.stdout@.len() == 0,
        r.stderr@ == copy_result_seq(cmd.view(), versions, report).1,
{
    let head = convert_head(cmd, versions);
    match report {
        CopyReport::FailedOpening(e) => failure(head.concat("\nConversion failed: ").concat(e.as_str())),
        CopyReport::FailedAfterInput { duration_us, error } => {
            let d = input_desc(duration_us);
            failure(head.concat(d.as_str()).concat("\nConversion failed: ").concat(error.as_str()))
        },
        CopyReport::FailedAfterOutput { duration_us, error } => {
            let d = input_desc(duration_us);
            let o = output_desc(cmd);
            failure(head.concat(d.as_str()).concat(o.as_str()).concat("\nConversion failed: ").concat(error.as_str()))
        },
        CopyReport::Finished { duration_us, total_bytes, elapsed_us } => {
            let d = input_desc(duration_us);
            let o = output_desc(cmd);
            let st = render_stats(&copy_stats(total_bytes, duration_us, elapsed_us));
            ShimResult {
                exit_code: 0,
                stdout: String::new(),
                stderr: head.concat(d.as_str()).concat(o.as_str()).concat(st.as_str()),
            }
        },
    }
}

/// What a transcode reports, for each way it can end.
pub open spec fn transcode_result_seq(cmd: RemuxRequest, v: LibVersions, report: TranscodeReport) -> (int, Seq<char>) {
    let head = convert_head_seq(cmd, v) + "Transcoding via export_sample\n"@;
    match report {
        TranscodeReport::Failed(e) => (1, head + "\nConversion failed: "@ + e@),
        TranscodeReport::Finished { duration_us, output_bytes } => (
            0,
            head + stats_seq(transcode_stats_of(output_bytes, duration_us as int)),
        ),
    }
}

/// Answers a conversion whose transcode ended as `report` says.
pub fn finish_transcode(cmd: &FfmpegRemux, versions: LibVersions, report: TranscodeReport) -> (r: ShimResult)
    ensures
        r.exit_code == transcode_result_seq(cmd.view(), versions, report).0,
        r.stdout@.len() == 0,
        r.stderr@ == transcode_result_seq(cmd.view(), versions, report).1,
{
    let head = convert_head(cmd, versions).concat("Transcoding via export_sample\n");
    match report {
        TranscodeReport::Failed(e) => failure(head.concat("\nConversion failed: ").concat(e.as_str())),
        TranscodeReport::Finished { duration_us, output_bytes } => {
            let st = render_stats(&transcode_stats(output_bytes, duration_us));
            ShimResult { exit_code: 0, stdout: String::new(), stderr: head.concat(st.as_str()) }
        },
    }
}

} // verus!
