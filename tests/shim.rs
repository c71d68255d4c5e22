use tubetape::ffmpeg_runtime::LibVersions;
use tubetape::ffmpeg_shim::{
    run_ffmpeg_remux, after_runtime_load, copy_stats, execute_ffmpeg, execute_ffprobe, ffmpeg_banner,
    finish_copy, finish_transcode, format_time, parse_ffmpeg_args, parse_ffprobe_args, render_stats,
    run_ffprobe_streams, transcode_stats, AudioCodec, ConvertStep, CopyPump, CopyReport, FfmpegRemux,
    FfprobeCommand, ProbeStep, TranscodeReport,
};
use tubetape::media::StreamInfo;

fn strings(args: &[&str]) -> Vec<String> {
    args.iter().map(|s| s.to_string()).collect()
}

fn request(input: &str, output: &str, codec: AudioCodec, overwrite: bool) -> FfmpegRemux {
    FfmpegRemux {
        input: input.to_string(),
        output: output.to_string(),
        audio_codec: codec,
        output_format: "adts".to_string(),
        no_video: true,
        overwrite,
    }
}

fn versions() -> LibVersions {
    LibVersions { avutil: (60 << 16) | (8 << 8) | 100, avcodec: (62 << 16) | (11 << 8) | 100, avformat: (62 << 16) | (3 << 8) | 100 }
}

#[test]
fn test_parse_ffprobe_bsfs() {
    let args = vec!["-bsfs".to_string()];
    let cmd = parse_ffprobe_args(&args).unwrap();
    assert!(matches!(cmd, FfprobeCommand::ListBitstreamFilters));
}

#[test]
fn test_parse_ffmpeg_remux() {
    let args = vec![
        "-i".to_string(),
        "/path/to/input.mp4".to_string(),
        "-vn".to_string(),
        "-c:a".to_string(),
        "copy".to_string(),
        "-f".to_string(),
        "adts".to_string(),
        "-y".to_string(),
        "/path/to/output.aac".to_string(),
    ];
    let cmd = parse_ffmpeg_args(&args).unwrap();
    assert_eq!(cmd.input, "/path/to/input.mp4");
    assert_eq!(cmd.output, "/path/to/output.aac");
    assert!(matches!(cmd.audio_codec, AudioCodec::Copy));
    assert_eq!(cmd.output_format, "adts");
    assert!(cmd.no_video);
    assert!(cmd.overwrite);
}

#[test]
fn test_format_time() {
    assert_eq!(format_time(0), "00:00:00.00");
    assert_eq!(format_time(65_500_000), "00:01:05.50");
    assert_eq!(format_time(3_661_250_000), "01:01:01.25");
}

#[test]
fn format_time_rounds_and_clamps() {
    assert_eq!(format_time(4_999), "00:00:00.00");
    assert_eq!(format_time(5_000), "00:00:00.01");
    assert_eq!(format_time(59_995_000), "00:01:00.00");
    assert_eq!(format_time(-3_000_000), "00:00:00.00");
    assert_eq!(format_time(360_000_000_000), "100:00:00.00");
}

#[test]
fn test_ffprobe_bsfs_execution() {
    let result = match execute_ffprobe(&["-bsfs".to_string()], None) {
        ProbeStep::Done(r) => r,
        other => panic!("unexpected step {:?}", other),
    };
    assert_eq!(result.exit_code, 0);
    assert!(result.stdout.contains("Bitstream filters:"));
    assert!(result.stdout.contains("aac_adtstoasc"));
    assert!(result.stderr.contains("ffmpeg version"));
}

#[test]
fn probe_version_and_errors() {
    match execute_ffprobe(&strings(&["-hide_banner", "-version"]), Some(versions())) {
        ProbeStep::Done(r) => {
            assert_eq!(r.exit_code, 0);
            assert_eq!(r.stdout, "");
            assert!(r.stderr.contains("avutil: 60.8.100, avcodec: 62.11.100, avformat: 62.3.100"));
        }
        other => panic!("unexpected step {:?}", other),
    }
    match execute_ffprobe(&strings(&["-nothing"]), None) {
        ProbeStep::Done(r) => {
            assert_eq!(r.exit_code, 1);
            assert_eq!(r.stderr, "Unknown ffprobe command");
        }
        other => panic!("unexpected step {:?}", other),
    }
    match execute_ffprobe(&[], None) {
        ProbeStep::Done(r) => assert_eq!(r.exit_code, 1),
        other => panic!("unexpected step {:?}", other),
    }
}

#[test]
fn probe_streams_report() {
    match execute_ffprobe(&strings(&["-v", "error", "-show_format", "song.mp3"]), None) {
        ProbeStep::OpenInput { input } => assert_eq!(input, "song.mp3"),
        other => panic!("unexpected step {:?}", other),
    }
    let info = StreamInfo { sample_rate: 44100, channels: 2, duration_us: 120_500_000 };
    let r = run_ffprobe_streams(&"song.mp3".to_string(), Ok(info), None);
    assert_eq!(r.exit_code, 0);
    assert_eq!(
        r.stdout,
        "[STREAM]\nindex=0\ncodec_type=audio\nsample_rate=44100\nchannels=2\n[/STREAM]\n[FORMAT]\nduration=120.5\n[/FORMAT]\n"
    );
    assert!(r.stderr.contains("unknown"));
    let failed = run_ffprobe_streams(&"gone.mp3".to_string(), Err("Failed to open file: No such file".to_string()), None);
    assert_eq!(failed.exit_code, 1);
    assert_eq!(failed.stdout, "");
    assert_eq!(failed.stderr, "gone.mp3: Failed to open file: No such file");
}

#[test]
fn banner_text() {
    assert_eq!(
        ffmpeg_banner(None),
        "ffmpeg version 7.1 Copyright (c) 2000-2024 the FFmpeg developers\n  built with Rust shim\n  unknown\n"
    );
    assert!(ffmpeg_banner(Some(versions())).ends_with("avformat: 62.3.100\n"));
}

#[test]
fn parse_ffmpeg_errors() {
    let e = parse_ffmpeg_args(&strings(&["-i", "in.mp4", "-c:a", "vorbis", "out.ogg"])).unwrap_err();
    assert_eq!(e, "Unknown audio codec: vorbis");
    let e = parse_ffmpeg_args(&strings(&["out.aac"])).unwrap_err();
    assert_eq!(e, "No input file specified");
    let e = parse_ffmpeg_args(&strings(&["-i", "in.mp4", "-y"])).unwrap_err();
    assert_eq!(e, "No output file specified");
    let e = parse_ffmpeg_args(&strings(&["-version"])).unwrap_err();
    assert_eq!(e, "No input file specified");
}

#[test]
fn parse_ffmpeg_flags() {
    let cmd = parse_ffmpeg_args(&strings(&[
        "-hide_banner", "-nostdin", "-loglevel", "quiet", "-i", "a.mp4", "-acodec", "libmp3lame", "b.mp3",
    ]))
    .unwrap();
    assert_eq!(cmd.input, "a.mp4");
    assert_eq!(cmd.output, "b.mp3");
    assert_eq!(cmd.audio_codec, AudioCodec::Mp3);
    assert_eq!(cmd.output_format, "");
    assert!(!cmd.no_video);
    assert!(!cmd.overwrite);
    let names = [("copy", AudioCodec::Copy), ("aac", AudioCodec::Aac), ("mp3", AudioCodec::Mp3), ("flac", AudioCodec::Flac), ("pcm_s16le", AudioCodec::PcmS16Le)];
    for (name, codec) in names {
        assert_eq!(AudioCodec::from_str(&name.to_string()), Some(codec));
    }
    assert_eq!(AudioCodec::from_str(&"AAC".to_string()), None);
}

#[test]
fn convert_missing_input_fails_before_native_work() {
    for overwrite in [false, true] {
        match run_ffmpeg_remux(request("/nope/in.mp4", "/tmp/out.aac", AudioCodec::Copy, overwrite), false, true) {
            ConvertStep::Done(r) => {
                assert_eq!(r.exit_code, 1);
                assert_eq!(r.stderr, "/nope/in.mp4: No such file or directory");
            }
            other => panic!("unexpected step {:?}", other),
        }
    }
}

#[test]
fn convert_existing_output_needs_overwrite() {
    match run_ffmpeg_remux(request("in.mp4", "out.aac", AudioCodec::Copy, false), true, true) {
        ConvertStep::Done(r) => {
            assert_eq!(r.exit_code, 1);
            assert_eq!(r.stderr, "File 'out.aac' already exists. Overwrite? [y/N] Not overwriting - exiting");
        }
        other => panic!("unexpected step {:?}", other),
    }
    assert!(matches!(
        run_ffmpeg_remux(request("in.mp4", "out.aac", AudioCodec::Copy, true), true, true),
        ConvertStep::LoadRuntime(_)
    ));
    assert!(matches!(
        run_ffmpeg_remux(request("in.mp4", "out.aac", AudioCodec::Copy, false), true, false),
        ConvertStep::LoadRuntime(_)
    ));
}

#[test]
fn convert_dispatch_after_load() {
    match after_runtime_load(request("in.mp4", "out.aac", AudioCodec::Copy, true), Err("Library directory not set".to_string())) {
        ConvertStep::Done(r) => assert_eq!(r.stderr, "Failed to load FFmpeg: Library directory not set"),
        other => panic!("unexpected step {:?}", other),
    }
    assert!(matches!(
        after_runtime_load(request("in.mp4", "out.aac", AudioCodec::Copy, true), Ok(versions())),
        ConvertStep::RemuxCopy(_, _)
    ));
    assert!(matches!(
        after_runtime_load(request("in.mp4", "out.wav", AudioCodec::PcmS16Le, true), Ok(versions())),
        ConvertStep::Transcode(_, _)
    ));
    match execute_ffmpeg(&strings(&["-i", "in.mp4", "-c:a", "copy", "-y", "out.aac"])) {
        ConvertStep::CheckPaths(cmd) => assert_eq!(cmd.output, "out.aac"),
        other => panic!("unexpected step {:?}", other),
    }
    match execute_ffmpeg(&strings(&["-y"])) {
        ConvertStep::Done(r) => assert_eq!(r.stderr, "No input file specified"),
        other => panic!("unexpected step {:?}", other),
    }
}

#[test]
fn stats_values() {
    let s = copy_stats(2_048_000, 10_000_000, 2_000_000);
    assert_eq!(s.size_kb, 2000);
    assert_eq!(s.bitrate_tenths, 16384);
    assert_eq!(s.speed_hundredths, 500);
    assert_eq!(
        render_stats(&s),
        "size=    2000kB time=00:00:10.00 bitrate=1638.4kbits/s speed=5.00x\nvideo:0kB audio:2000kB subtitle:0kB other streams:0kB global headers:0kB muxing overhead: unknown\n"
    );
    let z = copy_stats(100, 0, 0);
    assert_eq!(z.bitrate_tenths, 0);
    assert_eq!(z.speed_hundredths, 100);
    let t = transcode_stats(Some(10 * 1024), 4_000_000);
    assert_eq!(t.size_kb, 10);
    assert_eq!(t.bitrate_tenths, 200);
    assert_eq!(transcode_stats(None, 4_000_000).size_kb, 0);
}

#[test]
fn copy_report_text() {
    let cmd = request("in.mp4", "out.aac", AudioCodec::Copy, true);
    let done = finish_copy(&cmd, versions(), CopyReport::Finished { duration_us: 65_500_000, total_bytes: 4096, elapsed_us: 1_000_000 });
    assert_eq!(done.exit_code, 0);
    assert!(done.stderr.contains("Input #0, from 'in.mp4':\n  Duration: 00:01:05.50, bitrate: N/A\n"));
    assert!(done.stderr.contains("Output #0, adts to 'out.aac':\n"));
    assert!(done.stderr.contains("Stream mapping:"));
    assert!(done.stderr.contains("speed="));
    let failed = finish_copy(&cmd, versions(), CopyReport::FailedAfterInput { duration_us: 1_000_000, error: "Failed to open output: Permission denied".to_string() });
    assert_eq!(failed.exit_code, 1);
    assert!(failed.stderr.ends_with("Audio\n\nConversion failed: Failed to open output: Permission denied"));
    assert!(!failed.stderr.contains("Stream mapping:"));
    let early = finish_copy(&cmd, versions(), CopyReport::FailedOpening("No audio stream found".to_string()));
    assert!(early.stderr.ends_with("':\n\nConversion failed: No audio stream found"));
    let late = finish_copy(&cmd, versions(), CopyReport::FailedAfterOutput { duration_us: 0, error: "x".to_string() });
    assert!(late.stderr.contains("Stream mapping:"));
}

#[test]
fn transcode_report_text() {
    let cmd = request("in.mp4", "out.wav", AudioCodec::PcmS16Le, true);
    let done = finish_transcode(&cmd, versions(), TranscodeReport::Finished { duration_us: 4_000_000, output_bytes: Some(10240) });
    assert_eq!(done.exit_code, 0);
    assert!(done.stderr.contains("Transcoding via export_sample\nsize=      10kB time=00:00:04.00 bitrate=  20.0kbits/s speed=1.00x\n"));
    let failed = finish_transcode(&cmd, versions(), TranscodeReport::Failed("Invalid time range".to_string()));
    assert_eq!(failed.exit_code, 1);
    assert!(failed.stderr.ends_with("\nConversion failed: Invalid time range"));
}

#[test]
fn copy_pump_selects_stream() {
    let mut p = CopyPump::new(1);
    assert!(!p.accept(0, 500));
    assert!(p.accept(1, 400));
    assert!(p.accept(1, -3));
    assert!(p.accept(1, 100));
    assert_eq!(p.total_bytes, 500);
}
