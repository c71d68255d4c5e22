use tubetape::ffmpeg::{from_shim_result, get_ffmpeg_lib_name, get_static_capabilities, tool_named, AudioFormat, MediaTool};
use tubetape::ffmpeg_shim::ShimResult;
use tubetape::ffmpeg_runtime::{self, lib_names, AudioFormat as Target, NativeLib, SampleFormat};
use tubetape::TargetOs;

#[test]
fn test_audio_format_from_extension() {
    assert_eq!(AudioFormat::from_extension("mp3"), AudioFormat::Mp3);
    assert_eq!(AudioFormat::from_extension("MP3"), AudioFormat::Mp3);
    assert_eq!(AudioFormat::from_extension("aac"), AudioFormat::Aac);
    assert_eq!(AudioFormat::from_extension("m4a"), AudioFormat::Aac);
    assert_eq!(AudioFormat::from_extension("flac"), AudioFormat::Flac);
    assert_eq!(AudioFormat::from_extension("wav"), AudioFormat::Wav);
    assert_eq!(AudioFormat::from_extension("unknown"), AudioFormat::Copy);
}

#[test]
fn test_audio_format_encoder_names() {
    assert_eq!(AudioFormat::Mp3.encoder_name(), "libmp3lame");
    assert_eq!(AudioFormat::Aac.encoder_name(), "aac");
    assert_eq!(AudioFormat::Flac.encoder_name(), "flac");
    assert_eq!(AudioFormat::Wav.encoder_name(), "pcm_s16le");
    assert_eq!(AudioFormat::Copy.encoder_name(), "copy");
}

#[test]
fn extension_lookup_ignores_case() {
    for (lower, upper) in [("mp3", "Mp3"), ("aac", "AAC"), ("m4a", "M4A"), ("flac", "FlAc"), ("wav", "WAV")] {
        assert_eq!(AudioFormat::from_extension(lower), AudioFormat::from_extension(upper));
        assert_eq!(
            ffmpeg_runtime::AudioFormat::from_extension(lower),
            ffmpeg_runtime::AudioFormat::from_extension(upper)
        );
    }
    assert_eq!(AudioFormat::from_extension("M4A").encoder_name(), "aac");
    assert_eq!(AudioFormat::from_extension("WaV").encoder_name(), "pcm_s16le");
}

#[test]
fn extension_lookup_edge_cases() {
    assert_eq!(AudioFormat::from_extension(""), AudioFormat::Copy);
    assert_eq!(AudioFormat::from_extension("mp33"), AudioFormat::Copy);
    assert_eq!(AudioFormat::from_extension("mp"), AudioFormat::Copy);
    assert_eq!(AudioFormat::from_extension("ogg"), AudioFormat::Copy);
    assert_eq!(ffmpeg_runtime::AudioFormat::from_extension("ogg"), None);
    assert_eq!(ffmpeg_runtime::AudioFormat::from_extension(""), None);
    assert_eq!(AudioFormat::default(), AudioFormat::Mp3);
}

#[test]
fn export_targets_table() {
    let rows = [
        (Target::Mp3, "libmp3lame", "mp3", SampleFormat::S16P, 6),
        (Target::Aac, "aac", "adts", SampleFormat::FltP, 8),
        (Target::Flac, "flac", "flac", SampleFormat::S16, 1),
        (Target::Wav, "pcm_s16le", "wav", SampleFormat::S16, 1),
    ];
    for (f, enc, container, fmt, code) in rows {
        assert_eq!(f.encoder_name(), enc);
        assert_eq!(f.format_name(), container);
        assert_eq!(f.sample_format(), fmt);
        assert_eq!(f.sample_format().code(), code);
    }
    assert_eq!(Target::from_extension("M4a"), Some(Target::Aac));
}

#[test]
fn library_file_names_per_platform() {
    assert_eq!(
        lib_names(TargetOs::Linux),
        ("libavutil.so", "libswresample.so", "libavcodec.so", "libavformat.so")
    );
    assert_eq!(
        lib_names(TargetOs::MacOs),
        ("libavutil.dylib", "libswresample.dylib", "libavcodec.dylib", "libavformat.dylib")
    );
    assert_eq!(
        lib_names(TargetOs::Windows),
        ("avutil-60.dll", "swresample-6.dll", "avcodec-62.dll", "avformat-62.dll")
    );
    assert_eq!(NativeLib::AvFormat.label(), "avformat");
    assert_eq!(get_ffmpeg_lib_name(TargetOs::Linux), "libffmpeg.so");
    assert_eq!(get_ffmpeg_lib_name(TargetOs::MacOs), "libffmpeg.dylib");
    assert_eq!(get_ffmpeg_lib_name(TargetOs::Windows), "ffmpeg.dll");
    assert_eq!(tubetape::ffmpeg_dlopen::get_ffmpeg_lib_name(TargetOs::Ios), "libffmpeg.dylib");
}

#[test]
fn static_capabilities_list_filters() {
    let r = get_static_capabilities();
    assert_eq!(r.exit_code, 0);
    assert!(!r.was_aborted);
    assert!(r.stdout.starts_with("Bitstream filters:\naac_adtstoasc\n"));
    assert!(r.stderr.starts_with("ffmpeg version 7.0"));
    assert!(r.error.is_none());
    let legacy = tubetape::ffmpeg_dlopen::get_static_capabilities();
    assert!(legacy.stderr.starts_with("ffmpeg version 5.1.4"));
    assert_eq!(legacy.stdout, r.stdout);
}

#[test]
fn required_symbols_per_library() {
    assert_eq!(NativeLib::SwResample.required_symbols().len(), 6);
    assert_eq!(NativeLib::AvUtil.required_symbols().len(), 15);
    assert_eq!(NativeLib::AvCodec.required_symbols().len(), 20);
    assert_eq!(NativeLib::AvFormat.required_symbols().len(), 15);
    assert_eq!(NativeLib::AvFormat.required_symbols()[0], "avformat_open_input");
    assert_eq!(NativeLib::AvCodec.required_symbols()[19], "avcodec_version");
}

#[test]
fn tool_names_and_results() {
    assert_eq!(tool_named(&"ffprobe".to_string()).unwrap(), MediaTool::Probe);
    assert_eq!(tool_named(&"ffmpeg".to_string()).unwrap(), MediaTool::Convert);
    assert_eq!(tool_named(&"ffplay".to_string()).unwrap_err(), "Unknown command: ffplay");
    let failed = from_shim_result(ShimResult { exit_code: 1, stdout: String::new(), stderr: "boom".to_string() });
    assert_eq!(failed.error, Some("boom".to_string()));
    assert!(!failed.was_aborted);
    let ok = from_shim_result(ShimResult { exit_code: 0, stdout: "x".to_string(), stderr: "y".to_string() });
    assert_eq!(ok.error, None);
    assert_eq!(ok.stdout, "x");
}
