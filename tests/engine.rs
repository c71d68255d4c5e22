use tubetape::export::{
    needs_resample, plan_export, sample_budget, wants_global_header, ExportPump, FrameAction, PacketAction,
    MAX_SAMPLE_BUDGET,
};
use tubetape::ffmpeg_runtime::{
    av_error_fallback, ffmpeg_version, AudioFormat, LibVersions, LoadAction, LoadError, NativeLib, SampleFormat,
    SymbolLoader,
};
use tubetape::media::{path_extension, stream_duration_us, stream_info, ticks_to_micros, TimeBase, AV_NOPTS_VALUE};
use tubetape::TargetOs;

#[test]
fn export_rejects_empty_window() {
    assert_eq!(plan_export("out.wav", 15_000_000, 10_000_000).unwrap_err(), "Invalid time range");
    assert_eq!(plan_export("out.wav", 5_000_000, 5_000_000).unwrap_err(), "Invalid time range");
}

#[test]
fn export_target_from_output_path() {
    assert_eq!(plan_export("/music/clip.WAV", 0, 1).unwrap().format, AudioFormat::Wav);
    assert_eq!(plan_export("/music/clip.m4a", 0, 1).unwrap().format, AudioFormat::Aac);
    assert_eq!(plan_export("/music/clip.ogg", 0, 1).unwrap().format, AudioFormat::Mp3);
    assert_eq!(plan_export("/music/clip", 0, 1).unwrap().format, AudioFormat::Mp3);
    assert_eq!(plan_export("/music.d/.flac", 0, 1).unwrap().format, AudioFormat::Mp3);
    let p = plan_export("a.flac", 10_000_000, 15_000_000).unwrap();
    assert_eq!((p.start_us, p.end_us, p.format), (10_000_000, 15_000_000, AudioFormat::Flac));
}

#[test]
fn path_extensions() {
    assert_eq!(path_extension("/a/b.tar.gz"), Some("gz"));
    assert_eq!(path_extension("/a.b/c"), None);
    assert_eq!(path_extension(".hidden"), None);
    assert_eq!(path_extension("name."), Some(""));
    assert_eq!(path_extension(".."), None);
    assert_eq!(path_extension(""), None);
}

#[test]
fn sample_budget_rounds_window() {
    assert_eq!(sample_budget(10_000_000, 15_000_000, 44100), 220_500);
    assert_eq!(sample_budget(0, 10, 44100), 0);
    assert_eq!(sample_budget(0, 12, 44100), 1);
    assert_eq!(sample_budget(i64::MIN, i64::MAX, u32::MAX), MAX_SAMPLE_BUDGET);
}

#[test]
fn export_pump_window_and_budget() {
    let plan = plan_export("clip.wav", 10_000_000, 15_000_000).unwrap();
    let tb = TimeBase::new(1, 44100).unwrap();
    let mut pump = ExportPump::new(&plan, 0, tb, 44100);
    assert_eq!(pump.budget, 220_500);
    assert_eq!(pump.packet_action(1, 441_000), PacketAction::Skip);
    assert_eq!(pump.packet_action(0, 440_999), PacketAction::Skip);
    assert_eq!(pump.packet_action(0, 441_000), PacketAction::Decode);
    assert_eq!(pump.packet_action(0, 661_499), PacketAction::Decode);
    assert_eq!(pump.packet_action(0, 661_500), PacketAction::Finish);
    assert_eq!(pump.packet_action(0, AV_NOPTS_VALUE), PacketAction::Skip);
    let mut stamps = Vec::new();
    loop {
        match pump.frame_action(1152) {
            FrameAction::Encode { pts } => stamps.push(pts),
            FrameAction::Finish => break,
        }
    }
    assert_eq!(stamps[0], 0);
    assert_eq!(stamps[1], 1152);
    assert!(pump.written >= 220_500 && pump.written < 220_500 + 1152);
    assert_eq!(pump.written, 1152 * stamps.len() as i64);
}

#[test]
fn encoder_setup_decisions() {
    assert!(needs_resample(8, SampleFormat::S16P));
    assert!(!needs_resample(6, SampleFormat::S16P));
    assert!(wants_global_header(0x40 | 0x1));
    assert!(!wants_global_header(0x1));
}

#[test]
fn durations_from_time_bases() {
    let tb = TimeBase::new(1, 44100).unwrap();
    assert_eq!(ticks_to_micros(44100 * 3, tb), 3_000_000);
    assert_eq!(ticks_to_micros(-44100, tb), -1_000_000);
    assert_eq!(stream_duration_us(AV_NOPTS_VALUE, tb, 7_000_000), 7_000_000);
    assert_eq!(stream_duration_us(22050, tb, 7_000_000), 500_000);
    let info = stream_info(48000, 2, 48000 * 90, TimeBase::new(1, 48000).unwrap(), 0);
    assert_eq!(info.duration_us, 90_000_000);
    assert!(TimeBase::new(0, 1).is_none());
    assert!(TimeBase::new(1, -5).is_none());
    assert_eq!(ticks_to_micros(i64::MAX, TimeBase::new(i32::MAX, 1).unwrap()), i64::MAX);
}

#[test]
fn version_and_error_text() {
    let v = LibVersions { avutil: 0x3C0864, avcodec: 0x3E0B64, avformat: 0x3E0364 };
    assert_eq!(ffmpeg_version(&v), "avutil: 60.8.100, avcodec: 62.11.100, avformat: 62.3.100");
    assert_eq!(av_error_fallback(-2), "FFmpeg error -2");
    assert_eq!(av_error_fallback(i32::MIN), "FFmpeg error -2147483648");
}

#[test]
fn loader_without_directory_fails_at_once() {
    let (_, action) = SymbolLoader::start(false, TargetOs::Linux);
    match action {
        LoadAction::Failed(e) => {
            assert!(matches!(e, LoadError::DirectoryNotSet));
            assert_eq!(e.message(), "Library directory not set");
        }
        other => panic!("unexpected action {:?}", other),
    }
}

#[test]
fn loader_missing_library_is_named() {
    let (mut loader, action) = SymbolLoader::start(true, TargetOs::Linux);
    assert!(matches!(action, LoadAction::OpenLibrary { lib: NativeLib::AvUtil, file: "libavutil.so" }));
    let action = loader.library_opened(Ok(()));
    assert!(matches!(action, LoadAction::OpenLibrary { lib: NativeLib::SwResample, file: "libswresample.so" }));
    let action = loader.library_opened(Err("cannot open shared object file".to_string()));
    match action {
        LoadAction::Failed(e) => {
            assert_eq!(e.message(), "Failed to load swresample: cannot open shared object file");
            assert!(matches!(e, LoadError::LibraryLoadFailed { .. }));
        }
        other => panic!("unexpected action {:?}", other),
    }
}

#[test]
fn loader_resolves_every_symbol() {
    let (mut loader, mut action) = SymbolLoader::start(true, TargetOs::MacOs);
    let mut opened = Vec::new();
    let mut resolved = Vec::new();
    loop {
        action = match action {
            LoadAction::OpenLibrary { file, .. } => {
                opened.push(file);
                loader.library_opened(Ok(()))
            }
            LoadAction::ResolveSymbol { name, .. } => {
                resolved.push(name);
                loader.symbol_resolved(Ok(()))
            }
            LoadAction::Complete => break,
            LoadAction::Failed(e) => panic!("unexpected failure {}", e.message()),
        };
    }
    assert_eq!(opened, vec!["libavutil.dylib", "libswresample.dylib", "libavcodec.dylib", "libavformat.dylib"]);
    assert_eq!(resolved.len(), 56);
    assert_eq!(resolved[0], "av_frame_alloc");
    assert_eq!(resolved[55], "avformat_version");
}

#[test]
fn loader_missing_symbol_is_named() {
    let (mut loader, _) = SymbolLoader::start(true, TargetOs::Windows);
    for _ in 0..4 {
        loader.library_opened(Ok(()));
    }
    loader.symbol_resolved(Ok(()));
    match loader.symbol_resolved(Err("undefined symbol".to_string())) {
        LoadAction::Failed(e) => assert_eq!(e.message(), "Failed to resolve av_frame_free: undefined symbol"),
        other => panic!("unexpected action {:?}", other),
    }
}
