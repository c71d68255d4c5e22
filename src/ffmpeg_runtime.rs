//! The native media runtime's fixed facts and load sequence: which libraries
//! are opened, which entry points each must provide, how a load proceeds and
//! fails, and the per-format encoder settings of the export engine.
use vstd::prelude::*;
use crate::text::{dec, decimal, keyword_matches, matches_keyword, signed_decimal, idec};
use crate::TargetOs;

verus! {

/// The four native libraries, in the order they are opened.
#[derive(Debug, Clone, Copy, PartialEq, Eq, Structural)]
pub enum NativeLib {
    AvUtil,
    SwResample,
    AvCodec,
    AvFormat,
}

/// The library opened at position `i` of the load sequence.
pub open spec fn lib_at(i: int) -> NativeLib {
    if i == 0 {
        NativeLib::AvUtil
    } else if i == 1 {
        NativeLib::SwResample
    } else if i == 2 {
        NativeLib::AvCodec
    } else {
        NativeLib::AvFormat
    }
}

pub open spec fn lib_label(lib: NativeLib) -> Seq<char> {
    match lib {
        NativeLib::AvUtil => "avutil"@,
        NativeLib::SwResample => "swresample"@,
        NativeLib::AvCodec => "avcodec"@,
        NativeLib::AvFormat => "avformat"@,
    }
}

/// File name of each library on each platform.
pub open spec fn lib_file(lib: NativeLib, os: TargetOs) -> Seq<char> {
    match os {
        TargetOs::MacOs | TargetOs::Ios => match lib {
            NativeLib::AvUtil => "libavutil.dylib"@,
            NativeLib::SwResample => "libswresample.dylib"@,
            NativeLib::AvCodec => "libavcodec.dylib"@,
            NativeLib::AvFormat => "libavformat.dylib"@,
        },
        TargetOs::Windows => match lib {
            NativeLib::AvUtil => "avutil-60.dll"@,
            NativeLib::SwResample => "swresample-6.dll"@,
            NativeLib::AvCodec => "avcodec-62.dll"@,
            NativeLib::AvFormat => "avformat-62.dll"@,
        },
        _ => match lib {
            NativeLib::AvUtil => "libavutil.so"@,
            NativeLib::SwResample => "libswresample.so"@,
            NativeLib::AvCodec => "libavcodec.so"@,
            NativeLib::AvFormat => "libavformat.so"@,
        },
    }
}

impl NativeLib {
    /// The library at position `i` of the load sequence.
    pub fn at(i: usize) -> (r: NativeLib)
        requires
            i < 4,
        ensures
            r == lib_at(i as int),
    {
        if i == 0 {
            NativeLib::AvUtil
        } else if i == 1 {
            NativeLib::SwResample
        } else if i == 2 {
            NativeLib::AvCodec
        } else {
            NativeLib::AvFormat
        }
    }

    /// Short name of the library, as load errors report it.
    pub fn label(&self) -> (r: &'static str)
        ensures
            r@ == lib_label(*self),
    {
        match self {
            NativeLib::AvUtil => "avutil",
            NativeLib::SwResample => "swresample",
            NativeLib::AvCodec => "avcodec",
            NativeLib::AvFormat => "avformat",
        }
    }

    /// File name of the library on the platform `os`.
    pub fn file_name(&self, os: TargetOs) -> (r: &'static str)
        ensures
            r@ == lib_file(*self, os),
    {
        match os {
            TargetOs::MacOs | TargetOs::Ios => match self {
                NativeLib::AvUtil => "libavutil.dylib",
                NativeLib::SwResample => "libswresample.dylib",
                NativeLib::AvCodec => "libavcodec.dylib",
                NativeLib::AvFormat => "libavformat.dylib",
            },
            TargetOs::Windows => match self {
                NativeLib::AvUtil => "avutil-60.dll",
                NativeLib::SwResample => "swresample-6.dll",
                NativeLib::AvCodec => "avcodec-62.dll",
                NativeLib::AvFormat => "avformat-62.dll",
            },
            _ => match self {
                NativeLib::AvUtil => "libavutil.so",
                NativeLib::SwResample => "libswresample.so",
                NativeLib::AvCodec => "libavcodec.so",
                NativeLib::AvFormat => "libavformat.so",
            },
        }
    }
}

/// File names of the utility, resampler, coder and container libraries on `os`.
pub fn lib_names(os: TargetOs) -> (r: (&'static str, &'static str, &'static str, &'static str))
    ensures
        r.0@ == lib_file(NativeLib::AvUtil, os),
        r.1@ == lib_file(NativeLib::SwResample, os),
        r.2@ == lib_file(NativeLib::AvCodec, os),
        r.3@ == lib_file(NativeLib::AvFormat, os),
{
    (
        NativeLib::AvUtil.file_name(os),
        NativeLib::SwResample.file_name(os),
        NativeLib::AvCodec.file_name(os),
        NativeLib::AvFormat.file_name(os),
    )
}

/// Entry points that must resolve in each library.
pub open spec fn required_symbol_names(lib: NativeLib) -> Seq<Seq<char>> {
    match lib {
        NativeLib::AvUtil => seq![
            "av_frame_alloc"@,
            "av_frame_free"@,
            "av_frame_unref"@,
            "av_frame_get_buffer"@,
            "av_rescale_q"@,
            "av_strerror"@,
            "av_malloc"@,
            "av_free"@,
            "av_dict_set"@,
            "av_dict_free"@,
            "av_samples_alloc_array_and_samples"@,
            "av_channel_layout_default"@,
            "av_channel_layout_copy"@,
            "av_channel_layout_uninit"@,
            "avutil_version"@,
        ],
        NativeLib::SwResample => seq![
            "swr_alloc"@,
            "swr_free"@,
            "swr_alloc_set_opts2"@,
            "swr_init"@,
            "swr_convert"@,
            "swr_get_delay"@,
        ],
        NativeLib::AvCodec => seq![
            "avcodec_find_decoder"@,
            "avcodec_find_decoder_by_name"@,
            "avcodec_find_encoder"@,
            "avcodec_find_encoder_by_name"@,
            "avcodec_alloc_context3"@,
            "avcodec_free_context"@,
            "avcodec_parameters_to_context"@,
            "avcodec_parameters_from_context"@,
            "avcodec_parameters_copy"@,
            "avcodec_open2"@,
            "avcodec_send_packet"@,
            "avcodec_receive_frame"@,
            "avcodec_send_frame"@,
            "avcodec_receive_packet"@,
            "avcodec_flush_buffers"@,
            "av_packet_alloc"@,
            "av_packet_free"@,
            "av_packet_unref"@,
            "av_packet_rescale_ts"@,
            "avcodec_version"@,
        ],
        NativeLib::AvFormat => seq![
            "avformat_open_input"@,
            "avformat_close_input"@,
            "avformat_find_stream_info"@,
            "avformat_alloc_output_context2"@,
            "avformat_write_header"@,
            "av_write_trailer"@,
            "avformat_free_context"@,
            "av_find_best_stream"@,
            "av_read_frame"@,
            "av_seek_frame"@,
            "av_interleaved_write_frame"@,
            "avformat_new_stream"@,
            "avio_open"@,
            "avio_closep"@,
            "avformat_version"@,
        ],
    }
}

/// Every library has at least one required entry point.
pub proof fn lemma_symbol_lists_nonempty(lib: NativeLib)
    ensures
        required_symbol_names(lib).len() > 0,
{
}

impl NativeLib {
    /// Entry points that must resolve in this library, in resolution order.
    pub fn required_symbols(&self) -> (r: Vec<&'static str>)
        ensures
            r@.map_values(|s: &'static str| s@) == required_symbol_names(*self),
    {
        let mut r: Vec<&'static str> = Vec::new();
        match self {
            NativeLib::AvUtil => {
                r.push("av_frame_alloc");
                r.push("av_frame_free");
                r.push("av_frame_unref");
                r.push("av_frame_get_buffer");
                r.push("av_rescale_q");
                r.push("av_strerror");
                r.push("av_malloc");
                r.push("av_free");
                r.push("av_dict_set");
                r.push("av_dict_free");
                r.push("av_samples_alloc_array_and_samples");
                r.push("av_channel_layout_default");
                r.push("av_channel_layout_copy");
                r.push("av_channel_layout_uninit");
                r.push("avutil_version");
            },
            NativeLib::SwResample => {
                r.push("swr_alloc");
                r.push("swr_free");
                r.push("swr_alloc_set_opts2");
                r.push("swr_init");
                r.push("swr_convert");
                r.push("swr_get_delay");
            },
            NativeLib::AvCodec => {
                r.push("avcodec_find_decoder");
                r.push("avcodec_find_decoder_by_name");
                r.push("avcodec_find_encoder");
                r.push("avcodec_find_encoder_by_name");
                r.push("avcodec_alloc_context3");
                r.push("avcodec_free_context");
                r.push("avcodec_parameters_to_context");
                r.push("avcodec_parameters_from_context");
                r.push("avcodec_parameters_copy");
                r.push("avcodec_open2");
                r.push("avcodec_send_packet");
                r.push("avcodec_receive_frame");
                r.push("avcodec_send_frame");
                r.push("avcodec_receive_packet");
                r.push("avcodec_flush_buffers");
                r.push("av_packet_alloc");
                r.push("av_packet_free");
                r.push("av_packet_unref");
                r.push("av_packet_rescale_ts");
                r.push("avcodec_version");
            },
            NativeLib::AvFormat => {
                r.push("avformat_open_input");
                r.push("avformat_close_input");
                r.push("avformat_find_stream_info");
                r.push("avformat_alloc_output_context2");
                r.push("avformat_write_header");
                r.push("av_write_trailer");
                r.push("avformat_free_context");
                r.push("av_find_best_stream");
                r.push("av_read_frame");
                r.push("av_seek_frame");
                r.push("av_interleaved_write_frame");
                r.push("avformat_new_stream");
                r.push("avio_open");
                r.push("avio_closep");
                r.push("avformat_version");
            },
        }
        assert(r@.map_values(|s: &'static str| s@) =~= required_symbol_names(*self));
        r
    }
}

/// Why the native runtime could not be loaded.
#[derive(Debug)]
pub enum LoadError {
    /// No library directory was configured.
    DirectoryNotSet,
    /// A library file could not be opened.
    LibraryLoadFailed { name: String, reason: String },
    /// A library lacks a required entry point.
    SymbolNotFound { name: String, reason: String },
}

impl LoadError {
    /// Human-readable text of the error.
    pub fn message(&self) -> (r: String)
        ensures
            r@ == match self {
                LoadError::DirectoryNotSet => "Library directory not set"@,
                LoadError::LibraryLoadFailed { name, reason } => "Failed to load "@ + name@ + ": "@ + reason@,
                LoadError::SymbolNotFound { name, reason } => "Failed to resolve "@ + name@ + ": "@ + reason@,
            },
    {
        match self {
            LoadError::DirectoryNotSet => String::from_str("Library directory not set"),
            LoadError::LibraryLoadFailed { name, reason } => String::from_str("Failed to load ").concat(
                name.as_str(),
            ).concat(": ").concat(reason.as_str()),
            LoadError::SymbolNotFound { name, reason } => String::from_str("Failed to resolve ").concat(
                name.as_str(),
            ).concat(": ").concat(reason.as_str()),
        }
    }
}

/// What the loader asks of its driver next.
#[derive(Debug)]
pub enum LoadAction {
    /// Open `file` in the configured directory and report with `library_opened`.
    OpenLibrary { lib: NativeLib, file: &'static str },
    /// Look `name` up in `lib` and report with `symbol_resolved`.
    ResolveSymbol { lib: NativeLib, name: &'static str },
    /// The load is over and failed; nothing of it may be used.
    Failed(LoadError),
    /// Every library opened and every entry point resolved.
    Complete,
}

/// The load sequence of the native runtime: open the four libraries in order,
/// then resolve every required entry point of each, stopping at the first
/// failure. No partial table is ever reported complete.
pub struct SymbolLoader {
    os: TargetOs,
    opened: usize,
    lib_cursor: usize,
    sym_cursor: usize,
    pending: Vec<&'static str>,
    finished: bool,
}

impl SymbolLoader {
    pub closed spec fn platform(&self) -> TargetOs {
        self.os
    }

    /// Number of libraries opened so far.
    pub closed spec fn opened(&self) -> nat {
        self.opened as nat
    }

    /// Position of the library whose entry points are being resolved.
    pub closed spec fn lib_cursor(&self) -> nat {
        self.lib_cursor as nat
    }

    /// Position of the entry point being resolved within its library's list.
    pub closed spec fn sym_cursor(&self) -> nat {
        self.sym_cursor as nat
    }

    /// The load has ended, in failure or completion.
    pub closed spec fn finished(&self) -> bool {
        self.finished
    }

    pub closed spec fn wf(&self) -> bool {
        &&& self.opened <= 4
        &&& self.lib_cursor <= 4
        &&& self.opened < 4 ==> self.lib_cursor == 0 && self.sym_cursor == 0
        &&& !self.finished ==> self.lib_cursor < 4
        &&& self.lib_cursor < 4 ==> {
            &&& self.pending@.map_values(|s: &'static str| s@) == required_symbol_names(lib_at(self.lib_cursor as int))
            &&& self.sym_cursor < self.pending@.len()
        }
    }

    /// Begins a load; `dir_set` tells whether a library directory is configured.
    pub fn start(dir_set: bool, os: TargetOs) -> (r: (SymbolLoader, LoadAction))
        ensures
            r.0.wf(),
            r.0.platform() == os,
            r.0.opened() == 0,
            !dir_set ==> r.0.finished() && r.1 matches LoadAction::Failed(LoadError::DirectoryNotSet),
            dir_set ==> !r.0.finished() && (r.1 matches LoadAction::OpenLibrary { lib, file }
                && lib == NativeLib::AvUtil && file@ == lib_file(NativeLib::AvUtil, os)),
    {
        proof {
            lemma_symbol_lists_nonempty(NativeLib::AvUtil);
        }
        let loader = SymbolLoader {
            os,
            opened: 0,
            lib_cursor: 0,
            sym_cursor: 0,
            pending: NativeLib::AvUtil.required_symbols(),
            finished: !dir_set,
        };
        if !dir_set {
            (loader, LoadAction::Failed(LoadError::DirectoryNotSet))
        } else {
            (loader, LoadAction::OpenLibrary { lib: NativeLib::AvUtil, file: NativeLib::AvUtil.file_name(os) })
        }
    }

    /// Reports the outcome of the last `OpenLibrary` request.
    pub fn library_opened(&mut self, outcome: Result<(), String>) -> (r: LoadAction)
        requires
            old(self).wf(),
            !old(self).finished(),
            old(self).opened() < 4,
        ensures
            final(self).wf(),
            final(self).platform() == old(self).platform(),
            final(self).lib_cursor() == 0,
            match outcome {
                Err(e) => {
                    &&& final(self).finished()
                    &&& final(self).opened() == old(self).opened()
                    &&& r matches LoadAction::Failed(LoadError::LibraryLoadFailed { name, reason })
                        && name@ == lib_label(lib_at(old(self).opened() as int)) && reason@ == e@
                },
                Ok(_) => {
                    &&& !final(self).finished()
                    &&& final(self).opened() == old(self).opened() + 1
                    &&& final(self).opened() < 4 ==> (r matches LoadAction::OpenLibrary { lib, file }
                        && lib == lib_at(final(self).opened() as int)
                        && file@ == lib_file(lib, old(self).platform()))
                    &&& final(self).opened() == 4 ==> (r matches LoadAction::ResolveSymbol { lib, name }
                        && lib == lib_at(0) && name@ == required_symbol_names(lib_at(0))[0])
                },
            },
    {
        match outcome {
            Err(reason) => {
                self.finished = true;
                let lib = NativeLib::at(self.opened);
                LoadAction::Failed(LoadError::LibraryLoadFailed { name: String::from_str(lib.label()), reason })
            },
            Ok(()) => {
                self.opened = self.opened + 1;
                if self.opened < 4 {
                    let lib = NativeLib::at(self.opened);
                    LoadAction::OpenLibrary { lib, file: lib.file_name(self.os) }
                } else {
                    proof {
                        assert(self.pending@.map_values(|s: &'static str| s@)[0] == self.pending@[0]@);
                    }
                    LoadAction::ResolveSymbol { lib: NativeLib::AvUtil, name: self.pending[0] }
                }
            },
        }
    }

    /// Reports the outcome of the last `ResolveSymbol` request.
    pub fn symbol_resolved(&mut self, outcome: Result<(), String>) -> (r: LoadAction)
        requires
            old(self).wf(),
            !old(self).finished(),
            old(self).opened() == 4,
        ensures
            final(self).wf(),
            final(self).platform() == old(self).platform(),
            final(self).opened() == 4,
            match outcome {
                Err(e) => {
                    &&& final(self).finished()
                    &&& r matches LoadAction::Failed(LoadError::SymbolNotFound { name, reason })
                        && name@ == required_symbol_names(lib_at(old(self).lib_cursor() as int))[old(self).sym_cursor() as int]
                        && reason@ == e@
                },
                Ok(_) => {
                    let lib = lib_at(old(self).lib_cursor() as int);
                    let last_of_lib = old(self).sym_cursor() + 1 == required_symbol_names(lib).len();
                    &&& !last_of_lib ==> !final(self).finished()
                        && final(self).lib_cursor() == old(self).lib_cursor()
                        && final(self).sym_cursor() == old(self).sym_cursor() + 1
                        && (r matches LoadAction::ResolveSymbol { lib: l, name }
                        && l == lib && name@ == required_symbol_names(lib)[old(self).sym_cursor() + 1int])
                    &&& last_of_lib && old(self).lib_cursor() < 3 ==> !final(self).finished()
                        && final(self).lib_cursor() == old(self).lib_cursor() + 1
                        && final(self).sym_cursor() == 0
                        && (r matches LoadAction::ResolveSymbol { lib: l, name }
                        && l == lib_at(final(self).lib_cursor() as int)
                        && name@ == required_symbol_names(l)[0])
                    &&& r is Complete <==> (last_of_lib && old(self).lib_cursor() == 3)
                    &&& r is Complete ==> final(self).finished() && final(self).lib_cursor() == 4
                },
            },
    {
        proof {
            assert(self.pending@.map_values(|s: &'static str| s@)[self.sym_cursor as int]
                == self.pending@[self.sym_cursor as int]@);
        }
        match outcome {
            Err(reason) => {
                self.finished = true;
                let name = self.pending[self.sym_cursor];
                LoadAction::Failed(LoadError::SymbolNotFound { name: String::from_str(name), reason })
            },
            Ok(()) => {
                if self.sym_cursor < self.pending.len() - 1 {
                    self.sym_cursor = self.sym_cursor + 1;
                    proof {
                        assert(self.pending@.map_values(|s: &'static str| s@)[self.sym_cursor as int]
                            == self.pending@[self.sym_cursor as int]@);
                    }
                    LoadAction::ResolveSymbol { lib: NativeLib::at(self.lib_cursor), name: self.pending[self.sym_cursor] }
                } else if self.lib_cursor < 3 {
                    self.lib_cursor = self.lib_cursor + 1;
                    self.sym_cursor = 0;
                    let lib = NativeLib::at(self.lib_cursor);
                    self.pending = lib.required_symbols();
                    proof {
                        lemma_symbol_lists_nonempty(lib);
                        assert(self.pending@.map_values(|s: &'static str| s@)[0] == self.pending@[0]@);
                    }
                    LoadAction::ResolveSymbol { lib, name: self.pending[0] }
                } else {
                    self.lib_cursor = 4;
                    self.finished = true;
                    LoadAction::Complete
                }
            },
        }
    }
}


/// Sample layouts that the export engine hands to encoders.
#[derive(Debug, Clone, Copy, PartialEq, Eq, Structural)]
pub enum SampleFormat {
    /// Interleaved signed 16-bit.
    S16,
    /// Planar signed 16-bit.
    S16P,
    /// Planar 32-bit float.
    FltP,
}

/// The native library's numeric code of each sample layout.
pub open spec fn sample_format_code(f: SampleFormat) -> i32 {
    match f {
        SampleFormat::S16 => 1,
        SampleFormat::S16P => 6,
        SampleFormat::FltP => 8,
    }
}

impl SampleFormat {
    /// The native library's numeric code of this layout.
    pub fn code(&self) -> (r: i32)
        ensures
            r == sample_format_code(*self),
    {
        match self {
            SampleFormat::S16 => 1,
            SampleFormat::S16P => 6,
            SampleFormat::FltP => 8,
        }
    }
}

/// An export target: the encoder and the container it is written in.
#[derive(Debug, Clone, Copy, PartialEq, Eq, Structural)]
pub enum AudioFormat {
    Mp3,
    Aac,
    Flac,
    Wav,
}

/// The export target a file-name extension selects, ignoring ASCII case.
pub open spec fn target_for_extension(ext: Seq<char>) -> Option<AudioFormat> {
    if matches_keyword(ext, seq!['m', 'p', '3']) {
        Some(AudioFormat::Mp3)
    } else if matches_keyword(ext, seq!['a', 'a', 'c']) || matches_keyword(ext, seq!['m', '4', 'a']) {
        Some(AudioFormat::Aac)
    } else if matches_keyword(ext, seq!['f', 'l', 'a', 'c']) {
        Some(AudioFormat::Flac)
    } else if matches_keyword(ext, seq!['w', 'a', 'v']) {
        Some(AudioFormat::Wav)
    } else {
        None
    }
}

pub open spec fn target_encoder(f: AudioFormat) -> Seq<char> {
    match f {
        AudioFormat::Mp3 => seq!['l', 'i', 'b', 'm', 'p', '3', 'l', 'a', 'm', 'e'],
        AudioFormat::Aac => seq!['a', 'a', 'c'],
        AudioFormat::Flac => seq!['f', 'l', 'a', 'c'],
        AudioFormat::Wav => seq!['p', 'c', 'm', '_', 's', '1', '6', 'l', 'e'],
    }
}

pub open spec fn target_container(f: AudioFormat) -> Seq<char> {
    match f {
        AudioFormat::Mp3 => seq!['m', 'p', '3'],
        AudioFormat::Aac => seq!['a', 'd', 't', 's'],
        AudioFormat::Flac => seq!['f', 'l', 'a', 'c'],
        AudioFormat::Wav => seq!['w', 'a', 'v'],
    }
}

/// The sample layout each target's encoder is opened with.
pub open spec fn target_sample_format(f: AudioFormat) -> SampleFormat {
    match f {
        AudioFormat::Mp3 => SampleFormat::S16P,
        AudioFormat::Aac => SampleFormat::FltP,
        AudioFormat::Flac => SampleFormat::S16,
        AudioFormat::Wav => SampleFormat::S16,
    }
}

impl AudioFormat {
    /// The export target selected by a file-name extension, ignoring ASCII case.
    pub fn from_extension(ext: &str) -> (r: Option<AudioFormat>)
        ensures
            r == target_for_extension(ext@),
    {
        proof {
            reveal_strlit("mp3");
            reveal_strlit("aac");
            reveal_strlit("m4a");
            reveal_strlit("flac");
            reveal_strlit("wav");
        }
        if keyword_matches(ext, "mp3") {
            Some(AudioFormat::Mp3)
        } else if keyword_matches(ext, "aac") || keyword_matches(ext, "m4a") {
            Some(AudioFormat::Aac)
        } else if keyword_matches(ext, "flac") {
            Some(AudioFormat::Flac)
        } else if keyword_matches(ext, "wav") {
            Some(AudioFormat::Wav)
        } else {
            None
        }
    }

    /// Name of the encoder that produces this target.
    pub fn encoder_name(&self) -> (r: &'static str)
        ensures
            r@ == target_encoder(*self),
    {
        match self {
            AudioFormat::Mp3 => {
                proof { reveal_strlit("libmp3lame"); }
                "libmp3lame"
            },
            AudioFormat::Aac => {
                proof { reveal_strlit("aac"); }
                "aac"
            },
            AudioFormat::Flac => {
                proof { reveal_strlit("flac"); }
                "flac"
            },
            AudioFormat::Wav => {
                proof { reveal_strlit("pcm_s16le"); }
                "pcm_s16le"
            },
        }
    }

    /// Name of the container this target is written in.
    pub fn format_name(&self) -> (r: &'static str)
        ensures
            r@ == target_container(*self),
    {
        match self {
            AudioFormat::Mp3 => {
                proof { reveal_strlit("mp3"); }
                "mp3"
            },
            AudioFormat::Aac => {
                proof { reveal_strlit("adts"); }
                "adts"
            },
            AudioFormat::Flac => {
                proof { reveal_strlit("flac"); }
                "flac"
            },
            AudioFormat::Wav => {
                proof { reveal_strlit("wav"); }
                "wav"
            },
        }
    }

    /// The sample layout this target's encoder is opened with.
    pub fn sample_format(&self) -> (r: SampleFormat)
        ensures
            r == target_sample_format(*self),
    {
        match self {
            AudioFormat::Mp3 => SampleFormat::S16P,
            AudioFormat::Aac => SampleFormat::FltP,
            AudioFormat::Flac => SampleFormat::S16,
            AudioFormat::Wav => SampleFormat::S16,
        }
    }
}

/// Packed version numbers that the three main libraries report.
#[derive(Debug, Clone, Copy, PartialEq, Eq, Structural)]
pub struct LibVersions {
    pub avutil: u32,
    pub avcodec: u32,
    pub avformat: u32,
}

/// "major.minor.micro" of a packed version number (one byte each, major highest).
pub open spec fn version_seq(v: u32) -> Seq<char> {
    dec((v as nat / 65536) % 256) + seq!['.'] + dec((v as nat / 256) % 256) + seq!['.'] + dec(v as nat % 256)
}

/// Text of the three libraries' versions.
pub open spec fn versions_seq(v: LibVersions) -> Seq<char> {
    "avutil: "@ + version_seq(v.avutil) + ", avcodec: "@ + version_seq(v.avcodec) + ", avformat: "@
        + version_seq(v.avformat)
}

fn version_text(v: u32) -> (r: String)
    ensures
        r@ == version_seq(v),
{
    proof { reveal_strlit("."); }
    let major = decimal(((v / 65536) % 256) as u128);
    let minor = decimal(((v / 256) % 256) as u128);
    let micro = decimal((v % 256) as u128);
    major.concat(".").concat(minor.as_str()).concat(".").concat(micro.as_str())
}

/// Text of the three libraries' versions, as "avutil: a.b.c, avcodec: ..., avformat: ...".
pub fn ffmpeg_version(v: &LibVersions) -> (r: String)
    ensures
        r@ == versions_seq(*v),
{
    let u = version_text(v.avutil);
    let c = version_text(v.avcodec);
    let f = version_text(v.avformat);
    String::from_str("avutil: ").concat(u.as_str()).concat(", avcodec: ").concat(c.as_str()).concat(
        ", avformat: ",
    ).concat(f.as_str())
}

/// Text of a native error code when the library's own description is not available.
pub fn av_error_fallback(code: i32) -> (r: String)
    ensures
        r@ == "FFmpeg error "@ + idec(code as int),
{
    let n = signed_decimal(code as i128);
    String::from_str("FFmpeg error ").concat(n.as_str())
}

} // verus!
