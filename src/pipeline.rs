//! Stages of the processing pipeline and the commands its front end sends.
use vstd::prelude::*;

verus! {

/// Processing stages, in execution order.
#[derive(Debug, Clone, Copy, PartialEq, Eq, Hash, Structural)]
pub enum StageName {
    /// Information extraction (indeterminate progress).
    Initializing,
    /// Audio stream download (byte-level progress).
    Downloading,
    /// Remux or convert (indeterminate progress).
    Converting,
    /// Waveform peak generation (chunk progress).
    Waveform,
    /// Beat and tempo analysis (indeterminate progress).
    BeatDetection,
}

/// Share of each stage in overall progress, in percent.
pub open spec fn stage_weight(s: StageName) -> int {
    match s {
        StageName::Initializing => 5,
        StageName::Downloading => 40,
        StageName::Converting => 10,
        StageName::Waveform => 25,
        StageName::BeatDetection => 20,
    }
}

pub open spec fn all_stages() -> Seq<StageName> {
    seq![
        StageName::Initializing,
        StageName::Downloading,
        StageName::Converting,
        StageName::Waveform,
        StageName::BeatDetection,
    ]
}

/// Sum of the weights of `stages`.
pub open spec fn weight_sum(stages: Seq<StageName>) -> int
    decreases stages.len(),
{
    if stages.len() == 0 {
        0
    } else {
        weight_sum(stages.drop_last()) + stage_weight(stages.last())
    }
}

/// The stage weights share out exactly one hundred percent.
pub proof fn lemma_weights_sum_to_hundred()
    ensures
        weight_sum(all_stages()) == 100,
{
    let s = all_stages();
    assert(s.drop_last().drop_last().drop_last().drop_last().drop_last() =~= Seq::<StageName>::empty());
    reveal_with_fuel(weight_sum, 6);
}

impl StageName {
    /// Share of this stage in overall progress, in percent.
    pub fn weight(&self) -> (r: u32)
        ensures
            r == stage_weight(*self),
    {
        match self {
            StageName::Initializing => 5,
            StageName::Downloading => 40,
            StageName::Converting => 10,
            StageName::Waveform => 25,
            StageName::BeatDetection => 20,
        }
    }

    /// Whether this stage must complete before the next one starts.
    pub fn is_blocking(&self) -> (r: bool)
        ensures
            r == (*self == StageName::Initializing || *self == StageName::Downloading || *self
                == StageName::Converting),
    {
        match self {
            StageName::Initializing | StageName::Downloading | StageName::Converting => true,
            _ => false,
        }
    }

    /// All stages in execution order.
    pub fn all() -> (r: Vec<StageName>)
        ensures
            r@ == all_stages(),
    {
        let mut r: Vec<StageName> = Vec::new();
        r.push(StageName::Initializing);
        r.push(StageName::Downloading);
        r.push(StageName::Converting);
        r.push(StageName::Waveform);
        r.push(StageName::BeatDetection);
        assert(r@ =~= all_stages());
        r
    }

    /// Display name of the stage.
    pub fn label(&self) -> (r: &'static str)
        ensures
            r@ == match *self {
                StageName::Initializing => "Initializing"@,
                StageName::Downloading => "Downloading"@,
                StageName::Converting => "Converting"@,
                StageName::Waveform => "Waveform"@,
                StageName::BeatDetection => "Beat Detection"@,
            },
    {
        match self {
            StageName::Initializing => "Initializing",
            StageName::Downloading => "Downloading",
            StageName::Converting => "Converting",
            StageName::Waveform => "Waveform",
            StageName::BeatDetection => "Beat Detection",
        }
    }
}

/// A media command queued by the extraction step for later execution.
#[derive(Debug, Clone)]
pub struct FFmpegCommand {
    pub id: String,
    pub command: String,
    pub args: Vec<String>,
    pub input_path: Option<String>,
    pub output_path: Option<String>,
    pub status: String,
}

/// Commands sent to the pipeline by its front end.
#[derive(Debug, Clone)]
pub enum PipelineCommand {
    /// Extraction finished.
    ExtractionComplete { audio_path: String, ffmpeg_commands: Vec<FFmpegCommand> },
    /// Extraction failed.
    ExtractionFailed { message: String },
    /// Download progress.
    DownloadProgress { bytes_downloaded: u64, total_bytes: Option<u64> },
    /// Extraction is under way, with no download yet.
    InitializingProgress { message: String },
}

} // verus!
