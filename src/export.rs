//! Decisions of the export engine: which target an output path selects, how
//! many samples a time window owes, which packets are decoded, and which
//! timestamp each encoded frame carries.
use vstd::prelude::*;
use crate::ffmpeg_runtime::{AudioFormat, SampleFormat, target_for_extension};
use crate::media::{TimeBase, extension_of, path_extension};

verus! {

/// Largest sample budget of one export; it keeps every frame timestamp
/// within `i64` whatever the frame sizes.
pub const MAX_SAMPLE_BUDGET: i64 = 9223372032559808512;

/// The target an output path selects: by its extension, with Mp3 for a path
/// without one or with one that names no target.
pub open spec fn export_target(path: Seq<char>) -> AudioFormat {
    match extension_of(path) {
        Some(e) => match target_for_extension(e) {
            Some(f) => f,
            None => AudioFormat::Mp3,
        },
        None => AudioFormat::Mp3,
    }
}

/// What an export is asked to produce, once the request has been checked.
#[derive(Debug, Clone, Copy, PartialEq, Eq, Structural)]
pub struct ExportPlan {
    pub format: AudioFormat,
    pub start_us: i64,
    pub end_us: i64,
}

impl ExportPlan {
    pub open spec fn wf(&self) -> bool {
        self.start_us < self.end_us
    }
}

/// Checks an export request before any file is touched: the window
/// `[start_us, end_us)` must not be empty; the target comes from the output
/// path's extension.
pub fn plan_export(output_path: &str, start_us: i64, end_us: i64) -> (r: Result<ExportPlan, String>)
    ensures
        r is Err <==> end_us <= start_us,
        r matches Err(e) ==> e@ == "Invalid time range"@,
        r matches Ok(p) ==> p.wf() && p.start_us == start_us && p.end_us == end_us
            && p.format == export_target(output_path@),
{
    if end_us <= start_us {
        return Err(String::from_str("Invalid time range"));
    }
    let format = match path_extension(output_path) {
        Some(ext) => match AudioFormat::from_extension(ext) {
            Some(f) => f,
            None => AudioFormat::Mp3,
        },
        None => AudioFormat::Mp3,
    };
    Ok(ExportPlan { format, start_us, end_us })
}

/// Number of samples a window of `start_us..end_us` owes at `rate` samples per
/// second, rounded to nearest (halves up), limited to `MAX_SAMPLE_BUDGET`.
pub open spec fn budget_of(start_us: int, end_us: int, rate: int) -> int {
    let exact = ((end_us - start_us) * rate * 2 + 1000000) / 2000000;
    if exact > MAX_SAMPLE_BUDGET {
        MAX_SAMPLE_BUDGET as int
    } else {
        exact
    }
}

/// The sample budget of a window, as `budget_of` states it.
pub fn sample_budget(start_us: i64, end_us: i64, rate: u32) -> (r: i64)
    requires
        start_us < end_us,
    ensures
        r == budget_of(start_us as int, end_us as int, rate as int),
        0 <= r <= MAX_SAMPLE_BUDGET,
{
    let span: i128 = (end_us as i128) - (start_us as i128);
    assert(0 <= span * (rate as int) <= 0x1_0000_0000_0000_0000 * 0x1_0000_0000) by (nonlinear_arith)
        requires
            0 < span <= 0x1_0000_0000_0000_0000,
            0 <= rate <= 0xffff_ffff,
    ;
    let exact: i128 = (span * (rate as i128) * 2 + 1000000) / 2000000;
    if exact > (MAX_SAMPLE_BUDGET as i128) {
        MAX_SAMPLE_BUDGET
    } else {
        exact as i64
    }
}

/// Whether the decoder's sample layout differs from the encoder's, so that a
/// resampler must sit between them.
pub fn needs_resample(decoder_format: i32, encoder_format: SampleFormat) -> (r: bool)
    ensures
        r == (decoder_format != crate::ffmpeg_runtime::sample_format_code(encoder_format)),
{
    decoder_format != encoder_format.code()
}

/// Whether an output container that announces `container_flags` asks its
/// encoders for global headers.
pub fn wants_global_header(container_flags: i32) -> (r: bool)
    ensures
        r == (container_flags & 0x40 != 0),
{
    container_flags & 0x40 != 0
}

/// A packet's time, `pts * num / den` seconds, lies at or after `us` microseconds.
pub open spec fn at_or_after(pts: int, tb: TimeBase, us: int) -> bool {
    pts * tb.num * 1000000 >= us * tb.den
}

/// What to do with a packet read from the input.
#[derive(Debug, Clone, Copy, PartialEq, Eq, Structural)]
pub enum PacketAction {
    /// Release it and read on: another stream's, or before the window.
    Skip,
    /// Hand it to the decoder.
    Decode,
    /// The window is over: stop reading, flush and finish.
    Finish,
}

/// What to do with a frame that the decoder produced.
#[derive(Debug, Clone, Copy, PartialEq, Eq, Structural)]
pub enum FrameAction {
    /// Stamp it with `pts` and hand it to the encoder.
    Encode { pts: i64 },
    /// The sample budget is spent: stop, flush and finish.
    Finish,
}

/// The decision for a packet of stream `stream` at `pts`.
pub open spec fn packet_decision(p: ExportPump, stream: i32, pts: i64) -> PacketAction {
    if stream != p.stream_index {
        PacketAction::Skip
    } else if !at_or_after(pts as int, p.time_base, p.start_us as int) {
        PacketAction::Skip
    } else if at_or_after(pts as int, p.time_base, p.end_us as int) {
        PacketAction::Finish
    } else {
        PacketAction::Decode
    }
}

/// Samples handed to the encoder after offering a frame of `n` samples when
/// `written` were already handed over: none once the budget is reached.
pub open spec fn pump_step(budget: int, written: int, n: int) -> int {
    if written >= budget {
        written
    } else {
        written + n
    }
}

/// Samples handed to the encoder after offering frames of the given sizes in order.
pub open spec fn pumped(budget: int, sizes: Seq<int>) -> int
    decreases sizes.len(),
{
    if sizes.len() == 0 {
        0
    } else {
        pump_step(budget, pumped(budget, sizes.drop_last()), sizes.last())
    }
}

/// Total of the given frame sizes.
pub open spec fn offered(sizes: Seq<int>) -> int
    decreases sizes.len(),
{
    if sizes.len() == 0 {
        0
    } else {
        offered(sizes.drop_last()) + sizes.last()
    }
}

/// With frames of at most `frame` samples, the encoder receives at least the
/// budget or everything offered, whichever is less, and never a full frame
/// beyond the budget: the clip length is fixed by the budget to within one
/// frame, however the input packets fall.
pub proof fn lemma_budget_bounds_output(budget: int, frame: int, sizes: Seq<int>)
    requires
        budget >= 0,
        frame >= 1,
        forall|i: int| 0 <= i < sizes.len() ==> 0 <= #[trigger] sizes[i] <= frame,
    ensures
        pumped(budget, sizes) >= if offered(sizes) < budget { offered(sizes) } else { budget },
        pumped(budget, sizes) <= offered(sizes),
        budget == 0 ==> pumped(budget, sizes) == 0,
        budget > 0 ==> pumped(budget, sizes) < budget + frame,
    decreases sizes.len(),
{
    if sizes.len() > 0 {
        let rest = sizes.drop_last();
        assert forall|i: int| 0 <= i < rest.len() implies 0 <= #[trigger] rest[i] <= frame by {
            assert(rest[i] == sizes[i]);
        }
        lemma_budget_bounds_output(budget, frame, rest);
        assert(0 <= sizes[sizes.len() - 1] <= frame);
    }
}

/// The running state of one export's read-decode-encode loop.
#[derive(Debug, Clone, Copy, PartialEq, Eq, Structural)]
pub struct ExportPump {
    /// The selected input stream.
    pub stream_index: i32,
    /// Time base of the selected stream.
    pub time_base: TimeBase,
    pub start_us: i64,
    pub end_us: i64,
    /// Samples the window owes.
    pub budget: i64,
    /// Samples handed to the encoder so far.
    pub written: i64,
}

impl ExportPump {
    pub open spec fn wf(&self) -> bool {
        &&& self.time_base.wf()
        &&& 0 <= self.budget <= MAX_SAMPLE_BUDGET
        &&& 0 <= self.written
        &&& self.written < self.budget + 0x1_0000_0000
    }

    /// The loop state at the start of an export of `plan` from stream
    /// `stream_index`, encoded at `rate` samples per second.
    pub fn new(plan: &ExportPlan, stream_index: i32, time_base: TimeBase, rate: u32) -> (r: ExportPump)
        requires
            plan.wf(),
            time_base.wf(),
        ensures
            r.wf(),
            r.stream_index == stream_index,
            r.time_base == time_base,
            r.start_us == plan.start_us,
            r.end_us == plan.end_us,
            r.budget == budget_of(plan.start_us as int, plan.end_us as int, rate as int),
            r.written == 0,
    {
        ExportPump {
            stream_index,
            time_base,
            start_us: plan.start_us,
            end_us: plan.end_us,
            budget: sample_budget(plan.start_us, plan.end_us, rate),
            written: 0,
        }
    }

    /// Decides on a packet of stream `stream` stamped `pts` (in the stream's
    /// time base): other streams' packets and those before the window are
    /// skipped; the first at or past the window's end finishes the loop.
    pub fn packet_action(&self, stream: i32, pts: i64) -> (r: PacketAction)
        requires
            self.wf(),
        ensures
            r == packet_decision(*self, stream, pts),
    {
        if stream != self.stream_index {
            return PacketAction::Skip;
        }
        proof {
            crate::media::lemma_pts_scaling_bounds(pts as int, self.time_base);
        }
        let t: i128 = (pts as i128) * (self.time_base.num as i128) * 1000000i128;
        let den: i128 = self.time_base.den as i128;
        let start: i128 = (self.start_us as i128) * den;
        let end: i128 = (self.end_us as i128) * den;
        if t < start {
            PacketAction::Skip
        } else if t >= end {
            PacketAction::Finish
        } else {
            PacketAction::Decode
        }
    }

    /// Decides on a decoded frame of `nb_samples` samples: once the budget is
    /// spent the loop finishes; otherwise the frame is stamped with the count
    /// of samples handed over before it, so output timestamps are contiguous.
    pub fn frame_action(&mut self, nb_samples: u32) -> (r: FrameAction)
        requires
            old(self).wf(),
        ensures
            final(self).wf(),
            final(self).stream_index == old(self).stream_index,
            final(self).time_base == old(self).time_base,
            final(self).start_us == old(self).start_us,
            final(self).end_us == old(self).end_us,
            final(self).budget == old(self).budget,
            final(self).written == pump_step(old(self).budget as int, old(self).written as int, nb_samples as int),
            old(self).written >= old(self).budget ==> r is Finish,
            old(self).written < old(self).budget ==> r == (FrameAction::Encode { pts: old(self).written }),
    {
        if self.written >= self.budget {
            FrameAction::Finish
        } else {
            let pts = self.written;
            self.written = self.written + nb_samples as i64;
            FrameAction::Encode { pts }
        }
    }
}

} // verus!
