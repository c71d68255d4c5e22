//! Timestamps, time bases, stream facts and output-path extensions.
use vstd::prelude::*;

verus! {

/// Timestamp value that marks an unknown time or duration.
pub const AV_NOPTS_VALUE: i64 = i64::MIN;

/// Ticks per second of the reference time base (microseconds).
pub const AV_TIME_BASE: i64 = 1000000;

/// A time base: one tick lasts `num / den` seconds.
#[derive(Debug, Clone, Copy, PartialEq, Eq, Structural)]
pub struct TimeBase {
    pub num: i32,
    pub den: i32,
}

impl TimeBase {
    pub open spec fn wf(&self) -> bool {
        self.num > 0 && self.den > 0
    }

    /// A time base, or `None` when either part is not positive.
    pub fn new(num: i32, den: i32) -> (r: Option<TimeBase>)
        ensures
            r matches Some(tb) ==> tb.wf() && tb.num == num && tb.den == den,
            r is None <==> !(num > 0 && den > 0),
    {
        if num > 0 && den > 0 {
            Some(TimeBase { num, den })
        } else {
            None
        }
    }
}

/// `x / d` rounded toward zero.
pub open spec fn div_trunc(x: int, d: int) -> int {
    if x >= 0 {
        x / d
    } else {
        -((-x) / d)
    }
}

/// `x` limited to the range of `i64`.
pub open spec fn clamp_i64(x: int) -> int {
    if x < i64::MIN {
        i64::MIN as int
    } else if x > i64::MAX {
        i64::MAX as int
    } else {
        x
    }
}

/// `ticks` of time base `tb`, in microseconds rounded toward zero.
pub open spec fn ticks_to_us(ticks: int, tb: TimeBase) -> int {
    clamp_i64(div_trunc(ticks * tb.num * 1000000, tb.den as int))
}

/// Duration of a stream in microseconds: its own duration when known, else the
/// container's duration (already in microseconds).
pub open spec fn duration_us_of(stream_duration: i64, tb: TimeBase, container_duration: i64) -> int {
    if stream_duration != AV_NOPTS_VALUE {
        ticks_to_us(stream_duration as int, tb)
    } else {
        container_duration as int
    }
}

proof fn lemma_tick_product_bounds(ticks: int, num: int)
    requires
        i64::MIN <= ticks <= i64::MAX,
        0 < num <= i32::MAX,
    ensures
        -0x7fff_ffff_ffff_ffff_ffff_ffff_ffff_ffff <= ticks * num * 1000000 <= 0x7fff_ffff_ffff_ffff_ffff_ffff_ffff_ffff,
{
    assert(-0x8000_0000_0000_0000 * 0x7fff_ffff <= ticks * num <= 0x7fff_ffff_ffff_ffff * 0x7fff_ffff)
        by (nonlinear_arith)
        requires
            i64::MIN <= ticks <= i64::MAX,
            0 < num <= i32::MAX,
    ;
    assert(-0x8000_0000_0000_0000 * 0x7fff_ffff * 1000000 <= ticks * num * 1000000
        <= 0x7fff_ffff_ffff_ffff * 0x7fff_ffff * 1000000) by (nonlinear_arith)
        requires
            -0x8000_0000_0000_0000 * 0x7fff_ffff <= ticks * num <= 0x7fff_ffff_ffff_ffff * 0x7fff_ffff,
    ;
}

/// Converts a tick count of `tb` to microseconds, rounded toward zero and
/// limited to the range of `i64`.
pub fn ticks_to_micros(ticks: i64, tb: TimeBase) -> (r: i64)
    requires
        tb.wf(),
    ensures
        r == ticks_to_us(ticks as int, tb),
{
    proof {
        lemma_tick_product_bounds(ticks as int, tb.num as int);
    }
    let x: i128 = (ticks as i128) * (tb.num as i128) * 1000000i128;
    let den: i128 = tb.den as i128;
    let q: i128 = if x >= 0 {
        x / den
    } else {
        -((-x) / den)
    };
    assert(q == div_trunc(x as int, den as int));
    proof {
        let xi = x as int;
        let di = den as int;
        if xi >= 0 {
            assert(0 <= xi / di <= xi) by (nonlinear_arith)
                requires
                    xi >= 0,
                    di > 0,
            ;
        } else {
            assert(0 <= (-xi) / di <= -xi) by (nonlinear_arith)
                requires
                    -xi > 0,
                    di > 0,
            ;
        }
    }
    if q < (i64::MIN as i128) {
        i64::MIN
    } else if q > (i64::MAX as i128) {
        i64::MAX
    } else {
        q as i64
    }
}

/// Duration of a stream in microseconds: from the stream's own duration in its
/// time base when known, else the container's duration.
pub fn stream_duration_us(stream_duration: i64, tb: TimeBase, container_duration: i64) -> (r: i64)
    requires
        tb.wf(),
    ensures
        r == duration_us_of(stream_duration, tb, container_duration),
{
    if stream_duration != AV_NOPTS_VALUE {
        ticks_to_micros(stream_duration, tb)
    } else {
        container_duration
    }
}

/// What opening an audio source reports about its selected stream.
#[derive(Debug, Clone, Copy, PartialEq, Eq, Structural)]
pub struct StreamInfo {
    pub sample_rate: i32,
    pub channels: i32,
    pub duration_us: i64,
}

/// Facts of the selected stream, its duration taken as `duration_us_of` says.
pub fn stream_info(
    sample_rate: i32,
    channels: i32,
    stream_duration: i64,
    tb: TimeBase,
    container_duration: i64,
) -> (r: StreamInfo)
    requires
        tb.wf(),
    ensures
        r.sample_rate == sample_rate,
        r.channels == channels,
        r.duration_us == duration_us_of(stream_duration, tb, container_duration),
{
    StreamInfo { sample_rate, channels, duration_us: stream_duration_us(stream_duration, tb, container_duration) }
}

/// Position of the last `c` in `s`, or -1.
pub open spec fn last_index_of(s: Seq<char>, c: char) -> int
    decreases s.len(),
{
    if s.len() == 0 {
        -1
    } else if s.last() == c {
        s.len() - 1
    } else {
        last_index_of(s.drop_last(), c)
    }
}

/// Final component of a slash-separated path.
pub open spec fn file_name_of(p: Seq<char>) -> Seq<char> {
    p.subrange(last_index_of(p, '/') + 1, p.len() as int)
}

/// Extension of a path: what follows the last dot of its final component,
/// when that dot is not the component's first character and the component is
/// not "..".
pub open spec fn extension_of(p: Seq<char>) -> Option<Seq<char>> {
    let name = file_name_of(p);
    let dot = last_index_of(name, '.');
    if dot <= 0 || name == seq!['.', '.'] {
        None
    } else {
        Some(name.subrange(dot + 1, name.len() as int))
    }
}

proof fn lemma_last_index_bounds(s: Seq<char>, c: char)
    ensures
        -1 <= last_index_of(s, c) < s.len(),
        last_index_of(s, c) >= 0 ==> s[last_index_of(s, c)] == c,
    decreases s.len(),
{
    if s.len() > 0 && s.last() != c {
        lemma_last_index_bounds(s.drop_last(), c);
    }
}

fn last_index(s: &str, c: char) -> (r: Option<usize>)
    ensures
        r matches Some(k) ==> k == last_index_of(s@, c),
        r is None ==> last_index_of(s@, c) == -1,
{
    let n = s.unicode_len();
    let mut i: usize = 0;
    let mut last: Option<usize> = None;
    while i < n
        invariant
            n == s@.len(),
            i <= n,
            last matches Some(k) ==> k == last_index_of(s@.subrange(0, i as int), c) && k < i,
            last is None ==> last_index_of(s@.subrange(0, i as int), c) == -1,
        decreases n - i,
    {
        proof {
            assert(s@.subrange(0, i as int + 1).drop_last() =~= s@.subrange(0, i as int));
        }
        if s.get_char(i) == c {
            last = Some(i);
        }
        i = i + 1;
    }
    assert(s@.subrange(0, n as int) =~= s@);
    last
}

/// Extension of `path`, as `extension_of` describes it.
pub fn path_extension(path: &str) -> (r: Option<&str>)
    ensures
        r matches Some(e) ==> extension_of(path@) == Some(e@),
        r is None ==> extension_of(path@) is None,
{
    proof {
        lemma_last_index_bounds(path@, '/');
    }
    let n = path.unicode_len();
    let start: usize = match last_index(path, '/') {
        Some(k) => k + 1,
        None => 0,
    };
    let name = path.substring_char(start, n);
    assert(name@ == file_name_of(path@));
    let m = name.unicode_len();
    proof {
        lemma_last_index_bounds(name@, '.');
    }
    let dot: usize = match last_index(name, '.') {
        Some(k) => k,
        None => {
            return None;
        },
    };
    if dot == 0 {
        return None;
    }
    if m == 2 && name.get_char(0) == '.' && name.get_char(1) == '.' {
        assert(name@ =~= seq!['.', '.']);
        return None;
    }
    assert(name@ != seq!['.', '.']) by {
        if name@ == seq!['.', '.'] {
            assert(name@[0] == '.' && name@[1] == '.');
        }
    }
    Some(name.substring_char(dot + 1, m))
}

/// Bounds of the scaled products that compare a packet time with a window edge.
pub proof fn lemma_pts_scaling_bounds(pts: int, tb: TimeBase)
    requires
        i64::MIN <= pts <= i64::MAX,
        tb.wf(),
    ensures
        -0x7fff_ffff_ffff_ffff_ffff_ffff_ffff_ffff <= pts * tb.num * 1000000 <= 0x7fff_ffff_ffff_ffff_ffff_ffff_ffff_ffff,
        forall|us: int| i64::MIN <= us <= i64::MAX ==>
            -0x7fff_ffff_ffff_ffff_ffff_ffff_ffff_ffff <= #[trigger] (us * tb.den) <= 0x7fff_ffff_ffff_ffff_ffff_ffff_ffff_ffff,
{
    lemma_tick_product_bounds(pts, tb.num as int);
    assert forall|us: int| i64::MIN <= us <= i64::MAX implies
        -0x7fff_ffff_ffff_ffff_ffff_ffff_ffff_ffff <= #[trigger] (us * tb.den) <= 0x7fff_ffff_ffff_ffff_ffff_ffff_ffff_ffff by {
        let d = tb.den as int;
        assert(-0x8000_0000_0000_0000 * 0x7fff_ffff <= us * d <= 0x7fff_ffff_ffff_ffff * 0x7fff_ffff)
            by (nonlinear_arith)
            requires
                i64::MIN <= us <= i64::MAX,
                0 < d <= i32::MAX,
        ;
    }
}

} // verus!
