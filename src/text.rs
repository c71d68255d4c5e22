//! Decimal rendering of integers, used by every textual report.
use vstd::prelude::*;

verus! {

/// The single-character text of a decimal digit.
pub open spec fn digit_seq(d: int) -> Seq<char> {
    if d == 0 {
        seq!['0']
    } else if d == 1 {
        seq!['1']
    } else if d == 2 {
        seq!['2']
    } else if d == 3 {
        seq!['3']
    } else if d == 4 {
        seq!['4']
    } else if d == 5 {
        seq!['5']
    } else if d == 6 {
        seq!['6']
    } else if d == 7 {
        seq!['7']
    } else if d == 8 {
        seq!['8']
    } else {
        seq!['9']
    }
}

/// Decimal notation of a natural number, without leading zeros.
pub open spec fn dec(n: nat) -> Seq<char>
    decreases n,
{
    if n < 10 {
        digit_seq(n as int)
    } else {
        dec(n / 10) + digit_seq((n % 10) as int)
    }
}

/// Decimal notation of an integer, with a leading minus sign when negative.
pub open spec fn idec(i: int) -> Seq<char> {
    if i < 0 {
        seq!['-'] + dec((-i) as nat)
    } else {
        dec(i as nat)
    }
}

/// `s` preceded by as many copies of `fill` as needed to reach `width`.
pub open spec fn pad_left(s: Seq<char>, fill: char, width: nat) -> Seq<char> {
    if s.len() >= width {
        s
    } else {
        Seq::new((width - s.len()) as nat, |i: int| fill) + s
    }
}

/// Fixed-point notation of `v / 10^places`: integer part, a dot, and the
/// fractional part zero-padded to `places` digits.
pub open spec fn fixed(v: nat, places: nat) -> Seq<char> {
    dec(v / pow10(places)) + seq!['.'] + pad_left(dec(v % pow10(places)), '0', places)
}

pub open spec fn pow10(k: nat) -> nat
    decreases k,
{
    if k == 0 {
        1
    } else {
        10 * pow10((k - 1) as nat)
    }
}

fn digit_str(d: u128) -> (r: &'static str)
    requires
        d < 10,
    ensures
        r@ == digit_seq(d as int),
{
    if d == 0 {
        proof { reveal_strlit("0"); }
        "0"
    } else if d == 1 {
        proof { reveal_strlit("1"); }
        "1"
    } else if d == 2 {
        proof { reveal_strlit("2"); }
        "2"
    } else if d == 3 {
        proof { reveal_strlit("3"); }
        "3"
    } else if d == 4 {
        proof { reveal_strlit("4"); }
        "4"
    } else if d == 5 {
        proof { reveal_strlit("5"); }
        "5"
    } else if d == 6 {
        proof { reveal_strlit("6"); }
        "6"
    } else if d == 7 {
        proof { reveal_strlit("7"); }
        "7"
    } else if d == 8 {
        proof { reveal_strlit("8"); }
        "8"
    } else {
        proof { reveal_strlit("9"); }
        "9"
    }
}

/// Decimal text of `n`.
pub fn decimal(n: u128) -> (r: String)
    ensures
        r@ == dec(n as nat),
    decreases n,
{
    if n < 10 {
        String::from_str(digit_str(n))
    } else {
        let mut s = decimal(n / 10);
        s.append(digit_str(n % 10));
        s
    }
}

/// Decimal text of a signed integer.
pub fn signed_decimal(i: i128) -> (r: String)
    ensures
        r@ == idec(i as int),
{
    if i < 0 {
        let magnitude: u128 = if i == i128::MIN {
            170141183460469231731687303715884105728u128
        } else {
            (-i) as u128
        };
        proof { reveal_strlit("-"); }
        let digits = decimal(magnitude);
        String::from_str("-").concat(digits.as_str())
    } else {
        decimal(i as u128)
    }
}

/// `s` padded on the left with `fill` (a one-character text) to `width` characters.
pub fn padded(s: String, fill: &str, width: usize) -> (r: String)
    requires
        fill@.len() == 1,
    ensures
        r@ == pad_left(s@, fill@[0], width as nat),
{
    let len = s.as_str().unicode_len();
    if len >= width {
        return s;
    }
    let mut prefix = String::new();
    let mut k: usize = 0;
    while k < width - len
        invariant
            fill@.len() == 1,
            len < width,
            k <= width - len,
            prefix@ == Seq::new(k as nat, |i: int| fill@[0]),
        decreases width - len - k,
    {
        prefix.append(fill);
        k = k + 1;
        assert(prefix@ =~= Seq::new(k as nat, |i: int| fill@[0]));
    }
    let r = prefix.concat(s.as_str());
    assert(r@ =~= pad_left(s@, fill@[0], width as nat));
    r
}

/// Fixed-point text of `v` hundredths (`places == 2`) or tenths (`places == 1`).
pub fn fixed_point(v: u128, places: usize) -> (r: String)
    requires
        places == 1 || places == 2,
    ensures
        r@ == fixed(v as nat, places as nat),
{
    let scale: u128 = if places == 1 { 10 } else { 100 };
    proof {
        reveal_with_fuel(pow10, 3);
        reveal_strlit(".");
        reveal_strlit("0");
    }
    assert(scale == pow10(places as nat));
    let whole = decimal(v / scale);
    let frac = padded(decimal(v % scale), "0", places);
    let r = whole.concat(".").concat(frac.as_str());
    r
}

} // verus!

verus! {

/// Code point of `c` with ASCII upper-case letters mapped to lower case.
pub open spec fn folded_code(c: char) -> u32 {
    if 65 <= (c as u32) && (c as u32) <= 90 {
        (c as u32 + 32) as u32
    } else {
        c as u32
    }
}

/// `s` spells the lower-case keyword `kw`, ignoring ASCII case.
pub open spec fn matches_keyword(s: Seq<char>, kw: Seq<char>) -> bool {
    s.len() == kw.len() && forall|i: int| 0 <= i < s.len() ==> folded_code(#[trigger] s[i]) == kw[i] as u32
}

/// `s` and `t` differ at most in the case of ASCII letters.
pub open spec fn same_ignoring_ascii_case(s: Seq<char>, t: Seq<char>) -> bool {
    s.len() == t.len() && forall|i: int| 0 <= i < s.len() ==> folded_code(#[trigger] s[i]) == folded_code(t[i])
}

/// Whether `s` spells the lower-case keyword `kw`, ignoring ASCII case.
pub fn keyword_matches(s: &str, kw: &str) -> (r: bool)
    ensures
        r == matches_keyword(s@, kw@),
{
    let n = s.unicode_len();
    if n != kw.unicode_len() {
        return false;
    }
    let mut i: usize = 0;
    while i < n
        invariant
            n == s@.len(),
            n == kw@.len(),
            i <= n,
            forall|j: int| 0 <= j < i ==> folded_code(#[trigger] s@[j]) == kw@[j] as u32,
        decreases n - i,
    {
        let c = s.get_char(i);
        let code: u32 = c as u32;
        let folded: u32 = if 65 <= code && code <= 90 { code + 32 } else { code };
        if folded != kw.get_char(i) as u32 {
            return false;
        }
        i = i + 1;
    }
    true
}

} // verus!

verus! {

/// `s` without its trailing '0' characters.
pub open spec fn trim_trailing_zeros(s: Seq<char>) -> Seq<char>
    decreases s.len(),
{
    if s.len() > 0 && s.last() == '0' {
        trim_trailing_zeros(s.drop_last())
    } else {
        s
    }
}

/// Seconds text of a microsecond count: sign, whole seconds, and the
/// fractional part to the microsecond without trailing zeros (no dot when the
/// count is a whole number of seconds).
pub open spec fn seconds_seq(us: int) -> Seq<char> {
    let m = if us < 0 { -us } else { us };
    let sign = if us < 0 { seq!['-'] } else { Seq::<char>::empty() };
    let frac = m % 1000000;
    if frac == 0 {
        sign + dec((m / 1000000) as nat)
    } else {
        sign + dec((m / 1000000) as nat) + seq!['.'] + trim_trailing_zeros(pad_left(dec(frac as nat), '0', 6))
    }
}

fn without_trailing_zeros(s: &str) -> (r: &str)
    ensures
        r@ == trim_trailing_zeros(s@),
{
    let mut k = s.unicode_len();
    assert(s@.subrange(0, k as int) =~= s@);
    while k > 0 && s.get_char(k - 1) == '0'
        invariant
            k <= s@.len(),
            trim_trailing_zeros(s@) == trim_trailing_zeros(s@.subrange(0, k as int)),
        decreases k,
    {
        assert(s@.subrange(0, k as int).drop_last() =~= s@.subrange(0, k - 1));
        k = k - 1;
    }
    s.substring_char(0, k)
}

/// Seconds text of a microsecond count, as `seconds_seq` describes it.
pub fn seconds_text(us: i64) -> (r: String)
    ensures
        r@ == seconds_seq(us as int),
{
    let m: u128 = if us < 0 {
        (-(us as i128)) as u128
    } else {
        us as u128
    };
    let whole = decimal(m / 1000000);
    let frac = m % 1000000;
    proof {
        reveal_strlit("-");
        reveal_strlit(".");
        reveal_strlit("0");
    }
    let head = if us < 0 {
        String::from_str("-").concat(whole.as_str())
    } else {
        whole
    };
    if frac == 0 {
        assert(head@ =~= seconds_seq(us as int));
        head
    } else {
        let digits = padded(decimal(frac), "0", 6);
        let trimmed = without_trailing_zeros(digits.as_str());
        let r = head.concat(".").concat(trimmed);
        assert(r@ =~= seconds_seq(us as int));
        r
    }
}

} // verus!
