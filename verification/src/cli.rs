//! Configuration values arriving from the command line.
//!
//! The flag syntax itself is handled outside the verified core; what
//! arrives here is the raw text of the image-size option and the
//! already-chosen window-type and color-scheme selections. A malformed
//! image size is never an error: the documented default pair takes its
//! place.

use vstd::prelude::*;

verus! {

use crate::scalc::WindowType;
use crate::srend::ColorScheme;
use vstd::string::StrSliceExecFns;

/// Image width used when the size option cannot be honored.
pub const DEFAULT_IMAGE_WIDTH: u32 = 2048;

/// Image height used when the size option cannot be honored.
pub const DEFAULT_IMAGE_HEIGHT: u32 = 512;

/// A decimal digit.
pub open spec fn spec_is_digit(c: char) -> bool {
    '0' <= c && c <= '9'
}

/// Numeric value of the digit `c`.
pub open spec fn spec_digit_val(c: char) -> int {
    c as int - '0' as int
}

/// All characters of `s` are decimal digits.
pub open spec fn spec_all_digits(s: Seq<char>) -> bool {
    forall|i: int| 0 <= i < s.len() ==> spec_is_digit(s[i])
}

/// The number the digit string `s` denotes, most significant digit
/// first.
pub open spec fn spec_digits_val(s: Seq<char>) -> int
    decreases s.len(),
{
    if s.len() == 0 {
        0
    } else {
        spec_digits_val(s.drop_last()) * 10 + spec_digit_val(s.last())
    }
}

/// What `str::parse::<u32>` accepts: an optional leading `+`, then one
/// or more decimal digits whose value fits into a `u32`. Anything else
/// (signs, spaces, empty text, overflow) parses to `None`.
pub open spec fn spec_parse_u32(s: Seq<char>) -> Option<u32> {
    let t = if s.len() > 0 && s[0] == '+' {
        s.drop_first()
    } else {
        s
    };
    if t.len() > 0 && spec_all_digits(t) && spec_digits_val(t) <= u32::MAX {
        Some(spec_digits_val(t) as u32)
    } else {
        None
    }
}

/// How often `c` occurs in `s`.
pub open spec fn spec_count_char(s: Seq<char>, c: char) -> nat
    decreases s.len(),
{
    if s.len() == 0 {
        0
    } else {
        spec_count_char(s.drop_last(), c) + if s.last() == c {
            1nat
        } else {
            0nat
        }
    }
}

/// Index of the first occurrence of `c` in `s`, or `s.len()` when `c`
/// does not occur.
pub open spec fn spec_find_char(s: Seq<char>, c: char) -> int
    decreases s.len(),
{
    if s.len() == 0 {
        0
    } else if s[0] == c {
        0
    } else {
        1 + spec_find_char(s.drop_first(), c)
    }
}

/// `spec_find_char` lands on the first occurrence: everything before
/// it differs from `c`, and it points at `c` whenever `c` occurs at
/// all.
pub proof fn lemma_find_char(s: Seq<char>, c: char)
    ensures
        0 <= spec_find_char(s, c) <= s.len(),
        spec_find_char(s, c) < s.len() ==> s[spec_find_char(s, c)] == c,
        forall|k: int| 0 <= k < spec_find_char(s, c) ==> s[k] != c,
    decreases s.len(),
{
    if s.len() == 0 {
    } else if s[0] == c {
    } else {
        lemma_find_char(s.drop_first(), c);
        let p = spec_find_char(s, c);
        assert forall|k: int| 0 <= k < p implies s[k] != c by {
            if k > 0 {
                assert(s.drop_first()[k - 1] != c);
            }
        }
    }
}

/// The accepted size text: exactly one `x` between two components,
/// each component parsed as `spec_parse_u32` says with its default
/// taking over on failure, and the default pair whenever either
/// component ends up zero or the shape is not `WxH` at all.
pub open spec fn spec_parse_image_size(s: Seq<char>) -> (u32, u32) {
    if spec_count_char(s, 'x') == 1 {
        let p = spec_find_char(s, 'x');
        let w = match spec_parse_u32(s.subrange(0, p)) {
            Some(v) => v,
            None => DEFAULT_IMAGE_WIDTH,
        };
        let h = match spec_parse_u32(s.subrange(p + 1, s.len() as int)) {
            Some(v) => v,
            None => DEFAULT_IMAGE_HEIGHT,
        };
        if w != 0 && h != 0 {
            (w, h)
        } else {
            (DEFAULT_IMAGE_WIDTH, DEFAULT_IMAGE_HEIGHT)
        }
    } else {
        (DEFAULT_IMAGE_WIDTH, DEFAULT_IMAGE_HEIGHT)
    }
}

/// The value of a digit string grows with its length: a prefix never
/// denotes more than the whole string.
proof fn lemma_digits_val_bounds(s: Seq<char>, k: int)
    requires
        spec_all_digits(s),
        0 <= k <= s.len(),
    ensures
        spec_digits_val(s) >= 0,
        spec_digits_val(s.subrange(0, k)) <= spec_digits_val(s),
    decreases s.len(),
{
    if s.len() == 0 {
        assert(s.subrange(0, k) =~= s);
    } else {
        let d = s.drop_last();
        assert(spec_all_digits(d));
        lemma_digits_val_bounds(d, if k <= d.len() { k } else { d.len() as int });
        assert(spec_digit_val(s.last()) >= 0);
        assert(spec_digits_val(s) >= spec_digits_val(d));
        if k == s.len() {
            assert(s.subrange(0, k) =~= s);
        } else {
            assert(s.subrange(0, k) =~= d.subrange(0, k));
        }
    }
}

/// Parses the character range `[from, to)` of `s` as `str::parse::<u32>`
/// would parse that substring.
fn parse_u32_range(s: &str, from: usize, to: usize) -> (r: Option<u32>)
    requires
        from <= to <= s@.len(),
    ensures
        r == spec_parse_u32(s@.subrange(from as int, to as int)),
{
    let ghost u = s@.subrange(from as int, to as int);
    let mut i: usize = from;
    if i < to && s.get_char(i) == '+' {
        i = i + 1;
    }
    let ghost t = s@.subrange(i as int, to as int);
    proof {
        if u.len() > 0 && u[0] == '+' {
            assert(t =~= u.drop_first());
        } else {
            assert(t =~= u);
        }
    }
    if i == to {
        return None;
    }
    let mut acc: u32 = 0;
    let mut j: usize = i;
    while j < to
        invariant
            from <= i <= j <= to <= s@.len(),
            i < to,
            u == s@.subrange(from as int, to as int),
            t == s@.subrange(i as int, to as int),
            t == (if u.len() > 0 && u[0] == '+' {
                u.drop_first()
            } else {
                u
            }),
            spec_all_digits(t.subrange(0, j - i)),
            acc == spec_digits_val(t.subrange(0, j - i)),
        decreases to - j,
    {
        let c = s.get_char(j);
        proof {
            assert(t[j - i] == s@[j as int]);
        }
        if !(c >= '0' && c <= '9') {
            proof {
                assert(!spec_is_digit(t[j - i]));
            }
            return None;
        }
        let d: u32 = c as u32 - '0' as u32;
        let ghost pre = t.subrange(0, j - i);
        let ghost pre1 = t.subrange(0, j - i + 1);
        proof {
            assert(pre1.drop_last() =~= pre);
            assert(pre1.last() == t[j - i]);
            assert(spec_digit_val(t[j - i]) == d);
            assert(spec_all_digits(pre1));
        }
        if acc > (u32::MAX - d) / 10 {
            // The digits read so far already exceed the `u32` range,
            // and more digits can only grow the value.
            proof {
                vstd::arithmetic::div_mod::lemma_fundamental_div_mod(
                    u32::MAX - d,
                    10,
                );
                assert(acc * 10 + d > u32::MAX);
                assert(spec_digits_val(pre1) > u32::MAX);
                if spec_all_digits(t) {
                    lemma_digits_val_bounds(t, j - i + 1);
                }
            }
            return None;
        }
        proof {
            vstd::arithmetic::div_mod::lemma_fundamental_div_mod(u32::MAX - d, 10);
            assert(acc * 10 <= u32::MAX - d);
        }
        acc = acc * 10 + d;
        j = j + 1;
        proof {
            assert(t.subrange(0, j - i) =~= pre1);
        }
    }
    proof {
        assert(t.subrange(0, j - i) =~= t);
        lemma_digits_val_bounds(t, t.len() as int);
    }
    Some(acc)
}

/// Parses a `WxH` image-size option. The two components follow
/// `str::parse::<u32>`; a missing or malformed component, a zero
/// component, or any shape without exactly one `x` falls back to the
/// documented 2048 by 512 default, as `spec_parse_image_size` states.
pub fn parse_image_size(s: &str) -> (r: (u32, u32))
    ensures
        r == spec_parse_image_size(s@),
{
    let n: usize = s.unicode_len();
    let mut xs: usize = 0;
    let mut pos: usize = 0;
    let mut found: bool = false;
    let mut i: usize = 0;
    while i < n
        invariant
            i <= n,
            n == s@.len(),
            xs <= i,
            xs == spec_count_char(s@.subrange(0, i as int), 'x'),
            found == (xs > 0),
            found ==> pos < i && s@[pos as int] == 'x' && forall|k: int|
                0 <= k < pos ==> s@[k] != 'x',
            !found ==> forall|k: int| 0 <= k < i ==> s@[k] != 'x',
        decreases n - i,
    {
        let c = s.get_char(i);
        let ghost pre = s@.subrange(0, i as int);
        let ghost pre1 = s@.subrange(0, i as int + 1);
        proof {
            assert(pre1.drop_last() =~= pre);
            assert(pre1.last() == s@[i as int]);
        }
        if c == 'x' {
            if !found {
                pos = i;
                found = true;
            }
            xs = xs + 1;
        }
        i = i + 1;
    }
    proof {
        assert(s@.subrange(0, n as int) =~= s@);
    }
    if xs != 1 {
        return (DEFAULT_IMAGE_WIDTH, DEFAULT_IMAGE_HEIGHT);
    }
    proof {
        lemma_find_char(s@, 'x');
        let p = spec_find_char(s@, 'x');
        assert(p < s@.len());
        assert(pos == p) by {
            if pos < p {
                assert(s@[pos as int] != 'x');
            }
            if p < pos {
                assert(s@[p] != 'x');
            }
        }
    }
    let w = match parse_u32_range(s, 0, pos) {
        Some(v) => v,
        None => DEFAULT_IMAGE_WIDTH,
    };
    let h = match parse_u32_range(s, pos + 1, n) {
        Some(v) => v,
        None => DEFAULT_IMAGE_HEIGHT,
    };
    if w != 0 && h != 0 {
        (w, h)
    } else {
        (DEFAULT_IMAGE_WIDTH, DEFAULT_IMAGE_HEIGHT)
    }
}

/// Window-type selection as the command line names it.
#[derive(Copy, Clone, PartialEq, Eq, Structural, Debug)]
pub enum CliWindowType {
    Hann,
    Hamming,
}

/// Color-scheme selection as the command line names it.
#[derive(Copy, Clone, PartialEq, Eq, Structural, Debug)]
pub enum CliColorScheme {
    Oceanic,
    Grayscale,
    Inferno,
    Viridis,
    Synthwave,
    Sunset,
}

/// The window type a command-line selection stands for.
pub open spec fn spec_window_type_of(w: CliWindowType) -> WindowType {
    match w {
        CliWindowType::Hann => WindowType::Hann,
        CliWindowType::Hamming => WindowType::Hamming,
    }
}

/// The color scheme a command-line selection stands for.
pub open spec fn spec_color_scheme_of(c: CliColorScheme) -> ColorScheme {
    match c {
        CliColorScheme::Oceanic => ColorScheme::Oceanic,
        CliColorScheme::Grayscale => ColorScheme::Grayscale,
        CliColorScheme::Inferno => ColorScheme::Inferno,
        CliColorScheme::Viridis => ColorScheme::Viridis,
        CliColorScheme::Synthwave => ColorScheme::Synthwave,
        CliColorScheme::Sunset => ColorScheme::Sunset,
    }
}

impl From<CliWindowType> for WindowType {
    /// Maps each command-line window selection to its engine
    /// counterpart of the same name.
    fn from(w: CliWindowType) -> (r: WindowType) {
        match w {
            CliWindowType::Hann => WindowType::Hann,
            CliWindowType::Hamming => WindowType::Hamming,
        }
    }
}

impl vstd::std_specs::convert::FromSpecImpl<CliWindowType> for WindowType {
    open spec fn obeys_from_spec() -> bool {
        true
    }

    open spec fn from_spec(w: CliWindowType) -> WindowType {
        spec_window_type_of(w)
    }
}

impl From<CliColorScheme> for ColorScheme {
    /// Maps each command-line color-scheme selection to its rendering
    /// counterpart of the same name.
    fn from(c: CliColorScheme) -> (r: ColorScheme) {
        match c {
            CliColorScheme::Oceanic => ColorScheme::Oceanic,
            CliColorScheme::Grayscale => ColorScheme::Grayscale,
            CliColorScheme::Inferno => ColorScheme::Inferno,
            CliColorScheme::Viridis => ColorScheme::Viridis,
            CliColorScheme::Synthwave => ColorScheme::Synthwave,
            CliColorScheme::Sunset => ColorScheme::Sunset,
        }
    }
}

impl vstd::std_specs::convert::FromSpecImpl<CliColorScheme> for ColorScheme {
    open spec fn obeys_from_spec() -> bool {
        true
    }

    open spec fn from_spec(c: CliColorScheme) -> ColorScheme {
        spec_color_scheme_of(c)
    }
}

} // verus!
