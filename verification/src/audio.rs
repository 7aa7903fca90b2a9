//! Metadata of a decoded signal and its human-readable summary.
//!
//! Decoding itself (containers, codecs, I/O) happens outside the
//! verified core; what arrives here is the plain metadata record. This
//! module renders that record as text: sample counts with a metric
//! unit suffix, durations in a `ms` / `s` / `m` / `h` shape, and the
//! one-line pretty string shown to the user.

use vstd::prelude::*;

verus! {

use vstd::string::StringExecFns;

/// Whether the signal carries one real channel or an I/Q pair.
#[derive(Copy, Clone, PartialEq, Eq, Structural, Debug)]
pub enum SignalType {
    Real,
    IQ,
}

/// Metadata of one decoded signal file.
#[derive(Debug, Clone)]
pub struct AudioMetadata {
    pub codec: String,
    pub sample_rate: u32,
    pub total_samples: u64,
    pub signal_type: SignalType,
}

/// The decimal digit `d` as a character.
pub open spec fn spec_digit_char(d: int) -> char {
    if d == 0 {
        '0'
    } else if d == 1 {
        '1'
    } else if d == 2 {
        '2'
    } else if d == 3 {
        '3'
    } else if d == 4 {
        '4'
    } else if d == 5 {
        '5'
    } else if d == 6 {
        '6'
    } else if d == 7 {
        '7'
    } else if d == 8 {
        '8'
    } else {
        '9'
    }
}

/// The usual decimal rendering of `n`, most significant digit first,
/// no leading zeros (except for `n == 0` itself).
pub open spec fn spec_decimal(n: nat) -> Seq<char>
    decreases n,
{
    if n < 10 {
        seq![spec_digit_char(n as int)]
    } else {
        spec_decimal(n / 10) + seq![spec_digit_char((n % 10) as int)]
    }
}

/// Appends the single digit `d` to `s`.
fn push_digit(s: &mut String, d: u8)
    requires
        d < 10,
    ensures
        final(s)@ == old(s)@ + seq![spec_digit_char(d as int)],
{
    match d {
        0 => {
            proof {
                reveal_strlit("0");
            }
            s.append("0");
        },
        1 => {
            proof {
                reveal_strlit("1");
            }
            s.append("1");
        },
        2 => {
            proof {
                reveal_strlit("2");
            }
            s.append("2");
        },
        3 => {
            proof {
                reveal_strlit("3");
            }
            s.append("3");
        },
        4 => {
            proof {
                reveal_strlit("4");
            }
            s.append("4");
        },
        5 => {
            proof {
                reveal_strlit("5");
            }
            s.append("5");
        },
        6 => {
            proof {
                reveal_strlit("6");
            }
            s.append("6");
        },
        7 => {
            proof {
                reveal_strlit("7");
            }
            s.append("7");
        },
        8 => {
            proof {
                reveal_strlit("8");
            }
            s.append("8");
        },
        _ => {
            proof {
                reveal_strlit("9");
            }
            s.append("9");
        },
    }
    proof {
        assert(s@ =~= old(s)@ + seq![spec_digit_char(d as int)]);
    }
}

/// Appends the decimal rendering of `n` to `s`.
fn push_decimal(s: &mut String, n: u64)
    ensures
        final(s)@ == old(s)@ + spec_decimal(n as nat),
    decreases n,
{
    if n >= 10 {
        push_decimal(s, n / 10);
        push_digit(s, (n % 10) as u8);
        proof {
            assert(s@ =~= old(s)@ + spec_decimal(n as nat));
        }
    } else {
        push_digit(s, n as u8);
    }
}

/// `v` as two decimal digits, zero-padded on the left.
pub open spec fn spec_pad2(v: nat) -> Seq<char>
    recommends
        v < 100,
{
    if v < 10 {
        seq!['0'] + spec_decimal(v)
    } else {
        spec_decimal(v)
    }
}

/// Appends `v` as two zero-padded decimal digits.
fn push_pad2(s: &mut String, v: u64)
    requires
        v < 100,
    ensures
        final(s)@ == old(s)@ + spec_pad2(v as nat),
{
    if v < 10 {
        proof {
            reveal_strlit("0");
        }
        s.append("0");
        push_digit(s, v as u8);
        proof {
            assert(s@ =~= old(s)@ + spec_pad2(v as nat));
        }
    } else {
        push_decimal(s, v);
    }
}

/// `n` with its trailing decimal zeros removed (`450` becomes `45`,
/// `400` becomes `4`); zero and numbers not ending in zero stay as
/// they are.
pub open spec fn spec_trim_zeros(n: nat) -> nat
    decreases n,
{
    if n > 0 && n % 10 == 0 {
        spec_trim_zeros(n / 10)
    } else {
        n
    }
}

/// The fractional-millisecond suffix of a duration: empty when the
/// milliseconds are zero, otherwise a dot and the milliseconds with
/// trailing zeros removed.
pub open spec fn spec_frac_text(msr: nat) -> Seq<char> {
    if msr == 0 {
        Seq::<char>::empty()
    } else {
        seq!['.'] + spec_decimal(spec_trim_zeros(msr))
    }
}

/// Appends the fractional-millisecond suffix of `msr`.
fn push_frac(s: &mut String, msr: u64)
    ensures
        final(s)@ == old(s)@ + spec_frac_text(msr as nat),
{
    if msr != 0 {
        let mut m: u64 = msr;
        while m % 10 == 0
            invariant
                m > 0,
                spec_trim_zeros(m as nat) == spec_trim_zeros(msr as nat),
            decreases m,
        {
            m = m / 10;
        }
        proof {
            reveal_strlit(".");
        }
        s.append(".");
        push_decimal(s, m);
        proof {
            assert(s@ =~= old(s)@ + spec_frac_text(msr as nat));
        }
    }
}

/// A duration of `ms` milliseconds as text: bare milliseconds under
/// one second; otherwise seconds, `M:SS` minutes or `H:MM:SS` hours,
/// each with the fractional-millisecond suffix and a trailing unit
/// letter.
pub open spec fn spec_duration_text(ms: nat) -> Seq<char> {
    if ms < 1000 {
        spec_decimal(ms) + "ms"@
    } else {
        let sec = ms / 1000;
        let msr = ms % 1000;
        if sec < 60 {
            spec_decimal(sec) + spec_frac_text(msr) + "s"@
        } else if sec < 3600 {
            spec_decimal(sec / 60) + ":"@ + spec_pad2(sec % 60) + spec_frac_text(msr) + "m"@
        } else {
            spec_decimal(sec / 3600) + ":"@ + spec_pad2((sec % 3600) / 60) + ":"@ + spec_pad2(
                sec % 60,
            ) + spec_frac_text(msr) + "h"@
        }
    }
}

/// Renders a duration of `ms` milliseconds, as `spec_duration_text`
/// describes.
pub fn format_duration_ms(ms: u64) -> (r: String)
    ensures
        r@ == spec_duration_text(ms as nat),
{
    let mut s = String::new();
    if ms < 1000 {
        push_decimal(&mut s, ms);
        s.append("ms");
        proof {
            assert(s@ =~= spec_duration_text(ms as nat));
        }
    } else {
        let sec: u64 = ms / 1000;
        let msr: u64 = ms % 1000;
        if sec < 60 {
            push_decimal(&mut s, sec);
            push_frac(&mut s, msr);
            s.append("s");
        } else if sec < 3600 {
            push_decimal(&mut s, sec / 60);
            s.append(":");
            push_pad2(&mut s, sec % 60);
            push_frac(&mut s, msr);
            s.append("m");
        } else {
            push_decimal(&mut s, sec / 3600);
            s.append(":");
            push_pad2(&mut s, (sec % 3600) / 60);
            s.append(":");
            push_pad2(&mut s, sec % 60);
            push_frac(&mut s, msr);
            s.append("h");
        }
        proof {
            assert(s@ =~= spec_duration_text(ms as nat));
        }
    }
    s
}

/// Division rounded to the nearest integer, halves rounding up.
pub open spec fn spec_round_div(n: nat, d: nat) -> nat
    recommends
        d >= 2,
{
    n / d + if n % d >= d / 2 {
        1nat
    } else {
        0nat
    }
}

/// `n / d` rounded to the nearest integer, halves rounding up.
fn round_div(n: u64, d: u64) -> (r: u64)
    requires
        2 <= d,
    ensures
        r == spec_round_div(n as nat, d as nat),
        r <= n / d + 1,
{
    let q: u64 = n / d;
    proof {
        vstd::arithmetic::div_mod::lemma_div_is_ordered_by_denominator(n as int, 2, d as int);
    }
    if n % d >= d / 2 {
        q + 1
    } else {
        q
    }
}

/// A count in tenths of a unit, shown with one decimal unless that
/// decimal is zero (`15` becomes `1.5`, `10` becomes `1`).
pub open spec fn spec_tenths_text(t: nat) -> Seq<char> {
    if t % 10 == 0 {
        spec_decimal(t / 10)
    } else {
        spec_decimal(t / 10) + seq!['.'] + spec_decimal(t % 10)
    }
}

/// Appends `t` tenths as `spec_tenths_text` describes.
fn push_tenths(s: &mut String, t: u64)
    ensures
        final(s)@ == old(s)@ + spec_tenths_text(t as nat),
{
    push_decimal(s, t / 10);
    if t % 10 != 0 {
        proof {
            reveal_strlit(".");
        }
        s.append(".");
        push_digit(s, (t % 10) as u8);
    }
    proof {
        assert(s@ =~= old(s)@ + spec_tenths_text(t as nat));
    }
}

/// A sub-thousand remainder as up to three digits after a dot,
/// zero-padded on the left and with trailing zeros removed
/// (`999` becomes `999`, `450` becomes `45`, `45` becomes `045`).
pub open spec fn spec_frac3_text(f: nat) -> Seq<char>
    recommends
        1 <= f < 1000,
{
    let h = spec_digit_char((f / 100) as int);
    let t = spec_digit_char(((f / 10) % 10) as int);
    let u = spec_digit_char((f % 10) as int);
    if f % 10 != 0 {
        seq![h, t, u]
    } else if (f / 10) % 10 != 0 {
        seq![h, t]
    } else {
        seq![h]
    }
}

/// Appends the three-digit fraction `f` as `spec_frac3_text`
/// describes.
fn push_frac3(s: &mut String, f: u64)
    requires
        1 <= f < 1000,
    ensures
        final(s)@ == old(s)@ + spec_frac3_text(f as nat),
{
    push_digit(s, (f / 100) as u8);
    if f % 10 != 0 {
        push_digit(s, ((f / 10) % 10) as u8);
        push_digit(s, (f % 10) as u8);
    } else if (f / 10) % 10 != 0 {
        push_digit(s, ((f / 10) % 10) as u8);
    }
    proof {
        assert(s@ =~= old(s)@ + spec_frac3_text(f as nat));
    }
}

/// A sample count with a metric suffix.
///
/// Counts under a thousand are shown exactly. Counts under 100k round
/// to one decimal of a thousand (`12345` shows as `12.3kspl`); counts
/// up to a million keep the exact fraction of a thousand with trailing
/// zeros trimmed (`999999` shows as `999.999kspl`). From a million on,
/// the count rounds to one decimal of the unit, moving to the next
/// unit whenever that rounding reaches 1000 of the current one.
pub open spec fn spec_samples_text(n: nat) -> Seq<char> {
    if n < 1000 {
        spec_decimal(n) + "spl"@
    } else if n < 100000 {
        spec_tenths_text(spec_round_div(n, 100)) + "kspl"@
    } else if n < 1000000 {
        if n % 1000 == 0 {
            spec_decimal(n / 1000) + "kspl"@
        } else {
            spec_decimal(n / 1000) + seq!['.'] + spec_frac3_text(n % 1000) + "kspl"@
        }
    } else if spec_round_div(n, 100000) < 10000 {
        spec_tenths_text(spec_round_div(n, 100000)) + "Mspl"@
    } else if spec_round_div(n, 100000000) < 10000 {
        spec_tenths_text(spec_round_div(n, 100000000)) + "Gspl"@
    } else {
        spec_tenths_text(spec_round_div(n, 100000000000)) + "Tspl"@
    }
}

/// Renders a sample count, as `spec_samples_text` describes.
pub fn format_samples(n: u64) -> (r: String)
    ensures
        r@ == spec_samples_text(n as nat),
{
    let mut s = String::new();
    if n < 1000 {
        push_decimal(&mut s, n);
        s.append("spl");
    } else if n < 100000 {
        let t: u64 = round_div(n, 100);
        push_tenths(&mut s, t);
        s.append("kspl");
    } else if n < 1000000 {
        push_decimal(&mut s, n / 1000);
        if n % 1000 != 0 {
            proof {
                reveal_strlit(".");
            }
            s.append(".");
            push_frac3(&mut s, n % 1000);
        }
        s.append("kspl");
    } else {
        let t_mega: u64 = round_div(n, 100000);
        if t_mega < 10000 {
            push_tenths(&mut s, t_mega);
            s.append("Mspl");
        } else {
            let t_giga: u64 = round_div(n, 100000000);
            if t_giga < 10000 {
                push_tenths(&mut s, t_giga);
                s.append("Gspl");
            } else {
                let t_tera: u64 = round_div(n, 100000000000);
                push_tenths(&mut s, t_tera);
                s.append("Tspl");
            }
        }
    }
    proof {
        assert(s@ =~= spec_samples_text(n as nat));
    }
    s
}

/// The signal type as shown in the pretty string.
pub open spec fn spec_signal_text(t: SignalType) -> Seq<char> {
    match t {
        SignalType::Real => "real"@,
        SignalType::IQ => "i/q"@,
    }
}

/// The duration of `total` samples at `sr` samples per second, in
/// milliseconds rounded to the nearest integer and saturated at the
/// `u64` range.
pub open spec fn spec_duration_ms_of(total: nat, sr: nat) -> nat
    recommends
        sr >= 1,
{
    let raw = (total * 1000 + sr / 2) / sr;
    if raw > u64::MAX {
        u64::MAX as nat
    } else {
        raw
    }
}

/// The sample count of the pretty string: thousands with exactly one
/// rounded decimal, the zero decimal included (`16.0kspl`).
pub open spec fn spec_k_fixed_text(n: nat) -> Seq<char> {
    let t = spec_round_div(n, 100);
    spec_decimal(t / 10) + seq!['.'] + spec_decimal(t % 10)
}

/// The one-line summary of a metadata record: codec, sample rate,
/// signal type, duration, and the sample count in thousands.
pub open spec fn spec_pretty_text(m: AudioMetadata) -> Seq<char> {
    let ms = spec_duration_ms_of(m.total_samples as nat, m.sample_rate as nat);
    let duration = if m.total_samples < m.sample_rate {
        spec_decimal(ms) + "ms"@
    } else {
        spec_duration_text(ms)
    };
    "'"@ + m.codec@ + "', "@ + spec_decimal(m.sample_rate as nat) + " Hz, "@ + spec_signal_text(
        m.signal_type,
    ) + ", "@ + duration + " ("@ + spec_k_fixed_text(m.total_samples as nat) + "kspl)"@
}

impl AudioMetadata {
    /// One-line summary of the record, as `spec_pretty_text`
    /// describes: `'PCM', 44100 Hz, real, 1s (44.1kspl)`.
    pub fn to_pretty_string(&self) -> (r: String)
        requires
            self.sample_rate >= 1,
        ensures
            r@ == spec_pretty_text(*self),
    {
        let mut s = String::new();
        s.append("'");
        s.append(self.codec.as_str());
        s.append("', ");
        push_decimal(&mut s, self.sample_rate as u64);
        s.append(" Hz, ");
        match self.signal_type {
            SignalType::Real => s.append("real"),
            SignalType::IQ => s.append("i/q"),
        }
        s.append(", ");
        let ghost head = "'"@ + self.codec@ + "', "@ + spec_decimal(self.sample_rate as nat)
            + " Hz, "@ + spec_signal_text(self.signal_type) + ", "@;
        proof {
            assert(s@ =~= head);
        }

        let ms: u64 = duration_ms(self.total_samples, self.sample_rate);
        if self.total_samples < self.sample_rate as u64 {
            push_decimal(&mut s, ms);
            s.append("ms");
        } else {
            let d = format_duration_ms(ms);
            s.append(d.as_str());
        }
        let ghost dur = if self.total_samples < self.sample_rate {
            spec_decimal(spec_duration_ms_of(self.total_samples as nat, self.sample_rate as nat))
                + "ms"@
        } else {
            spec_duration_text(spec_duration_ms_of(self.total_samples as nat, self.sample_rate as nat))
        };
        proof {
            assert(s@ =~= head + dur);
        }

        s.append(" (");
        let t: u64 = round_div(self.total_samples, 100);
        push_decimal(&mut s, t / 10);
        proof {
            reveal_strlit(".");
        }
        s.append(".");
        push_digit(&mut s, (t % 10) as u8);
        s.append("kspl)");
        proof {
            assert(s@ =~= head + dur + " ("@ + spec_k_fixed_text(self.total_samples as nat)
                + "kspl)"@);
            assert(s@ =~= spec_pretty_text(*self));
        }
        s
    }
}

/// Milliseconds of `total` samples at `sample_rate` samples per
/// second, rounded to the nearest integer and saturated at the `u64`
/// range.
fn duration_ms(total: u64, sample_rate: u32) -> (r: u64)
    requires
        sample_rate >= 1,
    ensures
        r == spec_duration_ms_of(total as nat, sample_rate as nat),
{
    let sr: u128 = sample_rate as u128;
    let raw: u128 = (total as u128 * 1000 + sr / 2) / sr;
    if raw > u64::MAX as u128 {
        u64::MAX
    } else {
        raw as u64
    }
}

} // verus!
