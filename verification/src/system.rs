//! System-control arithmetic and parsing: which audio backend to use, the
//! brightness percentage mathematics, and the readers for the values the
//! control tools print.  Running the tools is the embedding binary's.
use vstd::prelude::*;

use crate::scan::{
    all_digits, copy_range, dec_value, find_char_from, find_from, parse_decimal, skip_non_ws,
    skip_non_ws_from, skip_ws, skip_ws_from, to_chars,
};
use crate::textfmt::{dec2, digit_str, push_dec2, push_dec_u8};

verus! {

/// The speaker-volume backends, tried in this order.
#[derive(Debug, Clone, Copy, PartialEq, Eq, Structural)]
pub enum AudioBackend {
    PipeWire,
    PulseAudio,
    Alsa,
}

/// Pick the audio backend from which control tools answered a version
/// probe: PipeWire first, then PulseAudio, then the ALSA fallback.
pub fn choose_audio_backend(pipewire_ok: bool, pulseaudio_ok: bool) -> (r: AudioBackend)
    ensures
        pipewire_ok ==> r == AudioBackend::PipeWire,
        !pipewire_ok && pulseaudio_ok ==> r == AudioBackend::PulseAudio,
        !pipewire_ok && !pulseaudio_ok ==> r == AudioBackend::Alsa,
{
    if pipewire_ok {
        AudioBackend::PipeWire
    } else if pulseaudio_ok {
        AudioBackend::PulseAudio
    } else {
        AudioBackend::Alsa
    }
}

/// The second whitespace-separated token of a text: what the brightness
/// tool's `i <value>` replies carry the value in.
pub open spec fn second_ws_token(s: Seq<char>) -> Seq<char> {
    let a = skip_ws(s, 0);
    let b = skip_non_ws(s, a);
    let c = skip_ws(s, b);
    let d = skip_non_ws(s, c);
    s.subrange(c, d)
}

/// The signed decimal value of a token, if it is one: an optional sign
/// followed by at least one digit, nothing else.
pub open spec fn signed_value(tok: Seq<char>) -> Option<int> {
    if tok.len() == 0 {
        None
    } else if tok[0] == '-' {
        if tok.len() > 1 && all_digits(tok.subrange(1, tok.len() as int)) {
            Some(-dec_value(tok.subrange(1, tok.len() as int)))
        } else {
            None
        }
    } else if tok[0] == '+' {
        if tok.len() > 1 && all_digits(tok.subrange(1, tok.len() as int)) {
            Some(dec_value(tok.subrange(1, tok.len() as int)))
        } else {
            None
        }
    } else {
        if all_digits(tok) {
            Some(dec_value(tok))
        } else {
            None
        }
    }
}

/// Read the value out of a brightness tool reply of the shape
/// `i <value>`: the second whitespace-separated token as a signed decimal.
/// None when there is no second token, it is not a number, or it does not
/// fit an `i32`.
pub fn parse_busctl_value(s: &str) -> (r: Option<i32>)
    ensures
        r matches Some(n) ==> signed_value(second_ws_token(s@)) == Some(n as int),
        r is None ==> (signed_value(second_ws_token(s@)) is None || (signed_value(
            second_ws_token(s@),
        ) matches Some(v) && !(i32::MIN <= v <= i32::MAX))),
{
    let v = to_chars(s);
    let a = skip_ws_from(&v, 0);
    let b = skip_non_ws_from(&v, a);
    let c = skip_ws_from(&v, b);
    let d = skip_non_ws_from(&v, c);
    let ghost tok = second_ws_token(s@);
    proof {
        assert(tok =~= v@.subrange(c as int, d as int));
    }
    if c == d {
        return None;
    }
    let first = v[c];
    if first == '-' {
        let mag = parse_decimal(&v, c + 1, d, 0x8000_0000u64);
        proof {
            assert(tok.subrange(1, tok.len() as int) =~= v@.subrange((c + 1) as int, d as int));
            assert(tok[0] == '-');
        }
        match mag {
            Some(m) => Some((-(m as i64)) as i32),
            None => None,
        }
    } else if first == '+' {
        let mag = parse_decimal(&v, c + 1, d, 0x7fff_ffffu64);
        proof {
            assert(tok.subrange(1, tok.len() as int) =~= v@.subrange((c + 1) as int, d as int));
            assert(tok[0] == '+');
        }
        match mag {
            Some(m) => Some(m as i32),
            None => None,
        }
    } else {
        let mag = parse_decimal(&v, c, d, 0x7fff_ffffu64);
        match mag {
            Some(m) => Some(m as i32),
            None => None,
        }
    }
}

/// The displayed brightness percentage: the current value over the maximum,
/// scaled to 100 and rounded to the nearest whole number, clamped to the
/// 0-100 range.
pub open spec fn brightness_percent_spec(current: int, max: int) -> int {
    if current <= 0 {
        0
    } else {
        let p = (200 * current + max) / (2 * max);
        if p > 100 {
            100
        } else {
            p
        }
    }
}

/// Compute the brightness percentage for a reading.
pub fn brightness_percent(current: i32, max: i32) -> (r: u8)
    requires
        max > 0,
    ensures
        r == brightness_percent_spec(current as int, max as int),
        r <= 100,
{
    if current <= 0 {
        0
    } else {
        let p: i64 = (200i64 * (current as i64) + (max as i64)) / (2i64 * (max as i64));
        proof {
            assert(0 <= (200 * (current as int) + (max as int)) / (2 * (max as int))
                <= 200 * 0x7fff_ffff) by (nonlinear_arith)
                requires
                    current >= 1,
                    max >= 1,
                    current <= 0x7fff_ffffi32,
                    max <= 0x7fff_ffffi32,
            ;
        }
        if p > 100 {
            100
        } else {
            p as u8
        }
    }
}

/// The raw brightness value to set for a requested percentage: the level
/// clamped to the safe 5-100 range (never fully dark), scaled by the
/// maximum and rounded to the nearest whole value.
pub open spec fn brightness_target_spec(level: int, max: int) -> int {
    let safe = if level < 5 {
        5int
    } else if level > 100 {
        100int
    } else {
        level
    };
    (2 * safe * max + 100) / 200
}

/// Compute the raw brightness value for a requested percentage.
pub fn brightness_target(level: u8, max: i32) -> (r: i32)
    requires
        max > 0,
    ensures
        r == brightness_target_spec(level as int, max as int),
{
    let safe: i64 = if level < 5 {
        5
    } else if level > 100 {
        100
    } else {
        level as i64
    };
    proof {
        assert(0 <= 2 * safe * (max as int) + 100 <= 0x7fff_ffff_ffffi64) by (nonlinear_arith)
            requires
                5 <= safe <= 100,
                1 <= max <= 0x7fff_ffffi32,
        ;
        assert(0 <= (2 * safe * (max as int) + 100) / 200 <= 0x7fff_ffffi32) by (nonlinear_arith)
            requires
                5 <= safe <= 100,
                1 <= max <= 0x7fff_ffffi32,
        ;
    }
    let t: i64 = (2i64 * safe * (max as i64) + 100i64) / 200i64;
    t as i32
}

/// The volume argument handed to the PipeWire control tool: the level as a
/// decimal fraction with two digits, `0.75` for 75.
pub open spec fn pipewire_volume_text(level: int) -> Seq<char> {
    seq![crate::textfmt::digit_char(level / 100), '.'] + dec2(level % 100)
}

/// Format the PipeWire volume argument for a level.
pub fn pipewire_volume_arg(level: u8) -> (r: String)
    requires
        level <= 100,
    ensures
        r@ == pipewire_volume_text(level as int),
{
    let mut s = String::from_str("");
    proof {
        reveal_strlit("");
        assert(s@ =~= Seq::<char>::empty());
    }
    s.append(digit_str(level / 100));
    s.append(".");
    proof {
        reveal_strlit(".");
        assert("."@ =~= seq!['.']);
    }
    push_dec2(&mut s, level % 100);
    proof {
        assert(s@ =~= pipewire_volume_text(level as int));
    }
    s
}

/// The volume argument handed to the PulseAudio and ALSA control tools:
/// the level as a percentage, `75%` for 75.
pub open spec fn percent_text(level: int) -> Seq<char> {
    crate::textfmt::dec_u8(level) + seq!['%']
}

/// Format the percentage volume argument for a level.
pub fn percent_arg(level: u8) -> (r: String)
    ensures
        r@ == percent_text(level as int),
{
    let mut s = String::from_str("");
    proof {
        reveal_strlit("");
        assert(s@ =~= Seq::<char>::empty());
    }
    push_dec_u8(&mut s, level);
    s.append("%");
    proof {
        reveal_strlit("%");
        assert("%"@ =~= seq!['%']);
        assert(s@ =~= percent_text(level as int));
    }
    s
}

/// The value of a percentage token — digits followed by `%` — when it fits
/// a byte, capped at 100 as the volume scale tops out there.
pub open spec fn percent_token_value(tok: Seq<char>) -> Option<int> {
    let digits = tok.drop_last();
    if tok.len() >= 2 && tok.last() == '%' && all_digits(digits) && dec_value(digits) <= 255 {
        if dec_value(digits) > 100 {
            Some(100int)
        } else {
            Some(dec_value(digits))
        }
    } else {
        None
    }
}

/// The value of the first percentage token at or after `i`, scanning the
/// whitespace-separated tokens of the PulseAudio tool's sink-volume reply.
pub open spec fn percent_scan(s: Seq<char>, i: int) -> Option<int>
    decreases s.len() - i,
        when 0 <= i <= s.len()
{
    let a = skip_ws(s, i);
    if a >= s.len() {
        None
    } else {
        let b = skip_non_ws(s, a);
        let tok = s.subrange(a, b);
        if percent_token_value(tok) is Some {
            percent_token_value(tok)
        } else {
            proof {
                crate::scan::lemma_skip_ws_bounds(s, i);
                crate::scan::lemma_skip_non_ws_bounds(s, a);
                assert(skip_non_ws(s, a) == skip_non_ws(s, a + 1));
            }
            percent_scan(s, b)
        }
    }
}

/// Read the speaker volume out of the PulseAudio tool's reply: the first
/// whitespace-separated percentage token, capped at 100.  None when no
/// token is one.
pub fn parse_pactl_volume(s: &str) -> (r: Option<u8>)
    ensures
        r matches Some(n) ==> percent_scan(s@, 0) == Some(n as int) && n <= 100,
        r is None ==> percent_scan(s@, 0) is None,
{
    let v = to_chars(s);
    let n = v.len();
    let mut i: usize = 0;
    loop
        invariant
            v@ == s@,
            n == v@.len(),
            0 <= i <= n,
            percent_scan(s@, 0) == percent_scan(s@, i as int),
        decreases n - i,
    {
        let a = skip_ws_from(&v, i);
        if a >= n {
            return None;
        }
        let b = skip_non_ws_from(&v, a);
        let ghost tok = s@.subrange(a as int, b as int);
        proof {
            crate::scan::lemma_skip_ws_bounds(v@, i as int);
            crate::scan::lemma_skip_non_ws_bounds(v@, (a + 1) as int);
            assert(!crate::scan::is_ws_char(v@[a as int]));
            assert(skip_non_ws(v@, a as int) == skip_non_ws(v@, (a + 1) as int));
            assert(b >= a + 1);
        }
        if b - a >= 2 && v[b - 1] == '%' {
            proof {
                assert(tok.last() == v@[b - 1]);
                assert(tok.drop_last() =~= v@.subrange(a as int, (b - 1) as int));
            }
            match parse_decimal(&v, a, b - 1, 255) {
                Some(val) => {
                    return if val > 100 {
                        Some(100u8)
                    } else {
                        Some(val as u8)
                    };
                },
                None => {},
            }
        } else {
            proof {
                if tok.len() >= 2 {
                    assert(tok.last() == v@[b - 1]);
                }
            }
        }
        i = b;
    }
}

/// The volume a line of the ALSA mixer's reply reports: the digits between
/// the first `[` and the first `%` after it, when they fit a byte, capped
/// at 100.
pub open spec fn bracket_percent_value(line: Seq<char>) -> Option<int> {
    let a = find_from(line, 0, '[');
    let b = find_from(line, a + 1, '%');
    if a < line.len() && b < line.len() && a + 1 < b && all_digits(line.subrange(a + 1, b))
        && dec_value(line.subrange(a + 1, b)) <= 255 {
        if dec_value(line.subrange(a + 1, b)) > 100 {
            Some(100int)
        } else {
            Some(dec_value(line.subrange(a + 1, b)))
        }
    } else {
        None
    }
}

/// The volume reported by the first line of the ALSA mixer's reply that
/// carries a `[..%]` field, scanning from `i`.
pub open spec fn amixer_scan(s: Seq<char>, i: int) -> Option<int>
    decreases s.len() - i,
        when 0 <= i <= s.len()
{
    let nl = find_from(s, i, '\n');
    let line = crate::wifi::line_at(s, i);
    if bracket_percent_value(line) is Some {
        bracket_percent_value(line)
    } else if nl >= s.len() {
        None
    } else {
        proof {
            crate::scan::lemma_find_from_bounds(s, i, '\n');
        }
        amixer_scan(s, nl + 1)
    }
}

/// Read the speaker volume out of the ALSA mixer's reply: the first line
/// with a bracketed percentage, capped at 100.  None when no line has one.
pub fn parse_amixer_volume(s: &str) -> (r: Option<u8>)
    ensures
        r matches Some(n) ==> amixer_scan(s@, 0) == Some(n as int) && n <= 100,
        r is None ==> amixer_scan(s@, 0) is None,
{
    let v = to_chars(s);
    let n = v.len();
    let mut i: usize = 0;
    loop
        invariant
            v@ == s@,
            n == v@.len(),
            0 <= i <= n,
            amixer_scan(s@, 0) == amixer_scan(s@, i as int),
        decreases n - i,
    {
        proof {
            crate::scan::lemma_find_from_bounds(v@, i as int, '\n');
        }
        let nl = find_char_from(&v, i, '\n');
        let mut end = nl;
        if end > i && v[end - 1] == '\r' {
            end = end - 1;
        }
        let line = copy_range(&v, i, end);
        proof {
            let raw = v@.subrange(i as int, nl as int);
            if raw.len() > 0 && raw.last() == '\r' {
                assert(raw.drop_last() =~= v@.subrange(i as int, (nl - 1) as int));
            }
            assert(line@ == crate::wifi::line_at(s@, i as int));
            crate::scan::lemma_find_from_bounds(line@, 0, '[');
        }
        let a = find_char_from(&line, 0, '[');
        if a < line.len() {
            proof {
                crate::scan::lemma_find_from_bounds(line@, a + 1, '%');
            }
            let b = find_char_from(&line, a + 1, '%');
            if b < line.len() && a + 1 < b {
                match parse_decimal(&line, a + 1, b, 255) {
                    Some(val) => {
                        return if val > 100 {
                            Some(100u8)
                        } else {
                            Some(val as u8)
                        };
                    },
                    None => {},
                }
            }
        }
        if nl >= n {
            return None;
        }
        i = nl + 1;
    }
}

/// Clamp a requested volume level to the 0-100 scale.
pub fn clamp_volume(level: u8) -> (r: u8)
    ensures
        r == if level > 100 {
            100int
        } else {
            level as int
        },
{
    if level > 100 {
        100
    } else {
        level
    }
}

} // verus!
