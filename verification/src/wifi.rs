//! Parsing the Wi-Fi status out of the network tool's terse device table:
//! one `device:state:connection` line per device, the first wireless device
//! in the connected state wins.
use vstd::prelude::*;

use crate::scan::{chars_eq_str, copy_range, find_char_from, find_from, lemma_find_from_bounds,
    to_chars};

verus! {

/// Response for a Wi-Fi status check.
#[derive(Clone)]
pub struct WifiStatus {
    pub connected: bool,
    pub ssid: Option<String>,
}

/// A line reports a connected wireless device when it has at least three
/// colon-separated fields, the first starts with `wl`, and the second is
/// exactly `connected`.
pub open spec fn wifi_line_match(line: Seq<char>) -> bool {
    let c1 = find_from(line, 0, ':');
    let c2 = find_from(line, c1 + 1, ':');
    &&& c1 < line.len()
    &&& c2 < line.len()
    &&& c1 >= 2
    &&& line[0] == 'w'
    &&& line[1] == 'l'
    &&& line.subrange(c1 + 1, c2) == "connected"@
}

/// The connection name of a matching line: its third colon-separated field.
pub open spec fn wifi_line_ssid(line: Seq<char>) -> Seq<char> {
    let c1 = find_from(line, 0, ':');
    let c2 = find_from(line, c1 + 1, ':');
    let c3 = find_from(line, c2 + 1, ':');
    line.subrange(c2 + 1, c3)
}

/// One line of the device table, starting at `i`: up to the next newline,
/// with a trailing carriage return stripped.
pub open spec fn line_at(s: Seq<char>, i: int) -> Seq<char> {
    let nl = find_from(s, i, '\n');
    let raw = s.subrange(i, nl);
    if raw.len() > 0 && raw.last() == '\r' {
        raw.drop_last()
    } else {
        raw
    }
}

/// The connection name of the first matching line at or after `i`, if any
/// line matches.
pub open spec fn wifi_scan(s: Seq<char>, i: int) -> Option<Seq<char>>
    decreases s.len() - i,
        when 0 <= i <= s.len()
{
    let nl = find_from(s, i, '\n');
    let line = line_at(s, i);
    if wifi_line_match(line) {
        Some(wifi_line_ssid(line))
    } else if nl >= s.len() {
        None
    } else {
        proof {
            lemma_find_from_bounds(s, i, '\n');
        }
        wifi_scan(s, nl + 1)
    }
}

/// Whether a line reports a connected wireless device, and the bounds of
/// its fields.
fn line_match(line: &Vec<char>) -> (r: bool)
    ensures
        r == wifi_line_match(line@),
{
    proof {
        lemma_find_from_bounds(line@, 0, ':');
    }
    let n = line.len();
    let c1 = find_char_from(line, 0, ':');
    if c1 >= n {
        return false;
    }
    proof {
        lemma_find_from_bounds(line@, c1 + 1, ':');
    }
    let c2 = find_char_from(line, c1 + 1, ':');
    if c2 >= n {
        return false;
    }
    if c1 < 2 {
        return false;
    }
    if !(line[0] == 'w' && line[1] == 'l') {
        return false;
    }
    let state = copy_range(line, c1 + 1, c2);
    chars_eq_str(&state, "connected")
}

/// Parse the Wi-Fi status out of the device table: connected exactly when
/// some line reports a connected wireless device, with that first line's
/// connection name as the network name (or none when the field is empty).
pub fn parse_wifi_status(s: &str) -> (w: WifiStatus)
    ensures
        w.connected == (wifi_scan(s@, 0) is Some),
        wifi_scan(s@, 0) matches Some(conn) ==> (if conn.len() == 0 {
            w.ssid is None
        } else {
            w.ssid matches Some(x) && x@ == conn
        }),
        wifi_scan(s@, 0) is None ==> w.ssid is None,
{
    let v = to_chars(s);
    let n = v.len();
    let mut i: usize = 0;
    loop
        invariant
            v@ == s@,
            n == v@.len(),
            0 <= i <= n,
            wifi_scan(s@, 0) == wifi_scan(s@, i as int),
        decreases n - i,
    {
        proof {
            lemma_find_from_bounds(v@, i as int, '\n');
        }
        let nl = find_char_from(&v, i, '\n');
        let mut end = nl;
        if end > i && v[end - 1] == '\r' {
            end = end - 1;
        }
        let line = copy_range(&v, i, end);
        proof {
            let raw = v@.subrange(i as int, nl as int);
            if raw.len() > 0 && raw.last() == '\r' {
                assert(raw.drop_last() =~= v@.subrange(i as int, (nl - 1) as int));
            }
            assert(line@ == line_at(s@, i as int));
        }
        if line_match(&line) {
            proof {
                lemma_find_from_bounds(line@, 0, ':');
            }
            let c1 = find_char_from(&line, 0, ':');
            proof {
                lemma_find_from_bounds(line@, c1 + 1, ':');
            }
            let c2 = find_char_from(&line, c1 + 1, ':');
            proof {
                lemma_find_from_bounds(line@, c2 + 1, ':');
            }
            let c3 = find_char_from(&line, c2 + 1, ':');
            if c3 == c2 + 1 {
                return WifiStatus { connected: true, ssid: None };
            }
            proof {
                assert(line@.subrange(c2 + 1, c3 as int) =~= s@.subrange(
                    (i + c2 + 1) as int,
                    (i + c3) as int,
                ));
            }
            let ssid = s.substring_char(i + c2 + 1, i + c3);
            return WifiStatus { connected: true, ssid: Some(String::from_str(ssid)) };
        }
        if nl >= n {
            return WifiStatus { connected: false, ssid: None };
        }
        i = nl + 1;
    }
}

} // verus!
