use vstd::prelude::*;
use crate::text::str_chars;
use crate::types::BatteryState;

verus! {

/// The charge state that the battery reports.
#[derive(Clone, Copy, Debug, PartialEq, Eq, Structural)]
pub enum ChargeState {
    Unknown,
    Charging,
    Discharging,
    Empty,
    Full,
    Paused,
}

/// A battery reading: charging or full counts as charging; the time to full
/// is kept while charging, the time to empty while discharging, none otherwise.
pub open spec fn reading_spec(
    percentage: u32,
    state: ChargeState,
    time_to_full: Option<u32>,
    time_to_empty: Option<u32>,
    capacity_wh: Option<u32>,
    health_percent: Option<u32>,
) -> BatteryState {
    BatteryState {
        capacity_wh,
        health_percent,
        percentage,
        is_charging: state == ChargeState::Charging || state == ChargeState::Full,
        time_remaining: match state {
            ChargeState::Charging => time_to_full,
            ChargeState::Discharging => time_to_empty,
            _ => None,
        },
    }
}

/// Builds a battery reading from what the battery reports.  `percentage` is the
/// state of charge times 100, truncated; the times are in seconds, as `f32` bits;
/// the capacity (watt-hours) and the health (percent) are rounded.
pub fn battery_reading(
    percentage: u32,
    state: ChargeState,
    time_to_full: Option<u32>,
    time_to_empty: Option<u32>,
    capacity_wh: Option<u32>,
    health_percent: Option<u32>,
) -> (reading: BatteryState)
    ensures
        reading == reading_spec(
            percentage,
            state,
            time_to_full,
            time_to_empty,
            capacity_wh,
            health_percent,
        ),
{
    let is_charging = match state {
        ChargeState::Charging | ChargeState::Full => true,
        _ => false,
    };
    let time_remaining = match state {
        ChargeState::Charging => time_to_full,
        ChargeState::Discharging => time_to_empty,
        _ => None,
    };
    BatteryState { percentage, is_charging, time_remaining, capacity_wh, health_percent }
}

/// Whether `choice` is the session to drive the backlight through: the first
/// whose identifier is `wanted`, where `wanted` is given and listed; else the
/// first session; `None` only where no session is listed.
pub open spec fn session_choice_ok(
    ids: Seq<Seq<char>>,
    wanted: Option<Seq<char>>,
    choice: Option<usize>,
) -> bool {
    match choice {
        Some(i) => {
            &&& i < ids.len()
            &&& match wanted {
                Some(w) => {
                    ||| (ids[i as int] == w && forall|j: int| 0 <= j < i ==> ids[j] != w)
                    ||| (i == 0 && forall|j: int| 0 <= j < ids.len() ==> ids[j] != w)
                },
                None => i == 0,
            }
        },
        None => ids.len() == 0,
    }
}

/// The view of each identifier.
pub open spec fn id_views(ids: Seq<String>) -> Seq<Seq<char>> {
    ids.map_values(|s: String| s@)
}

/// The view of the wanted identifier.
pub open spec fn wanted_view(wanted: Option<&String>) -> Option<Seq<char>> {
    match wanted {
        Some(w) => Some(w@),
        None => None,
    }
}

/// Picks a session out of the listed session identifiers, as `session_choice_ok` says.
pub fn select_session(ids: &Vec<String>, wanted: Option<&String>) -> (choice: Option<usize>)
    ensures
        session_choice_ok(
            id_views(ids@),
            wanted_view(wanted),
            choice,
        ),
{
    match wanted {
        Some(w) => {
            let n = ids.len();
            for i in 0..n
                invariant
                    n == ids@.len(),
                    wanted == Some(w),
                    id_views(ids@).len() == n,
                    forall|j: int| 0 <= j < i ==> #[trigger] id_views(ids@)[j] != w@,
            {
                if ids[i] == *w {
                    assert(id_views(ids@)[i as int] == w@);
                    return Some(i);
                }
                assert(id_views(ids@)[i as int] != w@);
            }
        },
        None => {},
    }
    assert(id_views(ids@).len() == ids@.len());
    if ids.len() > 0 {
        Some(0)
    } else {
        None
    }
}

/// The directory that holds the settings directory: `$XDG_CONFIG_HOME` where it
/// is set, else `$HOME/.config` (with an empty `$HOME` where that is unset).
pub fn config_root(xdg_config_home: Option<String>, home: Option<String>) -> (root: String)
    ensures
        root@ == match xdg_config_home {
            Some(x) => x@,
            None => match home {
                Some(h) => h@ + "/.config"@,
                None => "/.config"@,
            },
        },
{
    match xdg_config_home {
        Some(x) => x,
        None => {
            let mut root = match home {
                Some(h) => h,
                None => String::new(),
            };
            root.append("/.config");
            root
        },
    }
}

/// Whether `c` is white space as `char::is_whitespace` has it (Unicode `White_Space`).
pub open spec fn is_white_space(c: char) -> bool {
    let u = c as u32;
    ||| 0x09 <= u <= 0x0d
    ||| u == 0x20
    ||| u == 0x85
    ||| u == 0xa0
    ||| u == 0x1680
    ||| 0x2000 <= u <= 0x200a
    ||| u == 0x2028
    ||| u == 0x2029
    ||| u == 0x202f
    ||| u == 0x205f
    ||| u == 0x3000
}

fn white_space(c: char) -> (w: bool)
    ensures
        w == is_white_space(c),
{
    let u = c as u32;
    (0x09 <= u && u <= 0x0d) || u == 0x20 || u == 0x85 || u == 0xa0 || u == 0x1680 || (0x2000
        <= u && u <= 0x200a) || u == 0x2028 || u == 0x2029 || u == 0x202f || u == 0x205f || u
        == 0x3000
}

/// `s` without its leading white space.
pub open spec fn trim_start(s: Seq<char>) -> Seq<char>
    decreases s.len(),
{
    if s.len() > 0 && is_white_space(s[0]) {
        trim_start(s.drop_first())
    } else {
        s
    }
}

/// `s` without its trailing white space.
pub open spec fn trim_end(s: Seq<char>) -> Seq<char>
    decreases s.len(),
{
    if s.len() > 0 && is_white_space(s.last()) {
        trim_end(s.drop_last())
    } else {
        s
    }
}

/// `s` without white space at either end, as `str::trim` gives it.
pub open spec fn trimmed(s: Seq<char>) -> Seq<char> {
    trim_end(trim_start(s))
}

/// Whether `c` is one of `0` to `9`.
pub open spec fn is_digit(c: char) -> bool {
    '0' as u32 <= c as u32 <= '9' as u32
}

/// Whether every character of `d` is a decimal digit.
pub open spec fn all_digits(d: Seq<char>) -> bool {
    forall|i: int| 0 <= i < d.len() ==> is_digit(#[trigger] d[i])
}

/// The number that a string of decimal digits writes.
pub open spec fn digits_value(d: Seq<char>) -> nat
    decreases d.len(),
{
    if d.len() == 0 {
        0
    } else {
        digits_value(d.drop_last()) * 10 + (d.last() as u32 - '0' as u32) as nat
    }
}

/// What `str::parse::<u32>` gives for `s`: an optional `+` (not alone), then
/// one or more decimal digits whose value fits in a `u32`.
pub open spec fn parse_u32(s: Seq<char>) -> Option<u32> {
    if s.len() == 0 {
        None
    } else {
        let d = if s.len() > 1 && s[0] == '+' {
            s.drop_first()
        } else {
            s
        };
        if all_digits(d) && digits_value(d) <= u32::MAX {
            Some(digits_value(d) as u32)
        } else {
            None
        }
    }
}

proof fn lemma_digits_value_grows(d: Seq<char>, k: int)
    requires
        0 <= k <= d.len(),
        forall|i: int| 0 <= i < d.len() ==> is_digit(#[trigger] d[i]),
    ensures
        digits_value(d) >= digits_value(d.take(k)),
    decreases d.len(),
{
    if k < d.len() {
        assert(d.drop_last().take(k) == d.take(k));
        lemma_digits_value_grows(d.drop_last(), k);
    } else {
        assert(d.take(k) == d);
    }
}

proof fn lemma_trim_start_step(s: Seq<char>, i: int)
    requires
        0 <= i < s.len(),
        is_white_space(s[i]),
    ensures
        trim_start(s.skip(i)) == trim_start(s.skip(i + 1)),
{
    assert(s.skip(i).drop_first() == s.skip(i + 1));
}

proof fn lemma_trim_end_step(s: Seq<char>, a: int, j: int)
    requires
        0 <= a < j <= s.len(),
        is_white_space(s[j - 1]),
    ensures
        trim_end(s.subrange(a, j)) == trim_end(s.subrange(a, j - 1)),
{
    assert(s.subrange(a, j).drop_last() == s.subrange(a, j - 1));
}

/// Reads a number as the kernel writes it in a sysfs file: `str::trim`, then
/// `str::parse::<u32>`.
pub fn parse_sysfs_number(text: &str) -> (n: Option<u32>)
    ensures
        n == parse_u32(trimmed(text@)),
{
    let chars = str_chars(text);
    let len = chars.len();
    let ghost s = chars@;
    let mut a: usize = 0;
    assert(s.skip(0) == s);
    while a < len && white_space(chars[a])
        invariant
            a <= len,
            len == s.len(),
            chars@ == s,
            trim_start(s) == trim_start(s.skip(a as int)),
        decreases len - a,
    {
        proof {
            lemma_trim_start_step(s, a as int);
        }
        a = a + 1;
    }
    assert(trim_start(s.skip(a as int)) == s.skip(a as int));
    assert(s.skip(a as int) == s.subrange(a as int, len as int));
    let mut b: usize = len;
    while b > a && white_space(chars[b - 1])
        invariant
            a <= b <= len,
            len == s.len(),
            chars@ == s,
            trimmed(s) == trim_end(s.subrange(a as int, b as int)),
        decreases b,
    {
        proof {
            lemma_trim_end_step(s, a as int, b as int);
        }
        b = b - 1;
    }
    let ghost t = s.subrange(a as int, b as int);
    assert(trim_end(t) == t);
    assert(trimmed(s) == t);
    if a == b {
        return None;
    }
    let mut k: usize = a;
    if b - a > 1 && chars[a] == '+' {
        k = a + 1;
    }
    let ghost d = s.subrange(k as int, b as int);
    assert(d == (if t.len() > 1 && t[0] == '+' {
        t.drop_first()
    } else {
        t
    }));
    let start = k;
    let mut acc: u64 = 0;
    while k < b
        invariant
            start <= k <= b <= len,
            len == s.len(),
            chars@ == s,
            d == s.subrange(start as int, b as int),
            trimmed(text@) == t,
            t.len() > 0,
            d == (if t.len() > 1 && t[0] == '+' {
                t.drop_first()
            } else {
                t
            }),
            forall|i: int| 0 <= i < k - start ==> is_digit(#[trigger] d[i]),
            acc == digits_value(d.take(k - start)),
            acc <= u32::MAX,
        decreases b - k,
    {
        let c = chars[k];
        if !((c as u32) >= ('0' as u32) && (c as u32) <= ('9' as u32)) {
            assert(d[k - start] == c);
            assert(!is_digit(d[k - start]));
            assert(t.len() != 0);
            assert(!(forall|i: int| 0 <= i < d.len() ==> is_digit(#[trigger] d[i])));
            assert(parse_u32(t) is None);
            return None;
        }
        assert(d.take(k - start + 1).drop_last() == d.take(k - start));
        assert(d.take(k - start + 1).last() == c);
        acc = acc * 10 + ((c as u32) - ('0' as u32)) as u64;
        k = k + 1;
        if acc > 0xffff_ffff {
            proof {
                assert(acc == digits_value(d.take(k - start)));
                if forall|i: int| 0 <= i < d.len() ==> is_digit(#[trigger] d[i]) {
                    lemma_digits_value_grows(d, k - start);
                }
                assert(parse_u32(t) is None);
            }
            return None;
        }
    }
    assert(d.take(d.len() as int) == d);
    Some(acc as u32)
}

/// The current and the maximum brightness read from the backlight's files,
/// where both read as numbers and the maximum is not 0.
pub fn brightness_levels(current: &str, max: &str) -> (levels: Option<(u32, u32)>)
    ensures
        levels == match (parse_u32(trimmed(current@)), parse_u32(trimmed(max@))) {
            (Some(c), Some(m)) => if m == 0 {
                None
            } else {
                Some((c, m))
            },
            _ => None,
        },
{
    let c = parse_sysfs_number(current);
    match c {
        None => None,
        Some(c) => {
            let m = parse_sysfs_number(max);
            match m {
                None => None,
                Some(m) => if m == 0 {
                    None
                } else {
                    Some((c, m))
                },
            }
        },
    }
}

/// The maximum brightness for setting the backlight: the file's number, or 100
/// where the file could not be read or does not hold a number.
pub fn max_brightness_or_default(max: Option<&str>) -> (m: u32)
    ensures
        m == match max {
            Some(text) => match parse_u32(trimmed(text@)) {
                Some(v) => v,
                None => 100,
            },
            None => 100,
        },
{
    match max {
        Some(text) => match parse_sysfs_number(text) {
            Some(v) => v,
            None => 100,
        },
        None => 100,
    }
}

} // verus!
