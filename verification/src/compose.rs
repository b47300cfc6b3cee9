//! Composition of the notification texts: fixed-format messages around a
//! wall-clock timestamp, with a verified decimal rendering of durations.

use vstd::prelude::*;

verus! {

/// The decimal digit character for `d` (meaningful for 0 ≤ d ≤ 9).
pub open spec fn digit_char(d: int) -> char {
    if d == 0 {
        '0'
    } else if d == 1 {
        '1'
    } else if d == 2 {
        '2'
    } else if d == 3 {
        '3'
    } else if d == 4 {
        '4'
    } else if d == 5 {
        '5'
    } else if d == 6 {
        '6'
    } else if d == 7 {
        '7'
    } else if d == 8 {
        '8'
    } else {
        '9'
    }
}

/// The decimal representation of `n`, most significant digit first, with no
/// leading zero except for zero itself.
pub open spec fn dec_str(n: nat) -> Seq<char>
    decreases n,
    via dec_str_decreases
{
    if n < 10 {
        seq![digit_char(n as int)]
    } else {
        dec_str(n / 10) + seq![digit_char((n % 10) as int)]
    }
}

#[via_fn]
proof fn dec_str_decreases(n: nat) {
    if n >= 10 {
        assert(n / 10 < n) by (nonlinear_arith)
            requires
                n >= 10,
        ;
    }
}

/// One decimal digit as a string.
fn digit_str(d: u64) -> (r: &'static str)
    requires
        d < 10,
    ensures
        r@ == seq![digit_char(d as int)],
{
    proof {
        reveal_strlit("0");
        reveal_strlit("1");
        reveal_strlit("2");
        reveal_strlit("3");
        reveal_strlit("4");
        reveal_strlit("5");
        reveal_strlit("6");
        reveal_strlit("7");
        reveal_strlit("8");
        reveal_strlit("9");
    }
    let r: &'static str = if d == 0 {
        "0"
    } else if d == 1 {
        "1"
    } else if d == 2 {
        "2"
    } else if d == 3 {
        "3"
    } else if d == 4 {
        "4"
    } else if d == 5 {
        "5"
    } else if d == 6 {
        "6"
    } else if d == 7 {
        "7"
    } else if d == 8 {
        "8"
    } else {
        "9"
    };
    proof {
        assert(r@ =~= seq![digit_char(d as int)]);
    }
    r
}

/// Renders `n` in decimal.
pub fn u64_to_dec(n: u64) -> (r: String)
    ensures
        r@ == dec_str(n as nat),
    decreases n,
{
    if n < 10 {
        let mut s = String::new();
        s.append(digit_str(n));
        proof {
            assert(s@ =~= dec_str(n as nat));
        }
        s
    } else {
        proof {
            assert(n / 10 < n) by (nonlinear_arith)
                requires
                    n >= 10,
            ;
        }
        let mut s = u64_to_dec(n / 10);
        s.append(digit_str(n % 10));
        proof {
            assert((n / 10) as nat == (n as nat) / 10);
            assert((n % 10) as nat == (n as nat) % 10);
        }
        s
    }
}

/// A character the clock's text can hold: a decimal digit, one of the
/// separators `-`, space, `:`, or the sign chrono prefixes to a year
/// outside four digits.
pub open spec fn timestamp_char(c: char) -> bool {
    ('0' <= c && c <= '9') || c == '-' || c == ' ' || c == ':' || c == '+'
}

/// The shape of a wall-clock reading in the `%Y-%m-%d %H:%M:%S` format: at
/// least 19 characters (a four-digit year or longer, two digits for each
/// other field), all digits, separators and year sign.
pub open spec fn timestamp_shaped(s: Seq<char>) -> bool {
    s.len() >= 19 && forall|i: int| 0 <= i < s.len() ==> timestamp_char(#[trigger] s[i])
}

/// Whether `s` has the shape of a clock reading, decided character by
/// character.
pub fn is_timestamp_text(s: &str) -> (b: bool)
    ensures
        b == timestamp_shaped(s@),
{
    let len = s.unicode_len();
    if len < 19 {
        return false;
    }
    let mut i: usize = 0;
    while i < len
        invariant
            i <= len,
            len == s@.len(),
            forall|k: int| 0 <= k < i ==> timestamp_char(#[trigger] s@[k]),
        decreases len - i,
    {
        let c = s.get_char(i);
        let ok = ('0' <= c && c <= '9') || c == '-' || c == ' ' || c == ':' || c == '+';
        if !ok {
            return false;
        }
        i = i + 1;
    }
    true
}

/// The boot message around a timestamp. Line breaks are carried as `\n`
/// escape sequences, so the text stays legal inside a JSON string and the
/// default body template survives the send-time validation.
pub open spec fn boot_message(now: Seq<char>) -> Seq<char> {
    "## 🖥️ 电脑已开机\\n\\n**时间**: "@ + now + "\\n\\n*WinTrack 自动记录*"@
}

/// The shutdown message around a timestamp.
pub open spec fn shutdown_message(now: Seq<char>) -> Seq<char> {
    "## 🔌 电脑已关机\\n\\n**时间**: "@ + now + "\\n\\n*WinTrack 自动记录*"@
}

/// The periodic message around a timestamp and the elapsed duration,
/// decomposed into hours and leftover minutes.
pub open spec fn scheduled_message(now: Seq<char>, hours: u64, minutes: u64) -> Seq<char> {
    "## ⏰ 定时提醒\\n\\n**时间**: "@ + now + "\\n\\n**距离开机已过**: "@ + dec_str(hours as nat) + " 小时 "@
        + dec_str(minutes as nat) + " 分钟\\n\\n*WinTrack 定时提醒*"@
}

/// Composes the boot message for the given timestamp text.
pub fn compose_boot(now: &str) -> (r: String)
    ensures
        r@ == boot_message(now@),
{
    let mut s = String::from_str("## 🖥️ 电脑已开机\\n\\n**时间**: ");
    s.append(now);
    s.append("\\n\\n*WinTrack 自动记录*");
    s
}

/// Composes the shutdown message for the given timestamp text.
pub fn compose_shutdown(now: &str) -> (r: String)
    ensures
        r@ == shutdown_message(now@),
{
    let mut s = String::from_str("## 🔌 电脑已关机\\n\\n**时间**: ");
    s.append(now);
    s.append("\\n\\n*WinTrack 自动记录*");
    s
}

/// Composes the periodic message for the given timestamp text and elapsed
/// duration.
pub fn compose_elapsed(now: &str, hours: u64, minutes: u64) -> (r: String)
    ensures
        r@ == scheduled_message(now@, hours, minutes),
{
    let mut s = String::from_str("## ⏰ 定时提醒\\n\\n**时间**: ");
    s.append(now);
    s.append("\\n\\n**距离开机已过**: ");
    let h = u64_to_dec(hours);
    s.append(h.as_str());
    s.append(" 小时 ");
    let m = u64_to_dec(minutes);
    s.append(m.as_str());
    s.append(" 分钟\\n\\n*WinTrack 定时提醒*");
    s
}

/// Relies on std::time::SystemTime::now, read as whole seconds past the
/// Unix epoch through duration_since, whose documentation says it errs when
/// the clock reads earlier: that case comes back as 0 rather than a panic.
/// The result depends on the clock, so nothing is promised of it.
#[verifier::external_body]
fn unix_seconds_now() -> u64 {
    match std::time::SystemTime::now().duration_since(std::time::UNIX_EPOCH) {
        Ok(d) => d.as_secs(),
        Err(_) => 0,
    }
}

/// Relies on chrono::DateTime::from_timestamp (total: `None` past chrono's
/// supported years), with_timezone into chrono::Local, and the
/// `%Y-%m-%d %H:%M:%S` format: the time `secs` after the Unix epoch as
/// local wall-clock text. The text depends on the time zone as well as on
/// `secs`, so nothing is promised of it.
#[verifier::external_body]
fn format_local_timestamp(secs: u64) -> Option<String> {
    let secs = i64::try_from(secs).ok()?;
    let t = chrono::DateTime::<chrono::Utc>::from_timestamp(secs, 0)?;
    Some(t.with_timezone(&chrono::Local).format("%Y-%m-%d %H:%M:%S").to_string())
}

/// The epoch's reading, used when the clock yields no usable text.
fn fallback_timestamp() -> (r: String)
    ensures
        timestamp_shaped(r@),
{
    let r = String::from_str("1970-01-01 00:00:00");
    proof {
        reveal_strlit("1970-01-01 00:00:00");
        assert(timestamp_shaped(r@));
    }
    r
}

/// The current wall-clock time as text. The clock is read without a panic
/// path (a clock before the epoch reads as the epoch), and the shape of the
/// result — at least 19 characters, all digits, separators and year sign —
/// is checked here, not assumed of the formatter: a reading of any other
/// shape is replaced by the epoch's.
fn now_timestamp() -> (r: String)
    ensures
        timestamp_shaped(r@),
{
    match format_local_timestamp(unix_seconds_now()) {
        Some(t) => {
            if is_timestamp_text(t.as_str()) {
                t
            } else {
                fallback_timestamp()
            }
        },
        None => fallback_timestamp(),
    }
}

/// The boot message, stamped with the current wall-clock time: the fixed
/// frame around some timestamp-shaped clock reading.
pub fn boot_markdown() -> (r: String)
    ensures
        exists|now: Seq<char>| r@ == #[trigger] boot_message(now) && timestamp_shaped(now),
{
    let now = now_timestamp();
    let r = compose_boot(now.as_str());
    proof {
        assert(exists|ts: Seq<char>| r@ == #[trigger] boot_message(ts) && timestamp_shaped(ts))
            by {
            assert(r@ == boot_message(now@) && timestamp_shaped(now@));
        }
    }
    r
}

/// The shutdown message, stamped with the current wall-clock time: the
/// fixed frame around some timestamp-shaped clock reading.
pub fn shutdown_markdown() -> (r: String)
    ensures
        exists|now: Seq<char>| r@ == #[trigger] shutdown_message(now) && timestamp_shaped(now),
{
    let now = now_timestamp();
    let r = compose_shutdown(now.as_str());
    proof {
        assert(exists|ts: Seq<char>|
            r@ == #[trigger] shutdown_message(ts) && timestamp_shaped(ts)) by {
            assert(r@ == shutdown_message(now@) && timestamp_shaped(now@));
        }
    }
    r
}

/// The periodic message for the given elapsed duration, stamped with the
/// current wall-clock time: the fixed frame around the duration and some
/// timestamp-shaped clock reading.
pub fn scheduled_markdown(hours: u64, minutes: u64) -> (r: String)
    ensures
        exists|now: Seq<char>|
            r@ == #[trigger] scheduled_message(now, hours, minutes) && timestamp_shaped(now),
{
    let now = now_timestamp();
    let r = compose_elapsed(now.as_str(), hours, minutes);
    proof {
        assert(exists|ts: Seq<char>|
            r@ == #[trigger] scheduled_message(ts, hours, minutes) && timestamp_shaped(ts)) by {
            assert(r@ == scheduled_message(now@, hours, minutes) && timestamp_shaped(now@));
        }
    }
    r
}

} // verus!
