//! Leveled console logging. Every level writes one line of the shape
//! `<color><HH:MM:SS.mmm> <message><reset>` to standard output: an ANSI
//! color prefix, a millisecond-precision wall-clock timestamp, a space,
//! the message itself, and the ANSI reset suffix.

use std::io::Write;
use vstd::prelude::*;

verus! {

use crate::text::is_digit_char;
use crate::text::lemma_digit_char_is_digit;
use crate::text::push_three_digits;
use crate::text::push_two_digits;
use crate::text::three_digit_chars;
use crate::text::two_digit_chars;
use vstd::string::StringExecFns;

/// The ANSI reset suffix that ends every log line.
pub open spec fn reset_chars() -> Seq<char> {
    "\x1b[0m"@
}

/// A time of day rendered as `HH:MM:SS.mmm`, all fields zero padded.
pub open spec fn timestamp_chars(h: int, m: int, s: int, ms: int) -> Seq<char> {
    two_digit_chars(h) + seq![':'] + two_digit_chars(m) + seq![':'] + two_digit_chars(s)
        + seq!['.'] + three_digit_chars(ms)
}

/// A whole log line: color prefix, timestamp, a space, the message, and
/// the ANSI reset suffix.
pub open spec fn log_line_chars(
    color: Seq<char>,
    h: int,
    m: int,
    s: int,
    ms: int,
    message: Seq<char>,
) -> Seq<char> {
    color + timestamp_chars(h, m, s, ms) + seq![' '] + message + reset_chars()
}

/// Renders a time of day as `HH:MM:SS.mmm`.
pub fn format_timestamp(h: u8, m: u8, s: u8, ms: u16) -> (r: String)
    requires
        h < 24,
        m < 60,
        s < 60,
        ms < 1000,
    ensures
        r@ == timestamp_chars(h as int, m as int, s as int, ms as int),
{
    let mut out = String::new();
    push_two_digits(&mut out, h);
    out.append(":");
    push_two_digits(&mut out, m);
    out.append(":");
    push_two_digits(&mut out, s);
    out.append(".");
    push_three_digits(&mut out, ms);
    proof {
        reveal_strlit(":");
        reveal_strlit(".");
        assert(out@ =~= timestamp_chars(h as int, m as int, s as int, ms as int));
    }
    out
}

/// Builds a whole log line from its color, time of day and message.
pub fn format_log_line(color: &str, h: u8, m: u8, s: u8, ms: u16, message: &str) -> (r: String)
    requires
        h < 24,
        m < 60,
        s < 60,
        ms < 1000,
    ensures
        r@ == log_line_chars(color@, h as int, m as int, s as int, ms as int, message@),
{
    let mut out = color.to_owned();
    let ts = format_timestamp(h, m, s, ms);
    out.append(ts.as_str());
    out.append(" ");
    out.append(message);
    out.append("\x1b[0m");
    proof {
        reveal_strlit(" ");
        assert(out@ =~= log_line_chars(
            color@,
            h as int,
            m as int,
            s as int,
            ms as int,
            message@,
        ));
    }
    out
}

/// The millisecond count within the current second. Values representing a
/// leap second (a nanosecond count of one billion or more) are clamped to
/// 999 so that the rendered timestamp keeps its three-digit field.
pub open spec fn clamped_millis(nanos: int) -> int {
    if nanos / 1_000_000 < 1000 {
        nanos / 1_000_000
    } else {
        999
    }
}

/// Reduces a nanosecond count within a second to clamped milliseconds.
pub fn subsec_millis(nanos: u32) -> (ms: u16)
    ensures
        ms == clamped_millis(nanos as int),
        ms < 1000,
{
    let m = nanos / 1_000_000;
    if m < 1000 {
        m as u16
    } else {
        999
    }
}

/// Relies on `chrono::Local::now` for the current wall-clock time and on
/// chrono's `Timelike` accessors, whose documented ranges the contract
/// states: hour below 24, minute and second below 60, and a nanosecond
/// count below two billion (one billion and above marks a leap second).
#[verifier::external_body]
fn local_time_now() -> (t: (u32, u32, u32, u32))
    ensures
        t.0 < 24,
        t.1 < 60,
        t.2 < 60,
        t.3 < 2_000_000_000,
{
    let now = chrono::Local::now();
    (
        chrono::Timelike::hour(&now),
        chrono::Timelike::minute(&now),
        chrono::Timelike::second(&now),
        chrono::Timelike::nanosecond(&now),
    )
}

/// Relies on the `std::io::Write` implementation of `std::io::Stdout`,
/// through `writeln`, to emit the line followed by a newline on standard
/// output. A write error is ignored rather than allowed to panic.
#[verifier::external_body]
fn print_line(line: &str) {
    let _ = writeln!(std::io::stdout(), "{}", line);
}

/// Writes one line to standard output: the given color prefix, the current
/// wall-clock time as `HH:MM:SS.mmm`, a space, the message, and the ANSI
/// reset suffix.
pub fn log(content: &str, color: &str) {
    let (h, m, s, nanos) = local_time_now();
    let ms = subsec_millis(nanos);
    let line = format_log_line(color, h as u8, m as u8, s as u8, ms, content);
    print_line(line.as_str());
}

/// Logs a message in the terminal's default color.
pub fn info(content: &str) {
    log(content, "\x1b[0m");
}

/// Logs a message in orange.
pub fn warn(content: &str) {
    log(content, "\x1b[38;5;208m");
}

/// Logs a message in red.
pub fn error(content: &str) {
    log(content, "\x1b[31m");
}

/// Logs a message in purple.
pub fn debug(content: &str) {
    log(content, "\x1b[35m");
}

/// Law: a log line at any level carries its timestamp in `HH:MM:SS.mmm`
/// shape directly after the color prefix, then a single space, then the
/// message itself character for character, then the reset suffix; and if
/// neither the color nor the message holds a newline, the line holds none,
/// so writing it emits exactly one line of output.
pub proof fn lemma_log_line_shape(
    color: Seq<char>,
    h: int,
    m: int,
    s: int,
    ms: int,
    message: Seq<char>,
)
    requires
        0 <= h < 24,
        0 <= m < 60,
        0 <= s < 60,
        0 <= ms < 1000,
    ensures
        ({
            let line = log_line_chars(color, h, m, s, ms, message);
            let ts = timestamp_chars(h, m, s, ms);
            &&& ts.len() == 12
            &&& ts[2] == ':' && ts[5] == ':' && ts[8] == '.'
            &&& forall|i: int|
                0 <= i < 12 && i != 2 && i != 5 && i != 8 ==> is_digit_char(#[trigger] ts[i])
            &&& line.len() == color.len() + 12 + 1 + message.len() + reset_chars().len()
            &&& line.subrange(color.len() as int, color.len() as int + 12) == ts
            &&& line[color.len() as int + 12] == ' '
            &&& line.subrange(color.len() as int + 13, color.len() as int + 13 + message.len() as int) == message
            &&& !color.contains('\n') && !message.contains('\n') ==> !line.contains('\n')
        }),
{
    let line = log_line_chars(color, h, m, s, ms, message);
    let ts = timestamp_chars(h, m, s, ms);
    reveal_strlit("\x1b[0m");
    assert(ts[2] == ':' && ts[5] == ':' && ts[8] == '.');
    assert forall|i: int| 0 <= i < 12 && i != 2 && i != 5 && i != 8 implies is_digit_char(
        #[trigger] ts[i],
    ) by {
        if i == 0 {
            lemma_digit_char_is_digit(h / 10);
        } else if i == 1 {
            lemma_digit_char_is_digit(h % 10);
        } else if i == 3 {
            lemma_digit_char_is_digit(m / 10);
        } else if i == 4 {
            lemma_digit_char_is_digit(m % 10);
        } else if i == 6 {
            lemma_digit_char_is_digit(s / 10);
        } else if i == 7 {
            lemma_digit_char_is_digit(s % 10);
        } else if i == 9 {
            lemma_digit_char_is_digit(ms / 100);
        } else if i == 10 {
            lemma_digit_char_is_digit((ms / 10) % 10);
        } else {
            lemma_digit_char_is_digit(ms % 10);
        }
    }
    assert(line.subrange(color.len() as int, color.len() as int + 12) =~= ts);
    assert(line.subrange(color.len() as int + 13, color.len() as int + 13 + message.len() as int) =~= message);
    if !color.contains('\n') && !message.contains('\n') {
        assert forall|i: int| 0 <= i < line.len() implies line[i] != '\n' by {
            if i < color.len() {
                assert(line[i] == color[i]);
                assert(!color.contains('\n'));
            } else if i < color.len() + 12 {
                let j = i - color.len();
                assert(line[i] == ts[j]);
            } else if i == color.len() + 12 {
                assert(line[i] == ' ');
            } else if i < color.len() + 13 + message.len() {
                let j = i - color.len() - 13;
                assert(line[i] == message[j]);
                assert(!message.contains('\n'));
            } else {
                let j = i - (color.len() + 13 + message.len());
                assert(line[i] == reset_chars()[j]);
            }
        }
        if line.contains('\n') {
            let i = choose|i: int| 0 <= i < line.len() && line[i] == '\n';
            assert(line[i] != '\n');
        }
    }
}

} // verus!
