//! The daemon's log: messages with a severity and the time they were made.
use vstd::prelude::*;

use crate::daemon::ansi_reset;
use crate::daemon::escape_free;
use crate::daemon::painted;
use crate::text::concat;
use crate::text::dec_int;
use crate::text::dec_nat;
use crate::text::fmt_i64;
use crate::text::fmt_u64;

verus! {

/// The level of a log message.
///
/// - `Error`: something went wrong.
/// - `Warning`: something unexpected happened, but the program goes on.
/// - `Log`: information about what the program does.
#[derive(PartialEq, Eq, Structural, Clone, Copy, Debug)]
pub enum Severity {
    Error,
    Warning,
    Log,
}

/// A point in time: seconds and nanoseconds since the Unix epoch.
#[derive(PartialEq, Eq, Structural, Clone, Copy, Debug)]
pub struct Timestamp {
    pub secs: u64,
    pub nanos: u32,
}

/// A point in time in nanoseconds since the Unix epoch.
pub open spec fn timestamp_nanos(t: Timestamp) -> int {
    t.secs * 1_000_000_000 + t.nanos
}

impl Timestamp {
    /// The time in nanoseconds since the Unix epoch.
    pub fn as_nanos(&self) -> (n: u128)
        ensures
            n == timestamp_nanos(*self),
    {
        self.secs as u128 * 1_000_000_000 + self.nanos as u128
    }
}

/// The current time (`SystemTime::now`, measured from the Unix epoch; a
/// clock set before the epoch reads as the epoch). Nothing is stated of the
/// value: it is the machine's clock.
#[verifier::external_body]
pub(crate) fn now() -> (t: Timestamp) {
    match std::time::SystemTime::now().duration_since(std::time::UNIX_EPOCH) {
        Ok(d) => Timestamp { secs: d.as_secs(), nanos: d.subsec_nanos() },
        Err(_) => Timestamp { secs: 0, nanos: 0 },
    }
}

/// One log entry.
#[derive(Debug)]
pub struct Log {
    pub message: String,
    pub severity: Severity,
    pub timestamp: Timestamp,
}

/// Something that records log messages.
pub trait Interface {
    fn log(&mut self, msg: &str, sev: Severity);
}

/// The daemon's log, oldest entry first.
pub struct Logger {
    pub logs: Vec<Log>,
}

impl Logger {
    /// An empty log.
    pub fn new() -> (l: Logger)
        ensures
            l.logs@.len() == 0,
    {
        Logger { logs: Vec::new() }
    }
}

impl Interface for Logger {
    /// Appends an entry with the message, the severity and the current time.
    fn log(&mut self, msg: &str, sev: Severity)
        ensures
            final(self).logs@.len() == old(self).logs@.len() + 1,
            final(self).logs@.take(old(self).logs@.len() as int) == old(self).logs@,
            final(self).logs@.last().message@ == msg@,
            final(self).logs@.last().severity == sev,
    {
        let time = now();
        let loggable = Log { message: msg.to_owned(), severity: sev, timestamp: time };
        let ghost before = self.logs@;
        self.logs.push(loggable);
        assert(self.logs@.take(before.len() as int) =~= before);
    }
}

// ---------------------------------------------------------------------
// An entry on one line
// ---------------------------------------------------------------------

/// The calendar fields (year, month, day, hour, minute, second) in UTC of a
/// Unix timestamp in seconds, as `time::OffsetDateTime::from_unix_timestamp`
/// computes them; `None` for a timestamp out of the range it handles.
pub uninterp spec fn utc_fields(secs: i64) -> Option<(i32, u8, u8, u8, u8, u8)>;

/// `time::OffsetDateTime::from_unix_timestamp` and the date's and time's
/// fields: the result is named `utc_fields`; the crate documents the months
/// as 1 to 12, the days as 1 to 31, the hours under 24 and the minutes and
/// seconds under 60.
#[verifier::external_body]
fn utc_date_time(secs: i64) -> (r: Option<(i32, u8, u8, u8, u8, u8)>)
    ensures
        r == utc_fields(secs),
        r matches Some(f) ==> 1 <= f.1 <= 12 && 1 <= f.2 <= 31 && f.3 < 24 && f.4 < 60 && f.5
            < 60,
{
    match time::OffsetDateTime::from_unix_timestamp(secs) {
        Ok(t) => Some((t.year(), u8::from(t.month()), t.day(), t.hour(), t.minute(), t.second())),
        Err(_) => None,
    }
}

/// A number under 100 in two digits.
pub open spec fn two_digits(n: u8) -> Seq<char> {
    if n < 10 {
        seq!['0'] + dec_nat(n as nat)
    } else {
        dec_nat(n as nat)
    }
}

/// The time of an entry as the log shows it, `YYYY-MM-DD hh:mm:ss` in UTC,
/// or `?` where the timestamp has no date.
pub open spec fn time_text(secs: u64) -> Seq<char> {
    match if secs <= i64::MAX {
        utc_fields(secs as i64)
    } else {
        None
    } {
        Some(f) => dec_int(f.0 as int) + "-"@ + two_digits(f.1) + "-"@ + two_digits(f.2) + " "@
            + two_digits(f.3) + ":"@ + two_digits(f.4) + ":"@ + two_digits(f.5),
        None => "?"@,
    }
}

/// The label of a severity.
pub open spec fn severity_label(s: Severity) -> Seq<char> {
    match s {
        Severity::Error => "error:"@,
        Severity::Warning => "warn:"@,
        Severity::Log => "notice:"@,
    }
}

/// The escape sequence that starts bold text of a severity's color: red
/// errors, yellow warnings, blue notices.
pub open spec fn severity_start(s: Severity) -> Seq<char> {
    match s {
        Severity::Error => seq!['\x1b', '[', '1', ';', '3', '1', 'm'],
        Severity::Warning => seq!['\x1b', '[', '1', ';', '3', '3', 'm'],
        Severity::Log => seq!['\x1b', '[', '1', ';', '3', '4', 'm'],
    }
}

/// `colored`'s bold red text (`Colorize::bold`, `Colorize::red`, then
/// `Display`): the text, or the text between the bold red and reset
/// sequences, as the environment and the terminal decide.
#[verifier::external_body]
fn bold_red(s: &str) -> (r: String)
    requires
        escape_free(s@),
    ensures
        painted(r@, s@, severity_start(Severity::Error)),
{
    colored::Colorize::red(colored::Colorize::bold(s)).to_string()
}

/// `colored`'s bold yellow text: the text, or the text between the bold
/// yellow and reset sequences.
#[verifier::external_body]
fn bold_yellow(s: &str) -> (r: String)
    requires
        escape_free(s@),
    ensures
        painted(r@, s@, severity_start(Severity::Warning)),
{
    colored::Colorize::yellow(colored::Colorize::bold(s)).to_string()
}

/// `colored`'s bold blue text: the text, or the text between the bold blue
/// and reset sequences.
#[verifier::external_body]
fn bold_blue(s: &str) -> (r: String)
    requires
        escape_free(s@),
    ensures
        painted(r@, s@, severity_start(Severity::Log)),
{
    colored::Colorize::blue(colored::Colorize::bold(s)).to_string()
}

fn two_digit_string(n: u8) -> (s: String)
    ensures
        s@ == two_digits(n),
{
    if n < 10 {
        let s = concat("0", fmt_u64(n as u64).as_str());
        proof {
            reveal_strlit("0");
        }
        assert(s@ =~= two_digits(n));
        s
    } else {
        fmt_u64(n as u64)
    }
}

fn time_string(secs: u64) -> (s: String)
    ensures
        s@ == time_text(secs),
{
    let fields = if secs <= 9223372036854775807 {
        utc_date_time(secs as i64)
    } else {
        None
    };
    match fields {
        Some(f) => {
            let a = concat(fmt_i64(f.0 as i64).as_str(), "-");
            let b = concat(a.as_str(), two_digit_string(f.1).as_str());
            let c = concat(b.as_str(), "-");
            let d = concat(c.as_str(), two_digit_string(f.2).as_str());
            let e = concat(d.as_str(), " ");
            let g = concat(e.as_str(), two_digit_string(f.3).as_str());
            let h = concat(g.as_str(), ":");
            let i = concat(h.as_str(), two_digit_string(f.4).as_str());
            let j = concat(i.as_str(), ":");
            let r = concat(j.as_str(), two_digit_string(f.5).as_str());
            assert(r@ =~= time_text(secs));
            r
        },
        None => String::from_str("?"),
    }
}

impl Log {
    /// The entry on one line (its `Display`): its severity's label, painted
    /// bold in the severity's color, its time and its message.
    pub fn line(&self) -> (s: String)
        ensures
            exists|label: Seq<char>|
                {
                    &&& painted(label, severity_label(self.severity), severity_start(self.severity))
                    &&& s@ == label + " "@ + time_text(self.timestamp.secs) + " -> "@
                        + self.message@
                },
    {
        proof {
            reveal_strlit("error:");
            reveal_strlit("warn:");
            reveal_strlit("notice:");
        }
        let label = match self.severity {
            Severity::Error => bold_red("error:"),
            Severity::Warning => bold_yellow("warn:"),
            Severity::Log => bold_blue("notice:"),
        };
        let a = concat(label.as_str(), " ");
        let b = concat(a.as_str(), time_string(self.timestamp.secs).as_str());
        let c = concat(b.as_str(), " -> ");
        let s = concat(c.as_str(), self.message.as_str());
        assert(painted(label@, severity_label(self.severity), severity_start(self.severity)));
        assert(s@ =~= label@ + " "@ + time_text(self.timestamp.secs) + " -> "@ + self.message@);
        s
    }
}

} // verus!
