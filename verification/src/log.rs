//! Log levels, the level filter, timestamps and the layout of a log line.
//!
//! Five levels, from the most to the least severe: error, warn, info,
//! debug, trace. A line is printed when its level is at least as severe as
//! the configured threshold. A line reads
//! `<colour>[ <seconds>.<millis>] | <LEVEL> | <message><reset>\n`.
use vstd::prelude::*;
use vstd::string::StringSliceAdditionalSpecFns;
use crate::config::LOG_LEVEL_NAME;

verus! {

/// Severity of error lines.
pub const LEVEL_ERROR: u8 = 5;
/// Severity of warning lines.
pub const LEVEL_WARN: u8 = 4;
/// Severity of informational lines.
pub const LEVEL_INFO: u8 = 3;
/// Severity of debugging lines.
pub const LEVEL_DEBUG: u8 = 2;
/// Severity of tracing lines.
pub const LEVEL_TRACE: u8 = 1;

/// The level of a log line.
#[derive(Clone, Copy, Debug, PartialEq, Eq, Structural)]
pub enum LogLevel {
    Error,
    Warn,
    Info,
    Debug,
    Trace,
}

impl LogLevel {
    /// The severity of the level: larger is more severe.
    pub open spec fn spec_severity(self) -> u8 {
        match self {
            LogLevel::Error => LEVEL_ERROR,
            LogLevel::Warn => LEVEL_WARN,
            LogLevel::Info => LEVEL_INFO,
            LogLevel::Debug => LEVEL_DEBUG,
            LogLevel::Trace => LEVEL_TRACE,
        }
    }

    /// The severity of the level: larger is more severe.
    pub fn severity(&self) -> (r: u8)
        ensures
            r == self.spec_severity(),
    {
        match self {
            LogLevel::Error => LEVEL_ERROR,
            LogLevel::Warn => LEVEL_WARN,
            LogLevel::Info => LEVEL_INFO,
            LogLevel::Debug => LEVEL_DEBUG,
            LogLevel::Trace => LEVEL_TRACE,
        }
    }

    /// The ANSI colour sequence a line of this level starts with.
    pub open spec fn spec_color(self) -> Seq<u8> {
        match self {
            // ESC [ 1 ; 3 1 m
            LogLevel::Error => seq![0x1bu8, 0x5b, 0x31, 0x3b, 0x33, 0x31, 0x6d],
            // ESC [ 1 ; 3 3 m
            LogLevel::Warn => seq![0x1bu8, 0x5b, 0x31, 0x3b, 0x33, 0x33, 0x6d],
            // ESC [ 1 ; 3 2 m
            LogLevel::Info => seq![0x1bu8, 0x5b, 0x31, 0x3b, 0x33, 0x32, 0x6d],
            // ESC [ 1 ; 3 6 m
            LogLevel::Debug => seq![0x1bu8, 0x5b, 0x31, 0x3b, 0x33, 0x36, 0x6d],
            // ESC [ 1 ; 9 0 m
            LogLevel::Trace => seq![0x1bu8, 0x5b, 0x31, 0x3b, 0x39, 0x30, 0x6d],
        }
    }

    /// The name of the level, right-aligned in five columns.
    pub open spec fn spec_padded_name(self) -> Seq<u8> {
        match self {
            // "ERROR"
            LogLevel::Error => seq![0x45u8, 0x52, 0x52, 0x4f, 0x52],
            // " WARN"
            LogLevel::Warn => seq![0x20u8, 0x57, 0x41, 0x52, 0x4e],
            // " INFO"
            LogLevel::Info => seq![0x20u8, 0x49, 0x4e, 0x46, 0x4f],
            // "DEBUG"
            LogLevel::Debug => seq![0x44u8, 0x45, 0x42, 0x55, 0x47],
            // "TRACE"
            LogLevel::Trace => seq![0x54u8, 0x52, 0x41, 0x43, 0x45],
        }
    }

    fn push_color(&self, buf: &mut Vec<u8>)
        ensures
            final(buf)@ == old(buf)@ + self.spec_color(),
    {
        match self {
            LogLevel::Error => push_bytes(buf, &[0x1bu8, 0x5b, 0x31, 0x3b, 0x33, 0x31, 0x6d]),
            LogLevel::Warn => push_bytes(buf, &[0x1bu8, 0x5b, 0x31, 0x3b, 0x33, 0x33, 0x6d]),
            LogLevel::Info => push_bytes(buf, &[0x1bu8, 0x5b, 0x31, 0x3b, 0x33, 0x32, 0x6d]),
            LogLevel::Debug => push_bytes(buf, &[0x1bu8, 0x5b, 0x31, 0x3b, 0x33, 0x36, 0x6d]),
            LogLevel::Trace => push_bytes(buf, &[0x1bu8, 0x5b, 0x31, 0x3b, 0x39, 0x30, 0x6d]),
        }
    }

    fn push_padded_name(&self, buf: &mut Vec<u8>)
        ensures
            final(buf)@ == old(buf)@ + self.spec_padded_name(),
    {
        match self {
            LogLevel::Error => push_bytes(buf, &[0x45u8, 0x52, 0x52, 0x4f, 0x52]),
            LogLevel::Warn => push_bytes(buf, &[0x20u8, 0x57, 0x41, 0x52, 0x4e]),
            LogLevel::Info => push_bytes(buf, &[0x20u8, 0x49, 0x4e, 0x46, 0x4f]),
            LogLevel::Debug => push_bytes(buf, &[0x44u8, 0x45, 0x42, 0x55, 0x47]),
            LogLevel::Trace => push_bytes(buf, &[0x54u8, 0x52, 0x41, 0x43, 0x45]),
        }
    }
}

/// Appends `bytes` to `buf`.
fn push_bytes(buf: &mut Vec<u8>, bytes: &[u8])
    ensures
        final(buf)@ == old(buf)@ + bytes@,
{
    let mut i: usize = 0;
    while i < bytes.len()
        invariant
            i <= bytes@.len(),
            buf@ == old(buf)@ + bytes@.subrange(0, i as int),
        decreases bytes@.len() - i,
    {
        buf.push(bytes[i]);
        i = i + 1;
        assert(bytes@.subrange(0, i as int) =~= bytes@.subrange(0, i - 1).push(bytes@[i - 1]));
    }
    assert(bytes@.subrange(0, i as int) =~= bytes@);
}

/// Byte-wise equality of two strings.
pub fn str_eq(a: &str, b: &str) -> (r: bool)
    ensures
        r == (a.spec_bytes() == b.spec_bytes()),
{
    let x = a.as_bytes();
    let y = b.as_bytes();
    if x.len() != y.len() {
        return false;
    }
    let mut i: usize = 0;
    while i < x.len()
        invariant
            x@ == a.spec_bytes(),
            y@ == b.spec_bytes(),
            x@.len() == y@.len(),
            i <= x@.len(),
            forall|j: int| 0 <= j < i ==> x@[j] == y@[j],
        decreases x@.len() - i,
    {
        if x[i] != y[i] {
            assert(x@[i as int] != y@[i as int]);
            return false;
        }
        i = i + 1;
    }
    assert(x@ =~= y@);
    true
}

/// The bytes of "error".
pub open spec fn name_error() -> Seq<u8> {
    seq![0x65u8, 0x72, 0x72, 0x6f, 0x72]
}

/// The bytes of "warn".
pub open spec fn name_warn() -> Seq<u8> {
    seq![0x77u8, 0x61, 0x72, 0x6e]
}

/// The bytes of "info".
pub open spec fn name_info() -> Seq<u8> {
    seq![0x69u8, 0x6e, 0x66, 0x6f]
}

/// The bytes of "trace".
pub open spec fn name_trace() -> Seq<u8> {
    seq![0x74u8, 0x72, 0x61, 0x63, 0x65]
}

/// The severity named by a configured level name; any name other than
/// error, warn, info and trace means debug.
pub open spec fn spec_rank(name: Seq<u8>) -> u8 {
    if name == name_error() {
        LEVEL_ERROR
    } else if name == name_warn() {
        LEVEL_WARN
    } else if name == name_info() {
        LEVEL_INFO
    } else if name == name_trace() {
        LEVEL_TRACE
    } else {
        LEVEL_DEBUG
    }
}

/// Maps a configured level name to its severity; an unknown name falls
/// back to debug.
pub fn rank(name: &str) -> (r: u8)
    ensures
        r == spec_rank(name.spec_bytes()),
{
    proof {
        broadcast use vstd::string::is_ascii_spec_bytes;
        reveal_strlit("error");
        reveal_strlit("warn");
        reveal_strlit("info");
        reveal_strlit("trace");
        assert(vstd::string::is_ascii("error"));
        assert(vstd::string::is_ascii("warn"));
        assert(vstd::string::is_ascii("info"));
        assert(vstd::string::is_ascii("trace"));
        assert("error".spec_bytes() =~= name_error());
        assert("warn".spec_bytes() =~= name_warn());
        assert("info".spec_bytes() =~= name_info());
        assert("trace".spec_bytes() =~= name_trace());
    }
    if str_eq(name, "error") {
        LEVEL_ERROR
    } else if str_eq(name, "warn") {
        LEVEL_WARN
    } else if str_eq(name, "info") {
        LEVEL_INFO
    } else if str_eq(name, "trace") {
        LEVEL_TRACE
    } else {
        LEVEL_DEBUG
    }
}

/// The configured threshold: lines less severe than this are dropped.
pub open spec fn spec_log_level() -> u8 {
    spec_rank(LOG_LEVEL_NAME.spec_bytes())
}

/// The configured threshold: lines less severe than this are dropped.
pub fn log_level() -> (r: u8)
    ensures
        r == spec_log_level(),
{
    rank(LOG_LEVEL_NAME)
}

/// Whether a line of `level` is printed.
pub fn log_enabled(level: LogLevel) -> (r: bool)
    ensures
        r == (spec_log_level() <= level.spec_severity()),
{
    log_level() <= level.severity()
}

/// The configured name is "debug", so the threshold is debug: everything
/// but trace lines is printed.
pub proof fn lemma_configured_level_is_debug()
    ensures
        spec_log_level() == LEVEL_DEBUG,
{
    broadcast use vstd::string::is_ascii_spec_bytes;
    reveal_strlit("debug");
    assert(vstd::string::is_ascii("debug"));
    assert(LOG_LEVEL_NAME.spec_bytes() =~= seq![0x64u8, 0x65, 0x62, 0x75, 0x67]);
    assert(LOG_LEVEL_NAME.spec_bytes() != name_error());
    assert(LOG_LEVEL_NAME.spec_bytes()[0] != name_warn()[0]);
    assert(LOG_LEVEL_NAME.spec_bytes()[0] != name_info()[0]);
    assert(LOG_LEVEL_NAME.spec_bytes()[0] != name_trace()[0]);
}

/// The filter is monotone: whenever a line of some level is printed, every
/// more severe level is printed too.
pub proof fn law_log_filter_monotone(shown: LogLevel, more_severe: LogLevel)
    requires
        shown.spec_severity() <= more_severe.spec_severity(),
        spec_log_level() <= shown.spec_severity(),
    ensures
        spec_log_level() <= more_severe.spec_severity(),
{
}

/// Decimal digits of `n`, most significant first, without leading zeros.
pub open spec fn decimal(n: nat) -> Seq<u8>
    decreases n,
{
    if n < 10 {
        seq![(0x30 + n) as u8]
    } else {
        decimal(n / 10).push((0x30 + n % 10) as u8)
    }
}

/// The three decimal digits of `n < 1000`, zero-padded.
pub open spec fn three_digits(n: nat) -> Seq<u8> {
    seq![(0x30 + n / 100) as u8, (0x30 + (n / 10) % 10) as u8, (0x30 + n % 10) as u8]
}

/// Appends the decimal digits of `n`.
fn push_decimal(buf: &mut Vec<u8>, n: usize)
    ensures
        final(buf)@ == old(buf)@ + decimal(n as nat),
    decreases n,
{
    if n >= 10 {
        push_decimal(buf, n / 10);
    }
    let digit = (n % 10) as u8;
    buf.push(0x30u8 + digit);
    proof {
        if n >= 10 {
            assert(decimal(n as nat) == decimal((n / 10) as nat).push((0x30 + n % 10) as u8));
        }
    }
}

/// A log timestamp: a time in microseconds, shown as seconds and
/// milliseconds.
pub struct LogTimestamp(pub usize);

/// The time in whole milliseconds, rounded half up.
pub open spec fn spec_total_millis(us: nat) -> nat {
    (us + 500) / 1000
}

/// The text of a timestamp: seconds, a dot, then three digits of
/// milliseconds.
pub open spec fn spec_timestamp_text(us: nat) -> Seq<u8> {
    decimal(spec_total_millis(us) / 1000) + seq![0x2eu8] + three_digits(spec_total_millis(us) % 1000)
}

impl LogTimestamp {
    /// The time rounded to the nearest millisecond (half up), split into
    /// seconds and milliseconds.
    pub fn millis(&self) -> (r: (usize, usize))
        ensures
            r.0 == spec_total_millis(self.0 as nat) / 1000,
            r.1 == spec_total_millis(self.0 as nat) % 1000,
    {
        let us = self.0;
        let total = if us % 1000 >= 500 { us / 1000 + 1 } else { us / 1000 };
        assert(total == spec_total_millis(us as nat));
        (total / 1000, total % 1000)
    }

    /// The timestamp as printed: `<seconds>.<millis>`, the milliseconds
    /// zero-padded to three digits.
    pub fn render(&self) -> (text: Vec<u8>)
        ensures
            text@ == spec_timestamp_text(self.0 as nat),
    {
        let (secs, ms) = self.millis();
        let mut buf: Vec<u8> = Vec::new();
        push_decimal(&mut buf, secs);
        buf.push(0x2eu8);
        buf.push(0x30u8 + (ms / 100) as u8);
        buf.push(0x30u8 + ((ms / 10) % 10) as u8);
        buf.push(0x30u8 + (ms % 10) as u8);
        assert(buf@ =~= spec_timestamp_text(self.0 as nat));
        buf
    }
}

/// The timestamp is the time rounded to the nearest millisecond: it is off
/// by at most half a millisecond, and exact halves round up.
pub proof fn law_timestamp_rounds_to_nearest(us: nat)
    ensures
        spec_total_millis(us) * 1000 <= us + 500,
        us < spec_total_millis(us) * 1000 + 500,
{
}

/// A whole log line: colour, timestamp, level, message, colour reset and
/// newline.
pub open spec fn spec_log_line(level: LogLevel, now_us: nat, message: Seq<u8>) -> Seq<u8> {
    level.spec_color() + seq![0x5bu8, 0x20] + spec_timestamp_text(now_us) + seq![0x5du8, 0x20, 0x7c, 0x20]
        + level.spec_padded_name() + seq![0x20u8, 0x7c, 0x20] + message + seq![0x1bu8, 0x5b, 0x30, 0x6d, 0x0a]
}

/// Lays out a log line of `level`, stamped with `now_us`, around an already
/// formatted `message`.
pub fn format_log(level: LogLevel, now_us: usize, message: &[u8]) -> (line: Vec<u8>)
    ensures
        line@ == spec_log_line(level, now_us as nat, message@),
{
    let mut buf: Vec<u8> = Vec::new();
    level.push_color(&mut buf);
    // "[ "
    push_bytes(&mut buf, &[0x5bu8, 0x20]);
    let ts = LogTimestamp(now_us).render();
    push_bytes(&mut buf, ts.as_slice());
    // "] | "
    push_bytes(&mut buf, &[0x5du8, 0x20, 0x7c, 0x20]);
    level.push_padded_name(&mut buf);
    // " | "
    push_bytes(&mut buf, &[0x20u8, 0x7c, 0x20]);
    push_bytes(&mut buf, message);
    // ESC [ 0 m, newline
    push_bytes(&mut buf, &[0x1bu8, 0x5b, 0x30, 0x6d, 0x0a]);
    assert(buf@ =~= spec_log_line(level, now_us as nat, message@));
    buf
}

} // verus!
