//! The in-memory log shown in the terminal interface: which records are
//! kept, how a line reads, and the bounded buffer of the latest lines.

use vstd::prelude::*;

verus! {

/// Most lines the log buffer keeps.
pub const LOG_CAPACITY: usize = 100;

/// Severity of a log record, most severe first.
#[derive(Debug, Clone, Copy, PartialEq, Eq, Structural)]
pub enum LogLevel {
    Error,
    Warn,
    Info,
    Debug,
    Trace,
}

/// The rank of a level: 1 for errors up to 5 for traces.
pub open spec fn level_rank(l: LogLevel) -> int {
    match l {
        LogLevel::Error => 1,
        LogLevel::Warn => 2,
        LogLevel::Info => 3,
        LogLevel::Debug => 4,
        LogLevel::Trace => 5,
    }
}

/// The name a level is printed with.
pub open spec fn level_name(l: LogLevel) -> Seq<char> {
    match l {
        LogLevel::Error => "ERROR"@,
        LogLevel::Warn => "WARN"@,
        LogLevel::Info => "INFO"@,
        LogLevel::Debug => "DEBUG"@,
        LogLevel::Trace => "TRACE"@,
    }
}

impl LogLevel {
    /// Whether records of this level are kept: `Info` and more severe.
    pub fn is_recorded(&self) -> (r: bool)
        ensures
            r == (level_rank(*self) <= level_rank(LogLevel::Info)),
    {
        match self {
            LogLevel::Error | LogLevel::Warn | LogLevel::Info => true,
            _ => false,
        }
    }

    /// The name this level is printed with.
    pub fn name(&self) -> (r: &'static str)
        ensures
            r@ == level_name(*self),
    {
        match self {
            LogLevel::Error => "ERROR",
            LogLevel::Warn => "WARN",
            LogLevel::Info => "INFO",
            LogLevel::Debug => "DEBUG",
            LogLevel::Trace => "TRACE",
        }
    }
}

/// A log line: `[time] [LEVEL] message`.
pub open spec fn log_line_text(time: Seq<char>, level: LogLevel, message: Seq<char>) -> Seq<char> {
    "["@ + time + "] ["@ + level_name(level) + "] "@ + message
}

/// Formats a log line.
pub fn log_line(time: &str, level: LogLevel, message: &str) -> (r: String)
    ensures
        r@ == log_line_text(time@, level, message@),
{
    let mut r = String::from_str("[");
    r.append(time);
    r.append("] [");
    r.append(level.name());
    r.append("] ");
    r.append(message);
    r
}

/// The buffer after a line is added: the line at the end, and the oldest
/// line dropped when there are more than `LOG_CAPACITY`.
pub open spec fn buffer_after(buf: Seq<Seq<char>>, line: Seq<char>) -> Seq<Seq<char>> {
    let pushed = buf.push(line);
    if pushed.len() > LOG_CAPACITY { pushed.drop_first() } else { pushed }
}

/// The text of each line of a buffer.
pub open spec fn lines_of(buf: Seq<String>) -> Seq<Seq<char>> {
    buf.map_values(|s: String| s@)
}

/// Adds a line to the buffer, dropping the oldest beyond `LOG_CAPACITY`.
pub fn record_line(buf: &mut Vec<String>, line: String)
    ensures
        lines_of(final(buf)@) == buffer_after(lines_of(old(buf)@), line@),
{
    let ghost before = lines_of(buf@);
    let ghost l = line@;
    buf.push(line);
    proof {
        assert(lines_of(buf@) =~= before.push(l));
    }
    if buf.len() > LOG_CAPACITY {
        let ghost pushed = lines_of(buf@);
        let _ = buf.remove(0);
        proof {
            assert(lines_of(buf@) =~= pushed.drop_first());
        }
    }
}

/// The last `count` lines of a buffer, newest first.
pub open spec fn newest_first(buf: Seq<Seq<char>>, count: int) -> Seq<Seq<char>> {
    let n = if count < buf.len() { count } else { buf.len() as int };
    Seq::new(n as nat, |i: int| buf[buf.len() - 1 - i])
}

/// The lines a log view of `count` rows shows: the newest first.
pub fn recent_lines(buf: &Vec<String>, count: usize) -> (r: Vec<String>)
    ensures
        lines_of(r@) == newest_first(lines_of(buf@), count as int),
{
    let n = if count < buf.len() { count } else { buf.len() };
    let mut r: Vec<String> = Vec::new();
    let mut i: usize = 0;
    while i < n
        invariant
            n <= buf@.len(),
            n == (if count < buf@.len() { count as int } else { buf@.len() as int }),
            i <= n,
            r@.len() == i,
            forall|j: int| 0 <= j < i ==> #[trigger] r@[j]@ == buf@[buf@.len() - 1 - j]@,
        decreases n - i,
    {
        r.push(buf[buf.len() - 1 - i].clone());
        i = i + 1;
    }
    proof {
        assert(lines_of(r@) =~= newest_first(lines_of(buf@), count as int));
    }
    r
}

/// The rows a log view of `height` rows can show inside its border.
pub fn log_rows(height: u16) -> (r: usize)
    ensures
        r == (if height >= 2 { height - 2 } else { 0 }),
{
    height.saturating_sub(2) as usize
}

} // verus!
