//! The log sink's formatting rules.
//!
//! The process appends log lines to one daily file whose name carries
//! the date the process started on, and mirrors them to the console.
//! The line format and the file-name format are fixed here; opening the
//! file, holding its handle behind the mutual-exclusion lock and the
//! appending itself are the surrounding binary's work.

use vstd::prelude::*;

verus! {

/// One formatted log line: timestamp and severity in brackets, then the
/// message, closed by a line break.
pub open spec fn log_line_spec(timestamp: Seq<char>, level: Seq<char>, message: Seq<char>) -> Seq<
    char,
> {
    "["@ + timestamp + "] ["@ + level + "] "@ + message + "\n"@
}

/// Formats one log line from its parts.
pub fn format_log_line(timestamp: &str, level: &str, message: &str) -> (r: String)
    ensures
        r@ == log_line_spec(timestamp@, level@, message@),
{
    let mut r = "[".to_owned();
    r.append(timestamp);
    r.append("] [");
    r.append(level);
    r.append("] ");
    r.append(message);
    r.append("\n");
    r
}

/// The daily log file's name for one date.
pub open spec fn log_file_name_spec(date: Seq<char>) -> Seq<char> {
    "ai-trpg-"@ + date + ".log"@
}

/// The log file's name for the date given as text.
pub fn log_file_name(date: &str) -> (r: String)
    ensures
        r@ == log_file_name_spec(date@),
{
    let mut r = "ai-trpg-".to_owned();
    r.append(date);
    r.append(".log");
    r
}

/// Relies on chrono::Local::now, formatted as a calendar date. The
/// value depends on the clock alone.
#[verifier::external_body]
fn today_date_string() -> (r: String) {
    chrono::Local::now().format("%Y-%m-%d").to_string()
}

/// Relies on chrono::Local::now, formatted as a timestamp with
/// milliseconds. The value depends on the clock alone.
#[verifier::external_body]
fn now_timestamp_string() -> (r: String) {
    chrono::Local::now().format("%Y-%m-%d %H:%M:%S%.3f").to_string()
}

/// The log file's name for the day the call is made on: whatever the
/// clock reported, the name is the daily pattern applied to some date.
pub fn today_log_file_name() -> (r: String)
    ensures
        exists|d: Seq<char>| r@ == log_file_name_spec(d),
{
    let d = today_date_string();
    let r = log_file_name(d.as_str());
    proof {
        assert(r@ == log_file_name_spec(d@));
    }
    r
}

/// One log line stamped with the current time: whatever the clock
/// reported, the line is the fixed format around this level and message.
pub fn make_log_line(level: &str, message: &str) -> (r: String)
    ensures
        exists|t: Seq<char>| r@ == log_line_spec(t, level@, message@),
{
    let ts = now_timestamp_string();
    let r = format_log_line(ts.as_str(), level, message);
    proof {
        assert(r@ == log_line_spec(ts@, level@, message@));
    }
    r
}

} // verus!
