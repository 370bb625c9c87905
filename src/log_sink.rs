use vstd::prelude::*;

use crate::paths::{FsPath, PathModel};
use crate::text::{decimal, decimal_text};

verus! {

/// A local calendar time, as the platform's local-time conversion gives it.
#[derive(Clone, Copy, Debug, PartialEq, Eq, Structural)]
pub struct LocalTime {
    /// Full year, e.g. 2025.
    pub year: u32,
    /// Month of the year, 1 to 12.
    pub month: u32,
    /// Day of the month, 1 to 31.
    pub day: u32,
    pub hour: u32,
    pub minute: u32,
    pub second: u32,
}

/// `n` in decimal, padded with a leading zero to at least two digits.
pub open spec fn two_digits(n: nat) -> Seq<char> {
    if n < 10 { seq!['0'] + decimal(n) } else { decimal(n) }
}

/// `x` in decimal, with a minus sign when negative.
pub open spec fn signed_decimal(x: int) -> Seq<char> {
    if x < 0 { seq!['-'] + decimal((-x) as nat) } else { decimal(x as nat) }
}

/// `MM_DD_YY-hh_mm_ss`: month, day, two-digit year, then the time of day.
pub open spec fn local_stamp(t: LocalTime) -> Seq<char> {
    two_digits(t.month as nat) + "_"@ + two_digits(t.day as nat) + "_"@
        + two_digits((t.year % 100) as nat) + "-"@ + two_digits(t.hour as nat) + "_"@
        + two_digits(t.minute as nat) + "_"@ + two_digits(t.second as nat)
}

/// The log timestamp: the local time when it is known, else the seconds
/// since the Unix epoch.
pub open spec fn log_stamp(local: Option<LocalTime>, epoch_secs: i64) -> Seq<char> {
    match local {
        Some(t) => local_stamp(t),
        None => signed_decimal(epoch_secs as int),
    }
}

fn two_digit_text(n: u32) -> (r: String)
    ensures
        r@ == two_digits(n as nat),
{
    let d = decimal_text(n as u64);
    if n < 10 {
        proof {
            reveal_strlit("0");
        }
        let r = String::from_str("0").concat(d.as_str());
        assert(r@ =~= seq!['0'] + decimal(n as nat));
        r
    } else {
        d
    }
}

fn signed_decimal_text(x: i64) -> (r: String)
    ensures
        r@ == signed_decimal(x as int),
{
    if x < 0 {
        let m: u64 = (0 - (x as i128)) as u64;
        proof {
            reveal_strlit("-");
        }
        let r = String::from_str("-").concat(decimal_text(m).as_str());
        assert(r@ =~= seq!['-'] + decimal((-x) as nat));
        r
    } else {
        decimal_text(x as u64)
    }
}

/// The timestamp that names a run's log file.
pub fn format_log_ts(local: &Option<LocalTime>, epoch_secs: i64) -> (r: String)
    ensures
        r@ == log_stamp(*local, epoch_secs),
{
    match local {
        Some(t) => {
            let r = two_digit_text(t.month)
                .concat("_")
                .concat(two_digit_text(t.day).as_str())
                .concat("_")
                .concat(two_digit_text(t.year % 100).as_str())
                .concat("-")
                .concat(two_digit_text(t.hour).as_str())
                .concat("_")
                .concat(two_digit_text(t.minute).as_str())
                .concat("_")
                .concat(two_digit_text(t.second).as_str());
            r
        },
        None => signed_decimal_text(epoch_secs),
    }
}

/// Where logs go: the per-user data directory when it is known, else a
/// `logs` directory under the working directory.
pub fn log_directory(data_dir: &Option<FsPath>, cwd: &FsPath) -> (r: FsPath)
    ensures
        r@ == match data_dir {
            Some(d) => d@,
            None => cwd@.join("logs"@),
        },
{
    match data_dir {
        Some(d) => d.duplicate(),
        None => cwd.join("logs"),
    }
}

/// The log file of a run: `<stamp>.log` in the log directory.
pub fn log_file_path(dir: &FsPath, stamp: &str) -> (r: FsPath)
    ensures
        r@ == dir@.join(stamp@ + ".log"@),
{
    let name = String::from_str(stamp).concat(".log");
    dir.join(name.as_str())
}

} // verus!
