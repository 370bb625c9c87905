use vstd::prelude::*;

use crate::paths::{FsPath, PathModel};
use crate::text::{decimal, decimal_text, parse_u32, parse_u32_text};

verus! {

/// `s` without its leading and trailing Unicode white space, as `str::trim`
/// returns it.
pub uninterp spec fn trimmed(s: Seq<char>) -> Seq<char>;

/// Relies on `str::trim`: the result depends on the characters alone.
#[verifier::external_body]
fn trim_text(s: &str) -> (r: &str)
    ensures
        r@ == trimmed(s@),
{
    s.trim()
}

/// Name of the pid record inside the per-user data directory.
pub open spec fn pid_file_name() -> Seq<char> {
    "bridge.pid"@
}

/// Where the pid record lives, given the per-user data directory.
pub fn pid_record_path(data_dir: &FsPath) -> (r: FsPath)
    ensures
        r@ == data_dir@.join(pid_file_name()),
{
    data_dir.join("bridge.pid")
}

/// The pid a record's content names: its trimmed text read as a `u32`.
/// Malformed content names no pid.
pub open spec fn pid_in_record(content: Seq<char>) -> Option<u32> {
    parse_u32(trimmed(content))
}

/// Reads a pid record's content; anything that is not a decimal `u32`
/// after trimming counts as no record.
pub fn parse_pid_record(content: &str) -> (r: Option<u32>)
    ensures
        r == pid_in_record(content@),
{
    parse_u32_text(trim_text(content))
}

/// The content written to the pid record for `pid`.
pub fn pid_record_text(pid: u32) -> (r: String)
    ensures
        r@ == decimal(pid as nat),
{
    decimal_text(pid as u64)
}

/// The text written for a pid reads back, as a `u32`, as that same pid.
pub proof fn record_text_reads_back(pid: u32)
    ensures
        parse_u32(decimal(pid as nat)) == Some(pid),
{
    crate::text::lemma_decimal_digits(pid as nat);
}

} // verus!
