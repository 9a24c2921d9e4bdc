//! The audit tool's command line, and what one audit run can end in.

use crate::text::push_str;
use vstd::prelude::*;

verus! {

/// The audit executable, looked up on the search path.
pub fn audit_program() -> (r: &'static str)
    ensures
        r@ == "lighthouse"@,
{
    "lighthouse"
}

/// The arguments of one audit: the URL, HTML output to `output_path`, and a
/// headless browser without sandbox or cache.
pub open spec fn audit_args_text(url: Seq<char>, output_path: Seq<char>) -> Seq<Seq<char>> {
    seq![
        url,
        "--output=html"@,
        "--output-path="@ + output_path,
        "--view"@,
        "--chrome-flags=--headless --no-sandbox --disable-cache"@,
    ]
}

/// The views of a list of strings.
pub open spec fn views(v: Seq<String>) -> Seq<Seq<char>> {
    v.map_values(|s: String| s@)
}

/// The command-line arguments that audit `url` into `output_path`.
pub fn audit_args(url: &str, output_path: &str) -> (r: Vec<String>)
    ensures
        views(r@) == audit_args_text(url@, output_path@),
{
    let mut path_flag = "--output-path=".to_owned();
    push_str(&mut path_flag, output_path);
    let r = vec![
        url.to_owned(),
        "--output=html".to_owned(),
        path_flag,
        "--view".to_owned(),
        "--chrome-flags=--headless --no-sandbox --disable-cache".to_owned(),
    ];
    assert(views(r@) =~= audit_args_text(url@, output_path@));
    r
}

/// What running the audit tool once reported.
pub enum RunResult {
    /// The process ran to its end; `stderr` is what it wrote there.
    Exited { success: bool, stderr: String },
    /// The process could not be started at all.
    LaunchFailed { reason: String },
}

/// How one URL's audit ended, as the batch reports it.
pub enum Outcome {
    /// The report was written to `report_path`.
    Success { report_path: String },
    /// The tool failed on `url`; `diagnostic` is its error output.
    Failure { url: String, diagnostic: String },
    /// The tool could not be started; the run stops here.
    LaunchFailure { url: String, reason: String },
}

} // verus!
