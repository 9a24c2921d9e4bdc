//! The decisions of a batch run, one input line and one audit result at a
//! time. The caller reads the lines and runs the audit tool; a `Batch`
//! says which URL to audit, where its report goes, and when to stop.

use crate::audit::{audit_args, audit_args_text, views, Outcome, RunResult};
use crate::filename::name_for_url;
use crate::layout::{joined, report_path};
use crate::text::{is_white_space, lemma_trim, trim, trim_of};
use vstd::prelude::*;

verus! {

/// The URL entries a line contributes: its trimmed text, unless blank.
pub open spec fn entry_of(line: Seq<char>) -> Seq<Seq<char>> {
    if trim_of(line).len() == 0 {
        Seq::empty()
    } else {
        seq![trim_of(line)]
    }
}

/// A line made only of whitespace, or an empty one, gives no entry; any
/// other line gives one entry, its text without surrounding whitespace.
pub proof fn lemma_entry_of_line(line: Seq<char>)
    ensures
        (forall|k: int| 0 <= k < line.len() ==> is_white_space(#[trigger] line[k])) <==> entry_of(
            line,
        ).len() == 0,
        entry_of(line).len() == 1 ==> ({
            let e = entry_of(line)[0];
            &&& e == trim_of(line)
            &&& !is_white_space(e[0])
            &&& !is_white_space(e.last())
        }),
{
    let (i, j) = lemma_trim(line);
    if trim_of(line).len() > 0 {
        assert(trim_of(line)[0] == line[i]);
    } else {
        assert forall|k: int| 0 <= k < line.len() implies is_white_space(#[trigger] line[k]) by {
            if i <= k < j {
                assert(false);
            }
        }
    }
}

/// The URL entries of a list of lines, in order.
pub open spec fn entries(lines: Seq<Seq<char>>) -> Seq<Seq<char>>
    decreases lines.len(),
{
    if lines.len() == 0 {
        Seq::empty()
    } else {
        entries(lines.drop_last()) + entry_of(lines.last())
    }
}

/// Taking the lines one at a time yields the entries of all of them: each
/// line adds its own entry after those of the lines before it, every entry
/// is non-blank, and there are never more entries than lines.
pub proof fn lemma_entries_in_order(lines: Seq<Seq<char>>, line: Seq<char>)
    ensures
        entries(lines.push(line)) == entries(lines) + entry_of(line),
        entries(lines).len() <= lines.len(),
        forall|i: int| 0 <= i < entries(lines).len() ==> #[trigger] entries(lines)[i].len() > 0,
    decreases lines.len(),
{
    assert(lines.push(line).drop_last() =~= lines);
    if lines.len() > 0 {
        lemma_entries_in_order(lines.drop_last(), lines.last());
        assert(lines.drop_last().push(lines.last()) =~= lines);
    }
}

/// One audit to run.
pub struct AuditJob {
    pub url: String,
    pub report_path: String,
    pub args: Vec<String>,
}

/// The job for `url` with reports in `dir` named under `prefix`.
pub open spec fn job_for(job: AuditJob, url: Seq<char>, dir: Seq<char>, prefix: Seq<char>) -> bool {
    &&& job.url@ == url
    &&& job.report_path@ == joined(dir, name_for_url(url, prefix))
    &&& views(job.args@) == audit_args_text(url, job.report_path@)
}

/// The state of a run: where reports go, which URLs were handed out for
/// auditing, and whether the run has stopped.
pub struct Batch {
    output_dir: String,
    prefix: String,
    attempted: Vec<String>,
    stopped: bool,
}

/// What a `Batch` holds, as plain values.
pub struct BatchView {
    pub output_dir: Seq<char>,
    pub prefix: Seq<char>,
    pub attempted: Seq<Seq<char>>,
    pub stopped: bool,
}

impl View for Batch {
    type V = BatchView;

    closed spec fn view(&self) -> BatchView {
        BatchView {
            output_dir: self.output_dir@,
            prefix: self.prefix@,
            attempted: views(self.attempted@),
            stopped: self.stopped,
        }
    }
}

/// The trimmed URL of a line, or `None` for a blank line.
pub fn line_entry(line: &str) -> (r: Option<String>)
    ensures
        r is None <==> trim_of(line@).len() == 0,
        r is Some ==> r->0@ == trim_of(line@),
{
    let t = trim(line);
    if t.unicode_len() == 0 {
        None
    } else {
        Some(t.to_owned())
    }
}

/// The URLs of a list of lines: each trimmed, blank ones left out, in order.
pub fn url_entries(lines: &Vec<String>) -> (r: Vec<String>)
    ensures
        views(r@) == entries(views(lines@)),
{
    let mut r: Vec<String> = Vec::new();
    let mut i: usize = 0;
    while i < lines.len()
        invariant
            i <= lines@.len(),
            views(r@) == entries(views(lines@.take(i as int))),
        decreases lines@.len() - i,
    {
        let e = line_entry(lines[i].as_str());
        proof {
            assert(views(lines@.take(i + 1)).drop_last() =~= views(lines@.take(i as int)));
        }
        match e {
            Some(u) => {
                r.push(u);
            },
            None => {},
        }
        assert(views(r@) =~= entries(views(lines@.take(i + 1))));
        i = i + 1;
    }
    assert(lines@.take(lines@.len() as int) =~= lines@);
    r
}

impl Batch {
    /// A run that writes reports named under `prefix` into `output_dir`.
    pub fn new(output_dir: String, prefix: String) -> (r: Batch)
        ensures
            r@ == (BatchView {
                output_dir: output_dir@,
                prefix: prefix@,
                attempted: Seq::empty(),
                stopped: false,
            }),
    {
        let r = Batch { output_dir, prefix, attempted: Vec::new(), stopped: false };
        assert(views(r.attempted@) =~= Seq::empty());
        r
    }

    /// The URLs handed out for auditing so far, in order.
    pub fn attempted(&self) -> (r: &Vec<String>)
        ensures
            views(r@) == self@.attempted,
    {
        &self.attempted
    }

    /// Whether the run has stopped: no further URL will be handed out.
    pub fn is_stopped(&self) -> (r: bool)
        ensures
            r == self@.stopped,
    {
        self.stopped
    }

    /// The run directory.
    pub fn output_dir(&self) -> (r: &str)
        ensures
            r@ == self@.output_dir,
    {
        self.output_dir.as_str()
    }

    /// The job that audits the (already trimmed) `url` in this run.
    pub fn job_for_url(&self, url: &str) -> (r: AuditJob)
        ensures
            job_for(r, url@, self@.output_dir, self@.prefix),
    {
        let path = report_path(self.output_dir.as_str(), url, self.prefix.as_str());
        let args = audit_args(url, path.as_str());
        AuditJob { url: url.to_owned(), report_path: path, args }
    }

    /// Takes one line of the input. A blank line, or any line once the run
    /// has stopped, gives no job; any other line gives the job for its
    /// trimmed text, which counts as attempted.
    pub fn next_line(&mut self, line: &str) -> (r: Option<AuditJob>)
        ensures
            old(self)@.stopped ==> r is None && final(self)@ == old(self)@,
            !old(self)@.stopped ==> final(self)@ == (BatchView {
                attempted: old(self)@.attempted + entry_of(line@),
                ..old(self)@
            }),
            !old(self)@.stopped ==> (r is Some <==> trim_of(line@).len() > 0),
            r is Some ==> job_for(r->0, trim_of(line@), old(self)@.output_dir, old(self)@.prefix),
    {
        if self.stopped {
            return None;
        }
        match line_entry(line) {
            None => {
                assert(entry_of(line@) =~= Seq::empty());
                assert(old(self)@.attempted + entry_of(line@) =~= old(self)@.attempted);
                None
            },
            Some(url) => {
                let job = self.job_for_url(url.as_str());
                self.attempted.push(url);
                assert(views(self.attempted@) =~= old(self)@.attempted + entry_of(line@));
                Some(job)
            },
        }
    }

    /// Takes the result of running `job`. A run that ended in success or
    /// failure is reported and the batch goes on; a tool that could not be
    /// started stops the run.
    pub fn record(&mut self, job: &AuditJob, result: RunResult) -> (r: Outcome)
        ensures
            final(self)@ == (BatchView {
                stopped: old(self)@.stopped || result is LaunchFailed,
                ..old(self)@
            }),
            match result {
                RunResult::Exited { success: true, .. } => r matches Outcome::Success { report_path }
                    && report_path@ == job.report_path@,
                RunResult::Exited { success: false, stderr } => r matches Outcome::Failure {
                    url,
                    diagnostic,
                } && url@ == job.url@ && diagnostic@ == stderr@,
                RunResult::LaunchFailed { reason } => r matches Outcome::LaunchFailure {
                    url,
                    reason: why,
                } && url@ == job.url@ && why@ == reason@,
            },
    {
        match result {
            RunResult::Exited { success, stderr } => {
                if success {
                    Outcome::Success { report_path: job.report_path.clone() }
                } else {
                    Outcome::Failure { url: job.url.clone(), diagnostic: stderr }
                }
            },
            RunResult::LaunchFailed { reason } => {
                self.stopped = true;
                Outcome::LaunchFailure { url: job.url.clone(), reason }
            },
        }
    }
}

} // verus!
