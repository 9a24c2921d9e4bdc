//! Where a run writes: `<reports_root>/<name>_<YYYYMMDD_HHMMSS>/<file>`.

use crate::filename::{name_for_url, url_to_filename};
use crate::text::{push_char, push_str};
use crate::timestamp::{format_timestamp, local_now, stamp_text, Timestamp};
use vstd::prelude::*;

verus! {

/// `leaf` placed under `dir`, as a path join does: an absolute `leaf`
/// replaces `dir`, an empty `dir` adds nothing, and a separator is put
/// between the two unless `dir` already ends with one.
pub open spec fn joined(dir: Seq<char>, leaf: Seq<char>) -> Seq<char> {
    if leaf.len() > 0 && leaf[0] == '/' {
        leaf
    } else if dir.len() == 0 {
        leaf
    } else if dir.last() == '/' {
        dir + leaf
    } else {
        dir.push('/') + leaf
    }
}

/// The name of a run directory: `{name}_{YYYYMMDD_HHMMSS}`.
pub open spec fn run_dir_text(name: Seq<char>, t: Timestamp) -> Seq<char> {
    name.push('_') + stamp_text(t)
}

/// The run directory under the reports root.
pub open spec fn output_dir_text(root: Seq<char>, name: Seq<char>, t: Timestamp) -> Seq<char> {
    joined(root, run_dir_text(name, t))
}

/// Places `leaf` under `dir`.
pub fn join_path(dir: &str, leaf: &str) -> (r: String)
    ensures
        r@ == joined(dir@, leaf@),
{
    let n = dir.unicode_len();
    if leaf.unicode_len() > 0 && leaf.get_char(0) == '/' {
        leaf.to_owned()
    } else if n == 0 {
        leaf.to_owned()
    } else if dir.get_char(n - 1) == '/' {
        let mut s = dir.to_owned();
        push_str(&mut s, leaf);
        s
    } else {
        let mut s = dir.to_owned();
        push_char(&mut s, '/');
        push_str(&mut s, leaf);
        s
    }
}

/// The name of the run directory for `name` started at `t`.
pub fn run_dir_name(name: &str, t: &Timestamp) -> (r: String)
    ensures
        r@ == run_dir_text(name@, *t),
{
    let mut s = name.to_owned();
    push_char(&mut s, '_');
    let stamp = format_timestamp(t);
    push_str(&mut s, stamp.as_str());
    s
}

/// The run directory for `name` started at `t`, under `reports_root`.
pub fn output_dir(reports_root: &str, name: &str, t: &Timestamp) -> (r: String)
    ensures
        r@ == output_dir_text(reports_root@, name@, *t),
{
    let leaf = run_dir_name(name, t);
    join_path(reports_root, leaf.as_str())
}

/// The run directory for `name` started now, under `reports_root`.
pub fn output_dir_now(reports_root: &str, name: &str) -> (r: String)
    ensures
        exists|t: Timestamp| t.valid() && r@ == output_dir_text(reports_root@, name@, t),
{
    let t = local_now();
    output_dir(reports_root, name, &t)
}

/// The path of the report for `url` in the run directory `dir`.
pub fn report_path(dir: &str, url: &str, prefix: &str) -> (r: String)
    ensures
        r@ == joined(dir@, name_for_url(url@, prefix@)),
{
    let file = url_to_filename(url, prefix);
    join_path(dir, file.as_str())
}

} // verus!
