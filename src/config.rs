//! Run configuration, resolved once at startup from the environment and
//! the command line.

use vstd::prelude::*;

verus! {

/// Why a configuration cannot be resolved.
#[derive(Debug, PartialEq, Eq, Structural)]
pub enum ConfigError {
    /// No non-empty run name was given.
    MissingName,
}

/// The immutable settings of one run.
pub struct Config {
    pub name: String,
    pub input_file: String,
    pub reports_root: String,
    pub report_prefix: String,
}

/// The prefix used when none is configured.
pub open spec fn default_prefix() -> Seq<char> {
    seq!['r', 'e', 'p', 'o', 'r', 't']
}

/// The run name: a non-empty environment value wins over a non-empty flag.
pub open spec fn chosen_name(env_name: Option<Seq<char>>, flag_name: Option<Seq<char>>) -> Option<Seq<char>> {
    if env_name is Some && env_name->0.len() > 0 {
        env_name
    } else if flag_name is Some && flag_name->0.len() > 0 {
        flag_name
    } else {
        None
    }
}

/// The view of an optional string.
pub open spec fn opt_view(o: Option<String>) -> Option<Seq<char>> {
    match o {
        Some(s) => Some(s@),
        None => None,
    }
}

/// Picks the run name from an environment value and a command-line flag.
pub fn resolve_name(env_name: Option<String>, flag_name: Option<String>) -> (r: Result<String, ConfigError>)
    ensures
        chosen_name(opt_view(env_name), opt_view(flag_name)) is Some ==> r is Ok && r->Ok_0@
            == chosen_name(opt_view(env_name), opt_view(flag_name))->0,
        chosen_name(opt_view(env_name), opt_view(flag_name)) is None ==> r == Err::<String, ConfigError>(ConfigError::MissingName),
{
    match env_name {
        Some(n) if n.as_str().unicode_len() > 0 => {
            return Ok(n);
        },
        _ => {},
    }
    match flag_name {
        Some(n) if n.as_str().unicode_len() > 0 => Ok(n),
        _ => Err(ConfigError::MissingName),
    }
}

/// The report prefix: the configured value, or `report` when none is set.
pub fn resolve_prefix(env_prefix: Option<String>) -> (r: String)
    ensures
        env_prefix is Some ==> r@ == env_prefix->0@,
        env_prefix is None ==> r@ == default_prefix(),
{
    match env_prefix {
        Some(p) => p,
        None => {
            let r = "report".to_owned();
            proof {
                reveal_strlit("report");
            }
            assert(r@ =~= default_prefix());
            r
        },
    }
}

impl Config {
    /// Builds the configuration of a run, failing when no run name is given.
    pub fn resolve(
        env_name: Option<String>,
        flag_name: Option<String>,
        input_file: String,
        reports_root: String,
        env_prefix: Option<String>,
    ) -> (r: Result<Config, ConfigError>)
        ensures
            chosen_name(opt_view(env_name), opt_view(flag_name)) is None ==> r is Err,
            chosen_name(opt_view(env_name), opt_view(flag_name)) is Some ==> r is Ok && ({
                let c = r->Ok_0;
                &&& c.name@ == chosen_name(opt_view(env_name), opt_view(flag_name))->0
                &&& c.input_file == input_file
                &&& c.reports_root == reports_root
                &&& env_prefix is Some ==> c.report_prefix@ == env_prefix->0@
                &&& env_prefix is None ==> c.report_prefix@ == default_prefix()
            }),
    {
        let name = match resolve_name(env_name, flag_name) {
            Ok(n) => n,
            Err(e) => {
                return Err(e);
            },
        };
        let report_prefix = resolve_prefix(env_prefix);
        Ok(Config { name, input_file, reports_root, report_prefix })
    }
}

} // verus!
