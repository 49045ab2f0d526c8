use vstd::prelude::*;
use vstd::string::StringExecFns;

pub mod types;

use crate::config::types::{default_config, Config, ConfigView};

verus! {

/// The name of the configuration file inside the per-user configuration directory.
pub const CONFIG_FILE: &'static str = "config.toml";

/// Appended to the configuration file's path to name the file that a new
/// configuration is written to before it is renamed into place.
pub const TEMP_SUFFIX: &'static str = ".tmp";

/// What loading the configuration from a path has to do, given what is
/// found there.
pub enum LoadPlan {
    /// Nothing is there: write this configuration to the path and use it.
    CreateDefault(Config),
    /// A regular file is there: read it and parse it.
    ReadFile,
    /// Something that is not a regular file is there: fail.
    NotAFile,
}

pub open spec fn plan_creates(r: LoadPlan, c: ConfigView) -> bool {
    match r {
        LoadPlan::CreateDefault(d) => d@ == c,
        _ => false,
    }
}

/// Decides how to load the configuration at a path that does or does not
/// exist and is or is not a regular file. A missing file is created with
/// the default configuration, and the same configuration is the result.
pub fn plan_load(exists: bool, is_file: bool) -> (r: LoadPlan)
    ensures
        !exists ==> plan_creates(r, default_config()),
        exists && is_file ==> r is ReadFile,
        exists && !is_file ==> r is NotAFile,
{
    if !exists {
        LoadPlan::CreateDefault(Config::default())
    } else if !is_file {
        LoadPlan::NotAFile
    } else {
        LoadPlan::ReadFile
    }
}

/// The path that a new configuration file is written to before it is
/// renamed to `path`, so that no partly written file is ever left at `path`.
pub fn temp_path(path: &str) -> (r: String)
    ensures
        r@ == path@ + TEMP_SUFFIX@,
{
    String::from_str(path).concat(TEMP_SUFFIX)
}

} // verus!
