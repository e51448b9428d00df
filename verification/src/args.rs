use vstd::prelude::*;

use vstd::string::StringExecFns;

verus! {

/// The resolved command line: where the configuration file lives. Flag
/// parsing happens at the process boundary; this records its outcome and
/// supplies the documented default.
pub struct Args {
    pub config_path: String,
}

impl Args {
    /// Keeps the path given on the command line, or falls back to the
    /// default configuration file next to the process.
    pub fn new(config_path: Option<String>) -> (a: Args)
        ensures
            match config_path {
                Some(p) => a.config_path == p,
                None => a.config_path@ == "config.toml"@,
            },
    {
        match config_path {
            Some(p) => Args { config_path: p },
            None => Args { config_path: String::from_str("config.toml") },
        }
    }
}

} // verus!
