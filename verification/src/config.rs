//! The configuration: where the notes are.

use vstd::prelude::*;
use vstd::string::*;

verus! {

/// The notes directory that is used where none is configured: the current
/// working directory.
pub open spec fn default_path() -> Seq<char> {
    seq!['.']
}

/// The configuration of the note finder.
#[derive(Debug, PartialEq, Eq)]
pub struct Config {
    /// The notes directory.
    pub path: String,
}

impl Default for Config {
    /// The configuration without a configuration file: the notes are in the
    /// current working directory.
    fn default() -> (config: Config)
        ensures
            config.path@ == default_path(),
    {
        proof {
            reveal_strlit(".");
        }
        let path = String::from_str(".");
        assert(path@ =~= default_path());
        Config { path }
    }
}

impl Config {
    /// The configuration to use, given what the configuration file held:
    /// that, or the default where the file is missing or cannot be
    /// understood.
    pub fn or_default(loaded: Option<Config>) -> (config: Config)
        ensures
            loaded matches Some(given) ==> config == given,
            loaded is None ==> config.path@ == default_path(),
    {
        match loaded {
            Some(given) => given,
            None => Config::default(),
        }
    }
}

} // verus!
