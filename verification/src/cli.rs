//! The command line of the service.

use vstd::prelude::*;

verus! {

/// The path of the configuration file when none is given.
pub open spec fn default_config_path() -> Seq<char> {
    "config/owasu.yaml"@
}

/// The options that the service is started with.
#[derive(Debug, Clone)]
pub struct Options {
    config: String,
}

impl Options {
    /// The path of the configuration file that these options name.
    pub closed spec fn spec_config_path(&self) -> Seq<char> {
        self.config@
    }

    /// Options naming the configuration file given with `--config`, or
    /// `config/owasu.yaml` when the flag was left out.
    pub fn new(config: Option<String>) -> (options: Options)
        ensures
            options.spec_config_path() == match config {
                Some(path) => path@,
                None => default_config_path(),
            },
            config is None ==> options.spec_config_path() == "config/owasu.yaml"@,
    {
        match config {
            Some(path) => Options { config: path },
            None => Options { config: String::from_str("config/owasu.yaml") },
        }
    }

    /// The path of the configuration file.
    pub fn get_config_path(&self) -> (path: &str)
        ensures
            path@ == self.spec_config_path(),
    {
        self.config.as_str()
    }
}

} // verus!
