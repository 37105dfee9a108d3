//! What the command line asks for.

use vstd::prelude::*;
use crate::settings::Mode;

verus! {

/// The run to start.
#[derive(Clone, Copy, Debug, PartialEq, Eq, Structural)]
pub enum Command {
    Weekly,
    Monthly,
}

/// The arguments of the program.
#[derive(Clone, Debug, PartialEq, Eq)]
pub struct Args {
    /// Where to read the environment file and the configuration from.
    pub workdir: Option<String>,
    /// The configuration file.
    pub config: Option<String>,
    /// Only test the configuration.
    pub test_config: bool,
    /// Do not show the options.
    pub no_show_opts: bool,
    /// The run to start, if any.
    pub cmd: Option<Command>,
}

/// The configuration file that is read when none is named.
pub open spec fn default_config() -> Seq<char> {
    seq!['c', 'o', 'n', 'f', 'i', 'g', '.', 'y', 'a', 'm', 'l']
}

impl Command {
    /// The mode of the run that the command starts.
    pub open spec fn spec_mode(self) -> Mode {
        match self {
            Command::Weekly => Mode::Weekly,
            Command::Monthly => Mode::Monthly,
        }
    }

    /// The mode of the run that the command starts.
    pub fn mode(self) -> (mode: Mode)
        ensures
            mode == self.spec_mode(),
    {
        match self {
            Command::Weekly => Mode::Weekly,
            Command::Monthly => Mode::Monthly,
        }
    }
}

impl Args {
    /// The configuration file to read: the one the arguments name, else the
    /// one the environment names, else `config.yaml`.
    pub fn config_path(&self, from_environment: Option<String>) -> (path: String)
        ensures
            path@ == match (self.config, from_environment) {
                (Some(named), _) => named@,
                (None, Some(other)) => other@,
                (None, None) => default_config(),
            },
    {
        match &self.config {
            Some(named) => named.clone(),
            None => match from_environment {
                Some(other) => other,
                None => {
                    proof {
                        reveal_strlit("config.yaml");
                    }
                    let path = "config.yaml".to_owned();
                    assert(path@ =~= default_config());
                    path
                },
            },
        }
    }
}

} // verus!
