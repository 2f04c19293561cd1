use vstd::prelude::*;
use vstd::string::*;

verus! {

/// The command line: at most one subcommand.
pub struct AppCli {
    pub command: Option<SubCommands>,
}

pub enum SubCommands {
    /// Start the server.
    Start(StartArgs),
}

/// Arguments of `start`.
pub struct StartArgs {
    /// Configuration file path.
    pub path: String,
}

/// Arguments of `start` for the transformer binary.
pub struct StartServerArgs {
    /// Configuration file path.
    pub path: String,
}

impl StartArgs {
    pub fn with_default_path() -> (r: StartArgs)
        ensures
            r.path@ == "alert-transformer.yaml"@,
    {
        proof {
            reveal_strlit("alert-transformer.yaml");
        }
        StartArgs { path: String::from_str("alert-transformer.yaml") }
    }
}

impl StartServerArgs {
    pub fn with_default_path() -> (r: StartServerArgs)
        ensures
            r.path@ == "etc/alert-transformer.yaml"@,
    {
        proof {
            reveal_strlit("etc/alert-transformer.yaml");
        }
        StartServerArgs { path: String::from_str("etc/alert-transformer.yaml") }
    }
}

impl AppCli {
    /// The configuration path to start the server with, if `start` was given.
    pub fn start_path(&self) -> (r: Option<&String>)
        ensures
            match self.command {
                Some(SubCommands::Start(a)) => r == Some(&a.path),
                None => r.is_none(),
            },
    {
        match &self.command {
            Some(SubCommands::Start(a)) => Some(&a.path),
            None => None,
        }
    }
}

} // verus!
