//! The launch directive handed to the host: executable, arguments, environment.
use vstd::prelude::*;
use crate::error::{ErrorModel, LaunchError};
use crate::settings::{env_spec, env_vars, pairs_view, ServerSettings};

verus! {

/// The key of the server's settings block in the host's configuration.
pub const SETTINGS_KEY: &'static str = "gas";

/// The detail of the configuration error given when no settings block exists.
pub const MISSING_SETTINGS: &'static str = "missing gas settings";

/// The single argument that makes the server talk over standard streams.
pub const STDIO_ARG: &'static str = "stdio";

/// A command line for the host to run.
pub struct LaunchCommand {
    pub command: String,
    pub args: Vec<String>,
    pub env: Vec<(String, String)>,
}

/// The environment for the server from its settings block; a missing block is
/// a configuration error.
pub fn launch_env(settings: Option<ServerSettings>) -> (r: Result<Vec<(String, String)>, LaunchError>)
    ensures
        match settings {
            None => r matches Err(e) && e@ == ErrorModel::Configuration(MISSING_SETTINGS@),
            Some(s) => r matches Ok(env) && pairs_view(env@) == env_spec(s@),
        },
{
    match settings {
        None => Err(LaunchError::Configuration(String::from_str(MISSING_SETTINGS))),
        Some(s) => Ok(env_vars(s)),
    }
}

/// The launch directive: the executable, the single argument `stdio`, and the
/// environment as given.
pub fn launch_command(executable: String, env: Vec<(String, String)>) -> (r: LaunchCommand)
    ensures
        r.command@ == executable@,
        r.args@.len() == 1,
        r.args@[0]@ == STDIO_ARG@,
        r.env@ == env@,
{
    let mut args: Vec<String> = Vec::new();
    args.push(String::from_str(STDIO_ARG));
    LaunchCommand { command: executable, args, env }
}

} // verus!
