use vstd::prelude::*;

use crate::account;
use crate::client::Client;
use crate::config::AppConfig;
use crate::error::Error;
use crate::horizon;
use crate::render::RenderValue;
use crate::render::Renderer;

verus! {

/// The output format a process renders in; when none is chosen, the
/// surrounding shell infers one from whether output goes to a terminal.
#[derive(Clone, Copy, Debug, PartialEq, Eq)]
pub enum OutputFormat {
    Text,
    Json,
}

/// The whole command line: an optional output format and one command.
#[derive(Debug)]
pub struct Aurora {
    pub output: Option<OutputFormat>,
    pub command: Command,
}

/// The two command families: local account management, and everything
/// that talks to (or configures) a remote server.
#[derive(Debug)]
pub enum Command {
    Account(account::AccountCommand),
    Horizon(horizon::HorizonCommand),
}

/// What running one top-level command does to the configuration, the
/// client, and the output.
pub open spec fn command_post<C: Client>(
    command: Command,
    pre_config: AppConfig,
    post_config: AppConfig,
    pre: C,
    post: C,
    res: Result<(), Error>,
    before: Seq<RenderValue>,
    after: Seq<RenderValue>,
) -> bool {
    match command {
        Command::Account(cmd) => {
            &&& post.completed() == pre.completed()
            &&& account::account_command_post(cmd, pre_config, post_config, res, before, after)
        },
        Command::Horizon(cmd) => horizon::horizon_command_post(
            cmd,
            pre_config,
            post_config,
            pre,
            post,
            res,
            before,
            after,
        ),
    }
}

/// Runs one top-level command against the configuration, the client
/// capability, and the rendering capability.
pub fn run_command<C: Client, R: Renderer>(
    out: &mut R,
    config: &mut AppConfig,
    client: &mut C,
    command: Command,
) -> (res: Result<(), Error>)
    ensures
        command_post(
            command,
            *old(config),
            *final(config),
            *old(client),
            *final(client),
            res,
            old(out).rendered(),
            final(out).rendered(),
        ),
{
    match command {
        Command::Account(cmd) => account::run_command(out, config, cmd),
        Command::Horizon(cmd) => horizon::run_command(out, config, client, cmd),
    }
}

} // verus!
