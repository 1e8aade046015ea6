use vstd::prelude::*;

use crate::client::Client;
use crate::config::AppConfig;
use crate::error::Error;
use crate::horizon::execute_and_print_request;
use crate::horizon::executed_single;
use crate::horizon::rejected_input;
use crate::render::RenderValue;
use crate::render::Renderer;
use crate::request::Descriptor;
use crate::request::Endpoint;
use crate::request::fresh;
use crate::stellar;
use crate::stellar::account_id_ok;

verus! {
/// The account lookups: a single account by id.
#[derive(Debug)]
pub enum AccountCommand {
    Single(SingleAccountCommand),
}

/// Fetches information about a single account.
#[derive(Debug)]
pub struct SingleAccountCommand {
    pub account_id: String,
}

/// What running a account command does to the client and the output.
pub open spec fn account_command_post<C: Client>(
    command: AccountCommand,
    pre: C,
    post: C,
    res: Result<(), Error>,
    before: Seq<RenderValue>,
    after: Seq<RenderValue>,
) -> bool {
    match command {
        AccountCommand::Single(cmd) => if account_id_ok(cmd.account_id@) {
            executed_single(pre, post, fresh(Endpoint::Account { account_id: cmd.account_id }), res, before, after)
        } else {
            rejected_input(pre, post, res, before, after)
        },
    }
}

/// Dispatches a account command to its strategy.
pub fn run_command<C: Client, R: Renderer>(
    out: &mut R,
    config: &AppConfig,
    client: &mut C,
    command: AccountCommand,
) -> (res: Result<(), Error>)
    ensures
        account_command_post(
            command,
            *old(client),
            *final(client),
            res,
            old(out).rendered(),
            final(out).rendered(),
        ),
{
    match command {
        AccountCommand::Single(cmd) => run_single(out, config, client, cmd),
    }
}

/// Fetches one account by id and renders what comes back.
pub fn run_single<C: Client, R: Renderer>(
    out: &mut R,
    _config: &AppConfig,
    client: &mut C,
    command: SingleAccountCommand,
) -> (res: Result<(), Error>)
    ensures
        account_id_ok(command.account_id@) ==> executed_single(*old(client), *final(client), fresh(Endpoint::Account { account_id: command.account_id }), res, old(out).rendered(), final(out).rendered()),
        !account_id_ok(command.account_id@) ==> rejected_input(
            *old(client),
            *final(client),
            res,
            old(out).rendered(),
            final(out).rendered(),
        ),
{
    match stellar::parse_public_key(command.account_id.as_str()) {
        Ok(_) => (),
        Err(e) => {
            return Err(e);
        },
    }
    let request = Descriptor::new(Endpoint::Account { account_id: command.account_id });
    execute_and_print_request(out, client, request)
}

} // verus!
