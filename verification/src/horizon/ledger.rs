use vstd::prelude::*;

use crate::client::Client;
use crate::config::AppConfig;
use crate::error::Error;
use crate::horizon::Paging;
use crate::horizon::Streaming;
use crate::horizon::execute_and_print_request;
use crate::horizon::execute_and_print_stream_request;
use crate::horizon::executed_listing;
use crate::horizon::executed_single;
use crate::render::Renderer;
use crate::request::Descriptor;
use crate::request::Endpoint;
use crate::request::fresh;

verus! {

/// The ledger lookups: the whole list, or a single ledger by id.
#[derive(Debug)]
pub enum LedgerCommand {
    All(AllLedgersCommand),
    Single(SingleLedgerCommand),
}

/// Fetches one ledger by its id.
#[derive(Debug)]
pub struct SingleLedgerCommand {
    pub ledger_id: i32,
}

/// Lists ledgers, paged or streamed.
#[derive(Debug)]
pub struct AllLedgersCommand {
    pub paging: Paging,
    pub streaming: Streaming,
}

/// What running a ledger command does to the client and the output.
pub open spec fn ledger_command_post<C: Client>(
    command: LedgerCommand,
    pre: C,
    post: C,
    res: Result<(), Error>,
    before: Seq<crate::render::RenderValue>,
    after: Seq<crate::render::RenderValue>,
) -> bool {
    match command {
        LedgerCommand::All(cmd) => executed_listing(
            pre,
            post,
            fresh(Endpoint::Ledgers),
            cmd.paging,
            cmd.streaming,
            res,
            before,
            after,
        ),
        LedgerCommand::Single(cmd) => executed_single(
            pre,
            post,
            fresh(Endpoint::Ledger { ledger_id: cmd.ledger_id }),
            res,
            before,
            after,
        ),
    }
}

/// Dispatches a ledger command to its strategy.
pub fn run_command<C: Client, R: Renderer>(
    out: &mut R,
    config: &AppConfig,
    client: &mut C,
    command: LedgerCommand,
) -> (res: Result<(), Error>)
    ensures
        ledger_command_post(
            command,
            *old(client),
            *final(client),
            res,
            old(out).rendered(),
            final(out).rendered(),
        ),
{
    match command {
        LedgerCommand::All(cmd) => run_all(out, config, client, cmd),
        LedgerCommand::Single(cmd) => run_single(out, config, client, cmd),
    }
}

/// Lists ledgers: applies the paging options and fetches one page or
/// opens a live stream.
pub fn run_all<C: Client, R: Renderer>(
    out: &mut R,
    _config: &AppConfig,
    client: &mut C,
    command: AllLedgersCommand,
) -> (res: Result<(), Error>)
    ensures
        executed_listing(
            *old(client),
            *final(client),
            fresh(Endpoint::Ledgers),
            command.paging,
            command.streaming,
            res,
            old(out).rendered(),
            final(out).rendered(),
        ),
{
    let request = Descriptor::new(Endpoint::Ledgers);
    execute_and_print_stream_request(out, client, request, &command.paging, &command.streaming)
}

/// Fetches one ledger by id and renders what comes back.
pub fn run_single<C: Client, R: Renderer>(
    out: &mut R,
    _config: &AppConfig,
    client: &mut C,
    command: SingleLedgerCommand,
) -> (res: Result<(), Error>)
    ensures
        executed_single(
            *old(client),
            *final(client),
            fresh(Endpoint::Ledger { ledger_id: command.ledger_id }),
            res,
            old(out).rendered(),
            final(out).rendered(),
        ),
{
    let request = Descriptor::new(Endpoint::Ledger { ledger_id: command.ledger_id });
    execute_and_print_request(out, client, request)
}

} // verus!
