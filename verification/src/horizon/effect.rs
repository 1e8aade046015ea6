use vstd::prelude::*;

use crate::client::Client;
use crate::config::AppConfig;
use crate::error::Error;
use crate::horizon::Paging;
use crate::horizon::Streaming;
use crate::horizon::execute_and_print_page_request;
use crate::horizon::execute_and_print_stream_request;
use crate::horizon::executed_listing;
use crate::horizon::executed_paged;
use crate::horizon::rejected_input;
use crate::render::RenderValue;
use crate::render::Renderer;
use crate::request::Descriptor;
use crate::request::Endpoint;
use crate::request::fresh;
use crate::stellar;
use crate::stellar::account_id_ok;

verus! {
/// The effect lookups: the whole list, or the lists filtered by account, ledger, operation or transaction.
#[derive(Debug)]
pub enum EffectCommand {
    All(AllEffectsCommand),
    ForAccount(EffectsForAccountCommand),
    ForLedger(EffectsForLedgerCommand),
    ForOperation(EffectsForOperationCommand),
    ForTransaction(EffectsForTransactionCommand),
}

/// Lists effects.
#[derive(Debug)]
pub struct AllEffectsCommand {
    pub paging: Paging,
    pub streaming: Streaming,
}

/// Lists the effects of one account.
#[derive(Debug)]
pub struct EffectsForAccountCommand {
    pub account_id: String,
    pub paging: Paging,
    pub streaming: Streaming,
}

/// Lists the effects of one ledger.
#[derive(Debug)]
pub struct EffectsForLedgerCommand {
    pub ledger_id: i32,
    pub paging: Paging,
    pub streaming: Streaming,
}

/// Lists the effects of one operation.
#[derive(Debug)]
pub struct EffectsForOperationCommand {
    pub operation_id: String,
    pub paging: Paging,
}

/// Lists the effects of one transaction.
#[derive(Debug)]
pub struct EffectsForTransactionCommand {
    pub transaction_id: String,
    pub paging: Paging,
}

/// What running a effect command does to the client and the output.
pub open spec fn effect_command_post<C: Client>(
    command: EffectCommand,
    pre: C,
    post: C,
    res: Result<(), Error>,
    before: Seq<RenderValue>,
    after: Seq<RenderValue>,
) -> bool {
    match command {
        EffectCommand::All(cmd) => executed_listing(pre, post, fresh(Endpoint::Effects), cmd.paging, cmd.streaming, res, before, after),
        EffectCommand::ForAccount(cmd) => if account_id_ok(cmd.account_id@) {
            executed_listing(pre, post, fresh(Endpoint::EffectsForAccount { account_id: cmd.account_id }), cmd.paging, cmd.streaming, res, before, after)
        } else {
            rejected_input(pre, post, res, before, after)
        },
        EffectCommand::ForLedger(cmd) => executed_listing(pre, post, fresh(Endpoint::EffectsForLedger { ledger_id: cmd.ledger_id }), cmd.paging, cmd.streaming, res, before, after),
        EffectCommand::ForOperation(cmd) => executed_paged(pre, post, fresh(Endpoint::EffectsForOperation { operation_id: cmd.operation_id }), cmd.paging, res, before, after),
        EffectCommand::ForTransaction(cmd) => executed_paged(pre, post, fresh(Endpoint::EffectsForTransaction { transaction_id: cmd.transaction_id }), cmd.paging, res, before, after),
    }
}

/// Dispatches a effect command to its strategy.
pub fn run_command<C: Client, R: Renderer>(
    out: &mut R,
    config: &AppConfig,
    client: &mut C,
    command: EffectCommand,
) -> (res: Result<(), Error>)
    ensures
        effect_command_post(
            command,
            *old(client),
            *final(client),
            res,
            old(out).rendered(),
            final(out).rendered(),
        ),
{
    match command {
        EffectCommand::All(cmd) => run_all(out, config, client, cmd),
        EffectCommand::ForAccount(cmd) => run_for_account(out, config, client, cmd),
        EffectCommand::ForLedger(cmd) => run_for_ledger(out, config, client, cmd),
        EffectCommand::ForOperation(cmd) => run_for_operation(out, config, client, cmd),
        EffectCommand::ForTransaction(cmd) => run_for_transaction(out, config, client, cmd),
    }
}

/// Lists effects, paged or streamed.
pub fn run_all<C: Client, R: Renderer>(
    out: &mut R,
    _config: &AppConfig,
    client: &mut C,
    command: AllEffectsCommand,
) -> (res: Result<(), Error>)
    ensures
        executed_listing(*old(client), *final(client), fresh(Endpoint::Effects), command.paging, command.streaming, res, old(out).rendered(), final(out).rendered()),
{
    let request = Descriptor::new(Endpoint::Effects);
    execute_and_print_stream_request(out, client, request, &command.paging, &command.streaming)
}

/// Lists the effects of one account, paged or streamed.
pub fn run_for_account<C: Client, R: Renderer>(
    out: &mut R,
    _config: &AppConfig,
    client: &mut C,
    command: EffectsForAccountCommand,
) -> (res: Result<(), Error>)
    ensures
        account_id_ok(command.account_id@) ==> executed_listing(*old(client), *final(client), fresh(Endpoint::EffectsForAccount { account_id: command.account_id }), command.paging, command.streaming, res, old(out).rendered(), final(out).rendered()),
        !account_id_ok(command.account_id@) ==> rejected_input(
            *old(client),
            *final(client),
            res,
            old(out).rendered(),
            final(out).rendered(),
        ),
{
    match stellar::parse_public_key(command.account_id.as_str()) {
        Ok(_) => (),
        Err(e) => {
            return Err(e);
        },
    }
    let request = Descriptor::new(Endpoint::EffectsForAccount { account_id: command.account_id });
    execute_and_print_stream_request(out, client, request, &command.paging, &command.streaming)
}

/// Lists the effects of one ledger, paged or streamed.
pub fn run_for_ledger<C: Client, R: Renderer>(
    out: &mut R,
    _config: &AppConfig,
    client: &mut C,
    command: EffectsForLedgerCommand,
) -> (res: Result<(), Error>)
    ensures
        executed_listing(*old(client), *final(client), fresh(Endpoint::EffectsForLedger { ledger_id: command.ledger_id }), command.paging, command.streaming, res, old(out).rendered(), final(out).rendered()),
{
    let request = Descriptor::new(Endpoint::EffectsForLedger { ledger_id: command.ledger_id });
    execute_and_print_stream_request(out, client, request, &command.paging, &command.streaming)
}

/// Lists the effects of one operation, one page at a time.
pub fn run_for_operation<C: Client, R: Renderer>(
    out: &mut R,
    _config: &AppConfig,
    client: &mut C,
    command: EffectsForOperationCommand,
) -> (res: Result<(), Error>)
    ensures
        executed_paged(*old(client), *final(client), fresh(Endpoint::EffectsForOperation { operation_id: command.operation_id }), command.paging, res, old(out).rendered(), final(out).rendered()),
{
    let request = Descriptor::new(Endpoint::EffectsForOperation { operation_id: command.operation_id });
    execute_and_print_page_request(out, client, request, &command.paging)
}

/// Lists the effects of one transaction, one page at a time.
pub fn run_for_transaction<C: Client, R: Renderer>(
    out: &mut R,
    _config: &AppConfig,
    client: &mut C,
    command: EffectsForTransactionCommand,
) -> (res: Result<(), Error>)
    ensures
        executed_paged(*old(client), *final(client), fresh(Endpoint::EffectsForTransaction { transaction_id: command.transaction_id }), command.paging, res, old(out).rendered(), final(out).rendered()),
{
    let request = Descriptor::new(Endpoint::EffectsForTransaction { transaction_id: command.transaction_id });
    execute_and_print_page_request(out, client, request, &command.paging)
}

} // verus!
