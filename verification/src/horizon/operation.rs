use vstd::prelude::*;

use crate::client::Client;
use crate::config::AppConfig;
use crate::error::Error;
use crate::horizon::Paging;
use crate::horizon::execute_and_print_page_request;
use crate::horizon::execute_and_print_request;
use crate::horizon::executed_paged;
use crate::horizon::executed_single;
use crate::horizon::rejected_input;
use crate::render::RenderValue;
use crate::render::Renderer;
use crate::request::Descriptor;
use crate::request::Endpoint;
use crate::request::fresh;
use crate::stellar;
use crate::stellar::account_id_ok;

verus! {
/// The operation lookups: the whole list, one by id, or the lists filtered by account or ledger.
#[derive(Debug)]
pub enum OperationCommand {
    All(AllOperationsCommand),
    Single(SingleOperationCommand),
    ForAccount(OperationsForAccountCommand),
    ForLedger(OperationsForLedgerCommand),
}

/// Fetches one operation by its id.
#[derive(Debug)]
pub struct SingleOperationCommand {
    pub operation_id: String,
}

/// Lists operations, optionally including failed ones.
#[derive(Debug)]
pub struct AllOperationsCommand {
    pub include_failed: bool,
    pub paging: Paging,
}

/// Lists the operations of one account.
#[derive(Debug)]
pub struct OperationsForAccountCommand {
    pub account_id: String,
    pub include_failed: bool,
    pub paging: Paging,
}

/// Lists the operations of one ledger.
#[derive(Debug)]
pub struct OperationsForLedgerCommand {
    pub ledger_id: i32,
    pub include_failed: bool,
    pub paging: Paging,
}

/// What running a operation command does to the client and the output.
pub open spec fn operation_command_post<C: Client>(
    command: OperationCommand,
    pre: C,
    post: C,
    res: Result<(), Error>,
    before: Seq<RenderValue>,
    after: Seq<RenderValue>,
) -> bool {
    match command {
        OperationCommand::All(cmd) => executed_paged(pre, post, fresh(Endpoint::Operations { include_failed: cmd.include_failed }), cmd.paging, res, before, after),
        OperationCommand::Single(cmd) => executed_single(pre, post, fresh(Endpoint::Operation { operation_id: cmd.operation_id }), res, before, after),
        OperationCommand::ForAccount(cmd) => if account_id_ok(cmd.account_id@) {
            executed_paged(pre, post, fresh(Endpoint::OperationsForAccount { account_id: cmd.account_id, include_failed: cmd.include_failed }), cmd.paging, res, before, after)
        } else {
            rejected_input(pre, post, res, before, after)
        },
        OperationCommand::ForLedger(cmd) => executed_paged(pre, post, fresh(Endpoint::OperationsForLedger { ledger_id: cmd.ledger_id, include_failed: cmd.include_failed }), cmd.paging, res, before, after),
    }
}

/// Dispatches a operation command to its strategy.
pub fn run_command<C: Client, R: Renderer>(
    out: &mut R,
    config: &AppConfig,
    client: &mut C,
    command: OperationCommand,
) -> (res: Result<(), Error>)
    ensures
        operation_command_post(
            command,
            *old(client),
            *final(client),
            res,
            old(out).rendered(),
            final(out).rendered(),
        ),
{
    match command {
        OperationCommand::All(cmd) => run_all(out, config, client, cmd),
        OperationCommand::Single(cmd) => run_single(out, config, client, cmd),
        OperationCommand::ForAccount(cmd) => run_for_account(out, config, client, cmd),
        OperationCommand::ForLedger(cmd) => run_for_ledger(out, config, client, cmd),
    }
}

/// Lists operations, one page at a time.
pub fn run_all<C: Client, R: Renderer>(
    out: &mut R,
    _config: &AppConfig,
    client: &mut C,
    command: AllOperationsCommand,
) -> (res: Result<(), Error>)
    ensures
        executed_paged(*old(client), *final(client), fresh(Endpoint::Operations { include_failed: command.include_failed }), command.paging, res, old(out).rendered(), final(out).rendered()),
{
    let request = Descriptor::new(Endpoint::Operations { include_failed: command.include_failed });
    execute_and_print_page_request(out, client, request, &command.paging)
}

/// Fetches one operation by id.
pub fn run_single<C: Client, R: Renderer>(
    out: &mut R,
    _config: &AppConfig,
    client: &mut C,
    command: SingleOperationCommand,
) -> (res: Result<(), Error>)
    ensures
        executed_single(*old(client), *final(client), fresh(Endpoint::Operation { operation_id: command.operation_id }), res, old(out).rendered(), final(out).rendered()),
{
    let request = Descriptor::new(Endpoint::Operation { operation_id: command.operation_id });
    execute_and_print_request(out, client, request)
}

/// Lists the operations of one account, one page at a time.
pub fn run_for_account<C: Client, R: Renderer>(
    out: &mut R,
    _config: &AppConfig,
    client: &mut C,
    command: OperationsForAccountCommand,
) -> (res: Result<(), Error>)
    ensures
        account_id_ok(command.account_id@) ==> executed_paged(*old(client), *final(client), fresh(Endpoint::OperationsForAccount { account_id: command.account_id, include_failed: command.include_failed }), command.paging, res, old(out).rendered(), final(out).rendered()),
        !account_id_ok(command.account_id@) ==> rejected_input(
            *old(client),
            *final(client),
            res,
            old(out).rendered(),
            final(out).rendered(),
        ),
{
    match stellar::parse_public_key(command.account_id.as_str()) {
        Ok(_) => (),
        Err(e) => {
            return Err(e);
        },
    }
    let request = Descriptor::new(Endpoint::OperationsForAccount { account_id: command.account_id, include_failed: command.include_failed });
    execute_and_print_page_request(out, client, request, &command.paging)
}

/// Lists the operations of one ledger, one page at a time.
pub fn run_for_ledger<C: Client, R: Renderer>(
    out: &mut R,
    _config: &AppConfig,
    client: &mut C,
    command: OperationsForLedgerCommand,
) -> (res: Result<(), Error>)
    ensures
        executed_paged(*old(client), *final(client), fresh(Endpoint::OperationsForLedger { ledger_id: command.ledger_id, include_failed: command.include_failed }), command.paging, res, old(out).rendered(), final(out).rendered()),
{
    let request = Descriptor::new(Endpoint::OperationsForLedger { ledger_id: command.ledger_id, include_failed: command.include_failed });
    execute_and_print_page_request(out, client, request, &command.paging)
}

} // verus!
