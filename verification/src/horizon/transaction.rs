use vstd::prelude::*;

use crate::client::Client;
use crate::config::AppConfig;
use crate::error::Error;
use crate::horizon::Paging;
use crate::horizon::execute_and_print_page_request;
use crate::horizon::execute_and_print_request;
use crate::horizon::executed_paged;
use crate::horizon::executed_single;
use crate::horizon::rejected_input;
use crate::render::RenderValue;
use crate::render::Renderer;
use crate::request::Descriptor;
use crate::request::Endpoint;
use crate::request::fresh;
use crate::stellar;
use crate::stellar::account_id_ok;

verus! {
/// The transaction lookups: the whole list, one by id, or the lists filtered by account or ledger.
#[derive(Debug)]
pub enum TransactionCommand {
    All(AllTransactionsCommand),
    Single(SingleTransactionCommand),
    ForAccount(TransactionsForAccountCommand),
    ForLedger(TransactionsForLedgerCommand),
}

/// Fetches one transaction by its id.
#[derive(Debug)]
pub struct SingleTransactionCommand {
    pub transaction_id: String,
}

/// Lists transactions, optionally including failed ones.
#[derive(Debug)]
pub struct AllTransactionsCommand {
    pub include_failed: bool,
    pub paging: Paging,
}

/// Lists the transactions of one account.
#[derive(Debug)]
pub struct TransactionsForAccountCommand {
    pub account_id: String,
    pub include_failed: bool,
    pub paging: Paging,
}

/// Lists the transactions of one ledger.
#[derive(Debug)]
pub struct TransactionsForLedgerCommand {
    pub ledger_id: i32,
    pub include_failed: bool,
    pub paging: Paging,
}

/// What running a transaction command does to the client and the output.
pub open spec fn transaction_command_post<C: Client>(
    command: TransactionCommand,
    pre: C,
    post: C,
    res: Result<(), Error>,
    before: Seq<RenderValue>,
    after: Seq<RenderValue>,
) -> bool {
    match command {
        TransactionCommand::All(cmd) => executed_paged(pre, post, fresh(Endpoint::Transactions { include_failed: cmd.include_failed }), cmd.paging, res, before, after),
        TransactionCommand::Single(cmd) => executed_single(pre, post, fresh(Endpoint::Transaction { transaction_id: cmd.transaction_id }), res, before, after),
        TransactionCommand::ForAccount(cmd) => if account_id_ok(cmd.account_id@) {
            executed_paged(pre, post, fresh(Endpoint::TransactionsForAccount { account_id: cmd.account_id, include_failed: cmd.include_failed }), cmd.paging, res, before, after)
        } else {
            rejected_input(pre, post, res, before, after)
        },
        TransactionCommand::ForLedger(cmd) => executed_paged(pre, post, fresh(Endpoint::TransactionsForLedger { ledger_id: cmd.ledger_id, include_failed: cmd.include_failed }), cmd.paging, res, before, after),
    }
}

/// Dispatches a transaction command to its strategy.
pub fn run_command<C: Client, R: Renderer>(
    out: &mut R,
    config: &AppConfig,
    client: &mut C,
    command: TransactionCommand,
) -> (res: Result<(), Error>)
    ensures
        transaction_command_post(
            command,
            *old(client),
            *final(client),
            res,
            old(out).rendered(),
            final(out).rendered(),
        ),
{
    match command {
        TransactionCommand::All(cmd) => run_all(out, config, client, cmd),
        TransactionCommand::Single(cmd) => run_single(out, config, client, cmd),
        TransactionCommand::ForAccount(cmd) => run_for_account(out, config, client, cmd),
        TransactionCommand::ForLedger(cmd) => run_for_ledger(out, config, client, cmd),
    }
}

/// Lists transactions, one page at a time.
pub fn run_all<C: Client, R: Renderer>(
    out: &mut R,
    _config: &AppConfig,
    client: &mut C,
    command: AllTransactionsCommand,
) -> (res: Result<(), Error>)
    ensures
        executed_paged(*old(client), *final(client), fresh(Endpoint::Transactions { include_failed: command.include_failed }), command.paging, res, old(out).rendered(), final(out).rendered()),
{
    let request = Descriptor::new(Endpoint::Transactions { include_failed: command.include_failed });
    execute_and_print_page_request(out, client, request, &command.paging)
}

/// Fetches one transaction by id.
pub fn run_single<C: Client, R: Renderer>(
    out: &mut R,
    _config: &AppConfig,
    client: &mut C,
    command: SingleTransactionCommand,
) -> (res: Result<(), Error>)
    ensures
        executed_single(*old(client), *final(client), fresh(Endpoint::Transaction { transaction_id: command.transaction_id }), res, old(out).rendered(), final(out).rendered()),
{
    let request = Descriptor::new(Endpoint::Transaction { transaction_id: command.transaction_id });
    execute_and_print_request(out, client, request)
}

/// Lists the transactions of one account, one page at a time.
pub fn run_for_account<C: Client, R: Renderer>(
    out: &mut R,
    _config: &AppConfig,
    client: &mut C,
    command: TransactionsForAccountCommand,
) -> (res: Result<(), Error>)
    ensures
        account_id_ok(command.account_id@) ==> executed_paged(*old(client), *final(client), fresh(Endpoint::TransactionsForAccount { account_id: command.account_id, include_failed: command.include_failed }), command.paging, res, old(out).rendered(), final(out).rendered()),
        !account_id_ok(command.account_id@) ==> rejected_input(
            *old(client),
            *final(client),
            res,
            old(out).rendered(),
            final(out).rendered(),
        ),
{
    match stellar::parse_public_key(command.account_id.as_str()) {
        Ok(_) => (),
        Err(e) => {
            return Err(e);
        },
    }
    let request = Descriptor::new(Endpoint::TransactionsForAccount { account_id: command.account_id, include_failed: command.include_failed });
    execute_and_print_page_request(out, client, request, &command.paging)
}

/// Lists the transactions of one ledger, one page at a time.
pub fn run_for_ledger<C: Client, R: Renderer>(
    out: &mut R,
    _config: &AppConfig,
    client: &mut C,
    command: TransactionsForLedgerCommand,
) -> (res: Result<(), Error>)
    ensures
        executed_paged(*old(client), *final(client), fresh(Endpoint::TransactionsForLedger { ledger_id: command.ledger_id, include_failed: command.include_failed }), command.paging, res, old(out).rendered(), final(out).rendered()),
{
    let request = Descriptor::new(Endpoint::TransactionsForLedger { ledger_id: command.ledger_id, include_failed: command.include_failed });
    execute_and_print_page_request(out, client, request, &command.paging)
}

} // verus!
