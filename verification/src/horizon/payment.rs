use vstd::prelude::*;

use crate::client::Client;
use crate::config::AppConfig;
use crate::error::Error;
use crate::horizon::Paging;
use crate::horizon::Streaming;
use crate::horizon::execute_and_print_page_request;
use crate::horizon::execute_and_print_stream_request;
use crate::horizon::executed_listing;
use crate::horizon::executed_paged;
use crate::horizon::rejected_input;
use crate::render::RenderValue;
use crate::render::Renderer;
use crate::request::Descriptor;
use crate::request::Endpoint;
use crate::request::fresh;
use crate::stellar;
use crate::stellar::account_id_ok;

verus! {
/// The payment lookups: the whole list, or the lists filtered by account, ledger or transaction.
#[derive(Debug)]
pub enum PaymentCommand {
    All(AllPaymentsCommand),
    ForAccount(PaymentsForAccountCommand),
    ForLedger(PaymentsForLedgerCommand),
    ForTransaction(PaymentsForTransactionCommand),
}

/// Lists payments, optionally including failed ones.
#[derive(Debug)]
pub struct AllPaymentsCommand {
    pub include_failed: bool,
    pub paging: Paging,
    pub streaming: Streaming,
}

/// Lists the payments of one account.
#[derive(Debug)]
pub struct PaymentsForAccountCommand {
    pub account_id: String,
    pub include_failed: bool,
    pub paging: Paging,
    pub streaming: Streaming,
}

/// Lists the payments of one ledger.
#[derive(Debug)]
pub struct PaymentsForLedgerCommand {
    pub ledger_id: i32,
    pub include_failed: bool,
    pub paging: Paging,
}

/// Lists the payments of one transaction.
#[derive(Debug)]
pub struct PaymentsForTransactionCommand {
    pub transaction_id: String,
    pub paging: Paging,
}

/// What running a payment command does to the client and the output.
pub open spec fn payment_command_post<C: Client>(
    command: PaymentCommand,
    pre: C,
    post: C,
    res: Result<(), Error>,
    before: Seq<RenderValue>,
    after: Seq<RenderValue>,
) -> bool {
    match command {
        PaymentCommand::All(cmd) => executed_listing(pre, post, fresh(Endpoint::Payments { include_failed: cmd.include_failed }), cmd.paging, cmd.streaming, res, before, after),
        PaymentCommand::ForAccount(cmd) => if account_id_ok(cmd.account_id@) {
            executed_listing(pre, post, fresh(Endpoint::PaymentsForAccount { account_id: cmd.account_id, include_failed: cmd.include_failed }), cmd.paging, cmd.streaming, res, before, after)
        } else {
            rejected_input(pre, post, res, before, after)
        },
        PaymentCommand::ForLedger(cmd) => executed_paged(pre, post, fresh(Endpoint::PaymentsForLedger { ledger_id: cmd.ledger_id, include_failed: cmd.include_failed }), cmd.paging, res, before, after),
        PaymentCommand::ForTransaction(cmd) => executed_paged(pre, post, fresh(Endpoint::PaymentsForTransaction { transaction_id: cmd.transaction_id }), cmd.paging, res, before, after),
    }
}

/// Dispatches a payment command to its strategy.
pub fn run_command<C: Client, R: Renderer>(
    out: &mut R,
    config: &AppConfig,
    client: &mut C,
    command: PaymentCommand,
) -> (res: Result<(), Error>)
    ensures
        payment_command_post(
            command,
            *old(client),
            *final(client),
            res,
            old(out).rendered(),
            final(out).rendered(),
        ),
{
    match command {
        PaymentCommand::All(cmd) => run_all(out, config, client, cmd),
        PaymentCommand::ForAccount(cmd) => run_for_account(out, config, client, cmd),
        PaymentCommand::ForLedger(cmd) => run_for_ledger(out, config, client, cmd),
        PaymentCommand::ForTransaction(cmd) => run_for_transaction(out, config, client, cmd),
    }
}

/// Lists payments, paged or streamed.
pub fn run_all<C: Client, R: Renderer>(
    out: &mut R,
    _config: &AppConfig,
    client: &mut C,
    command: AllPaymentsCommand,
) -> (res: Result<(), Error>)
    ensures
        executed_listing(*old(client), *final(client), fresh(Endpoint::Payments { include_failed: command.include_failed }), command.paging, command.streaming, res, old(out).rendered(), final(out).rendered()),
{
    let request = Descriptor::new(Endpoint::Payments { include_failed: command.include_failed });
    execute_and_print_stream_request(out, client, request, &command.paging, &command.streaming)
}

/// Lists the payments of one account, paged or streamed.
pub fn run_for_account<C: Client, R: Renderer>(
    out: &mut R,
    _config: &AppConfig,
    client: &mut C,
    command: PaymentsForAccountCommand,
) -> (res: Result<(), Error>)
    ensures
        account_id_ok(command.account_id@) ==> executed_listing(*old(client), *final(client), fresh(Endpoint::PaymentsForAccount { account_id: command.account_id, include_failed: command.include_failed }), command.paging, command.streaming, res, old(out).rendered(), final(out).rendered()),
        !account_id_ok(command.account_id@) ==> rejected_input(
            *old(client),
            *final(client),
            res,
            old(out).rendered(),
            final(out).rendered(),
        ),
{
    match stellar::parse_public_key(command.account_id.as_str()) {
        Ok(_) => (),
        Err(e) => {
            return Err(e);
        },
    }
    let request = Descriptor::new(Endpoint::PaymentsForAccount { account_id: command.account_id, include_failed: command.include_failed });
    execute_and_print_stream_request(out, client, request, &command.paging, &command.streaming)
}

/// Lists the payments of one ledger, one page at a time.
pub fn run_for_ledger<C: Client, R: Renderer>(
    out: &mut R,
    _config: &AppConfig,
    client: &mut C,
    command: PaymentsForLedgerCommand,
) -> (res: Result<(), Error>)
    ensures
        executed_paged(*old(client), *final(client), fresh(Endpoint::PaymentsForLedger { ledger_id: command.ledger_id, include_failed: command.include_failed }), command.paging, res, old(out).rendered(), final(out).rendered()),
{
    let request = Descriptor::new(Endpoint::PaymentsForLedger { ledger_id: command.ledger_id, include_failed: command.include_failed });
    execute_and_print_page_request(out, client, request, &command.paging)
}

/// Lists the payments of one transaction, one page at a time.
pub fn run_for_transaction<C: Client, R: Renderer>(
    out: &mut R,
    _config: &AppConfig,
    client: &mut C,
    command: PaymentsForTransactionCommand,
) -> (res: Result<(), Error>)
    ensures
        executed_paged(*old(client), *final(client), fresh(Endpoint::PaymentsForTransaction { transaction_id: command.transaction_id }), command.paging, res, old(out).rendered(), final(out).rendered()),
{
    let request = Descriptor::new(Endpoint::PaymentsForTransaction { transaction_id: command.transaction_id });
    execute_and_print_page_request(out, client, request, &command.paging)
}

} // verus!
