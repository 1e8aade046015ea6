use vstd::prelude::*;

use crate::client::Client;
use crate::config::AppConfig;
use crate::error::Error;
use crate::horizon::Paging;
use crate::horizon::Streaming;
use crate::horizon::execute_and_print_page_request;
use crate::horizon::execute_and_print_stream_request;
use crate::horizon::executed_listing;
use crate::horizon::executed_paged;
use crate::horizon::rejected_input;
use crate::render::RenderValue;
use crate::render::Renderer;
use crate::request::Descriptor;
use crate::request::Endpoint;
use crate::request::fresh;
use crate::stellar;
use crate::stellar::account_id_ok;

verus! {
/// The trade lookups: the whole list, or the lists filtered by account or offer.
#[derive(Debug)]
pub enum TradeCommand {
    All(AllTradesCommand),
    ForAccount(TradesForAccountCommand),
    ForOffer(TradesForOfferCommand),
}

/// Lists trades.
#[derive(Debug)]
pub struct AllTradesCommand {
    pub paging: Paging,
    pub streaming: Streaming,
}

/// Lists the trades of one account.
#[derive(Debug)]
pub struct TradesForAccountCommand {
    pub account_id: String,
    pub paging: Paging,
    pub streaming: Streaming,
}

/// Lists the trades of one offer.
#[derive(Debug)]
pub struct TradesForOfferCommand {
    pub offer_id: i64,
    pub paging: Paging,
}

/// What running a trade command does to the client and the output.
pub open spec fn trade_command_post<C: Client>(
    command: TradeCommand,
    pre: C,
    post: C,
    res: Result<(), Error>,
    before: Seq<RenderValue>,
    after: Seq<RenderValue>,
) -> bool {
    match command {
        TradeCommand::All(cmd) => executed_listing(pre, post, fresh(Endpoint::Trades), cmd.paging, cmd.streaming, res, before, after),
        TradeCommand::ForAccount(cmd) => if account_id_ok(cmd.account_id@) {
            executed_listing(pre, post, fresh(Endpoint::TradesForAccount { account_id: cmd.account_id }), cmd.paging, cmd.streaming, res, before, after)
        } else {
            rejected_input(pre, post, res, before, after)
        },
        TradeCommand::ForOffer(cmd) => executed_paged(pre, post, fresh(Endpoint::TradesForOffer { offer_id: cmd.offer_id }), cmd.paging, res, before, after),
    }
}

/// Dispatches a trade command to its strategy.
pub fn run_command<C: Client, R: Renderer>(
    out: &mut R,
    config: &AppConfig,
    client: &mut C,
    command: TradeCommand,
) -> (res: Result<(), Error>)
    ensures
        trade_command_post(
            command,
            *old(client),
            *final(client),
            res,
            old(out).rendered(),
            final(out).rendered(),
        ),
{
    match command {
        TradeCommand::All(cmd) => run_all(out, config, client, cmd),
        TradeCommand::ForAccount(cmd) => run_for_account(out, config, client, cmd),
        TradeCommand::ForOffer(cmd) => run_for_offer(out, config, client, cmd),
    }
}

/// Lists trades, paged or streamed.
pub fn run_all<C: Client, R: Renderer>(
    out: &mut R,
    _config: &AppConfig,
    client: &mut C,
    command: AllTradesCommand,
) -> (res: Result<(), Error>)
    ensures
        executed_listing(*old(client), *final(client), fresh(Endpoint::Trades), command.paging, command.streaming, res, old(out).rendered(), final(out).rendered()),
{
    let request = Descriptor::new(Endpoint::Trades);
    execute_and_print_stream_request(out, client, request, &command.paging, &command.streaming)
}

/// Lists the trades of one account, paged or streamed.
pub fn run_for_account<C: Client, R: Renderer>(
    out: &mut R,
    _config: &AppConfig,
    client: &mut C,
    command: TradesForAccountCommand,
) -> (res: Result<(), Error>)
    ensures
        account_id_ok(command.account_id@) ==> executed_listing(*old(client), *final(client), fresh(Endpoint::TradesForAccount { account_id: command.account_id }), command.paging, command.streaming, res, old(out).rendered(), final(out).rendered()),
        !account_id_ok(command.account_id@) ==> rejected_input(
            *old(client),
            *final(client),
            res,
            old(out).rendered(),
            final(out).rendered(),
        ),
{
    match stellar::parse_public_key(command.account_id.as_str()) {
        Ok(_) => (),
        Err(e) => {
            return Err(e);
        },
    }
    let request = Descriptor::new(Endpoint::TradesForAccount { account_id: command.account_id });
    execute_and_print_stream_request(out, client, request, &command.paging, &command.streaming)
}

/// Lists the trades of one offer, one page at a time.
pub fn run_for_offer<C: Client, R: Renderer>(
    out: &mut R,
    _config: &AppConfig,
    client: &mut C,
    command: TradesForOfferCommand,
) -> (res: Result<(), Error>)
    ensures
        executed_paged(*old(client), *final(client), fresh(Endpoint::TradesForOffer { offer_id: command.offer_id }), command.paging, res, old(out).rendered(), final(out).rendered()),
{
    let request = Descriptor::new(Endpoint::TradesForOffer { offer_id: command.offer_id });
    execute_and_print_page_request(out, client, request, &command.paging)
}

} // verus!
