use vstd::prelude::*;

use crate::client::Client;
use crate::client::RequestOutcome;
use crate::client::StreamEvent;
use crate::config::AppConfig;
use crate::error::Error;
use crate::render::RenderValue;
use crate::render::Renderer;
use crate::request::Descriptor;
use crate::request::Endpoint;
use crate::request::Order;
use crate::request::fresh;

pub mod account;
pub mod claimable_balance;
pub mod effect;
pub mod ledger;
pub mod operation;
pub mod payment;
pub mod server;
pub mod trade;
pub mod transaction;

verus! {

/// User-supplied paging options: an opaque cursor, a page size limit,
/// and the two mutually exclusive ordering flags. All fields absent or
/// false means "let the server default".
#[derive(Debug, PartialEq, Eq)]
pub struct Paging {
    pub cursor: Option<String>,
    pub limit: Option<u64>,
    pub ascending: bool,
    pub descending: bool,
}

/// User-supplied streaming options: whether to open a live sequence
/// instead of fetching one page.
#[derive(Debug, PartialEq, Eq)]
pub struct Streaming {
    pub stream: bool,
}

/// The paging options that leave every descriptor untouched.
pub open spec fn default_paging() -> Paging {
    Paging { cursor: None, limit: None, ascending: false, descending: false }
}

impl Paging {
    /// The ordering flags are mutually exclusive in a well-formed value.
    pub open spec fn wf(self) -> bool {
        !(self.ascending && self.descending)
    }

    /// Collapses command-line flags into paging options, rejecting
    /// conflicting ordering flags before they can reach the engine.
    pub fn from_flags(
        cursor: Option<String>,
        limit: Option<u64>,
        ascending: bool,
        descending: bool,
    ) -> (r: Result<Paging, Error>)
        ensures
            ascending && descending ==> (r matches Err(e) && e matches Error::Validation(_)),
            !(ascending && descending) ==> (r matches Ok(p) && p == (Paging {
                cursor,
                limit,
                ascending,
                descending,
            }) && p.wf()),
    {
        if ascending && descending {
            Err(Error::Validation("ascending and descending are mutually exclusive".to_owned()))
        } else {
            Ok(Paging { cursor, limit, ascending, descending })
        }
    }
}

impl Clone for Paging {
    fn clone(&self) -> (res: Paging)
        ensures
            res == *self,
    {
        Paging {
            cursor: self.cursor.clone(),
            limit: self.limit,
            ascending: self.ascending,
            descending: self.descending,
        }
    }
}

impl Default for Paging {
    /// No cursor, no limit, no ordering flags.
    fn default() -> (p: Paging)
        ensures
            p == default_paging(),
    {
        Paging { cursor: None, limit: None, ascending: false, descending: false }
    }
}

/// The descriptor after the paging options are attached: a present
/// cursor or limit replaces the descriptor's, an ordering flag sets the
/// ordering directive, and an absent option leaves its field alone.
pub open spec fn spec_add_paging(request: Descriptor, options: Paging) -> Descriptor {
    Descriptor {
        endpoint: request.endpoint,
        cursor: if options.cursor is Some {
            options.cursor
        } else {
            request.cursor
        },
        limit: if options.limit is Some {
            options.limit
        } else {
            request.limit
        },
        order: if options.descending {
            Order::Descending
        } else if options.ascending {
            Order::Ascending
        } else {
            request.order
        },
    }
}

/// Attaches the paging options to the request. Applying the default
/// options is the identity on every descriptor.
pub fn add_paging_options(request: Descriptor, options: &Paging) -> (r: Descriptor)
    ensures
        r == spec_add_paging(request, *options),
{
    let mut request = request;
    if let Some(cursor) = &options.cursor {
        request.cursor = Some(cursor.clone());
    }
    if let Some(limit) = &options.limit {
        request.limit = Some(*limit);
    }
    if options.ascending {
        request.order = Order::Ascending;
    }
    if options.descending {
        request.order = Order::Descending;
    }
    request
}

/// Applying the default paging options changes no field of any
/// descriptor: paging application is no-op-safe.
pub proof fn lemma_add_paging_identity(request: Descriptor)
    ensures
        spec_add_paging(request, default_paging()) == request,
{
}

/// What the single-request strategy does with an outcome: a success is
/// rendered once and the call succeeds; an API-reported failure has its
/// error body rendered once and the call still fails, classified `Api`;
/// a transport failure renders nothing and fails, classified
/// `Transport`.
pub open spec fn single_post(
    outcome: RequestOutcome,
    res: Result<(), Error>,
    before: Seq<RenderValue>,
    after: Seq<RenderValue>,
) -> bool {
    match outcome {
        RequestOutcome::Success(body) => {
            &&& after == before.push(RenderValue::Payload(body))
            &&& res is Ok
        },
        RequestOutcome::ApiFailure(body) => {
            &&& after == before.push(RenderValue::Payload(body))
            &&& res matches Err(e) && e == Error::Api(body)
        },
        RequestOutcome::TransportFailure(msg) => {
            &&& after == before
            &&& res matches Err(e) && e == Error::Transport(msg)
        },
    }
}

/// The client was asked exactly one request, with this descriptor, and
/// the outcome was handled as `single_post` says.
pub open spec fn executed_single<C: Client>(
    pre: C,
    post: C,
    request: Descriptor,
    res: Result<(), Error>,
    before: Seq<RenderValue>,
    after: Seq<RenderValue>,
) -> bool {
    &&& post.completed() == pre.completed().push(request)
    &&& single_post(pre.next_outcome(), res, before, after)
}

/// The event payloads rendered by the streaming loop: every decoded
/// event before the first failure, in arrival order.
pub open spec fn rendered_events(events: Seq<StreamEvent>) -> Seq<RenderValue>
    decreases events.len(),
{
    if events.len() == 0 {
        Seq::empty()
    } else {
        match events.first() {
            StreamEvent::Message(body) => seq![RenderValue::Payload(body)] + rendered_events(
                events.drop_first(),
            ),
            StreamEvent::Failure(_) => Seq::empty(),
        }
    }
}

/// The first failure in the event sequence, if any.
pub open spec fn stream_failure(events: Seq<StreamEvent>) -> Option<String>
    decreases events.len(),
{
    if events.len() == 0 {
        None
    } else {
        match events.first() {
            StreamEvent::Message(_) => stream_failure(events.drop_first()),
            StreamEvent::Failure(msg) => Some(msg),
        }
    }
}

/// Streaming preserves arrival order exactly: over a sequence of decoded
/// events that ends without failure, the loop renders one value per
/// event, each the payload of the event at the same position, with none
/// skipped, none duplicated, and none reordered, and reports success.
pub proof fn lemma_stream_order_preserved(events: Seq<StreamEvent>)
    requires
        forall|j: int| 0 <= j < events.len() ==> events[j] is Message,
    ensures
        rendered_events(events).len() == events.len(),
        forall|j: int| 0 <= j < events.len() ==> rendered_events(events)[j]
            == RenderValue::Payload(events[j]->Message_0),
        stream_failure(events) is None,
    decreases events.len(),
{
    if events.len() > 0 {
        let rest = events.drop_first();
        assert(forall|j: int| 0 <= j < rest.len() ==> rest[j] is Message);
        lemma_stream_order_preserved(rest);
        assert(forall|j: int| 0 <= j < events.len() ==> rendered_events(events)[j]
            == RenderValue::Payload(events[j]->Message_0)) by {
            assert forall|j: int| 0 <= j < events.len() implies rendered_events(events)[j]
                == RenderValue::Payload(events[j]->Message_0) by {
                if j > 0 {
                    assert(rendered_events(events)[j] == rendered_events(rest)[j - 1]);
                    assert(events[j] == rest[j - 1]);
                }
            }
        }
    }
}

/// What the streaming loop does with an arrived event sequence: each
/// event before the first failure is rendered immediately and exactly
/// once, in arrival order; a failure ends the loop with a `Transport`
/// error, and a sequence that simply ends completes successfully.
pub open spec fn stream_post(
    events: Seq<StreamEvent>,
    res: Result<(), Error>,
    before: Seq<RenderValue>,
    after: Seq<RenderValue>,
) -> bool {
    &&& after == before + rendered_events(events)
    &&& match stream_failure(events) {
        None => res is Ok,
        Some(msg) => res matches Err(e) && e == Error::Transport(msg),
    }
}

/// The client was asked exactly one live sequence, with this descriptor,
/// and what arrived was handled as `stream_post` says; a stream that
/// could not be opened at all propagates the client's error with nothing
/// rendered.
pub open spec fn executed_stream<C: Client>(
    pre: C,
    post: C,
    request: Descriptor,
    res: Result<(), Error>,
    before: Seq<RenderValue>,
    after: Seq<RenderValue>,
) -> bool {
    &&& post.completed() == pre.completed().push(request)
    &&& match pre.next_stream() {
        Ok(events) => stream_post(events@, res, before, after),
        Err(e) => after == before && (res matches Err(e2) && e2 == e),
    }
}

/// One paged-or-streamed engine invocation on this base descriptor with
/// these options: a live stream when asked for, one page otherwise.
pub open spec fn executed_listing<C: Client>(
    pre: C,
    post: C,
    base: Descriptor,
    paging: Paging,
    streaming: Streaming,
    res: Result<(), Error>,
    before: Seq<RenderValue>,
    after: Seq<RenderValue>,
) -> bool {
    if streaming.stream {
        executed_stream(pre, post, spec_add_paging(base, paging), res, before, after)
    } else {
        executed_single(pre, post, spec_add_paging(base, paging), res, before, after)
    }
}

/// One paged engine invocation on this base descriptor with these
/// options: the paging is applied and a single page is fetched.
pub open spec fn executed_paged<C: Client>(
    pre: C,
    post: C,
    base: Descriptor,
    paging: Paging,
    res: Result<(), Error>,
    before: Seq<RenderValue>,
    after: Seq<RenderValue>,
) -> bool {
    executed_single(pre, post, spec_add_paging(base, paging), res, before, after)
}

/// The command was rejected before any network call: nothing submitted,
/// nothing rendered, and the failure classified as a validation error.
pub open spec fn rejected_input<C: Client>(
    pre: C,
    post: C,
    res: Result<(), Error>,
    before: Seq<RenderValue>,
    after: Seq<RenderValue>,
) -> bool {
    &&& post.completed() == pre.completed()
    &&& after == before
    &&& res matches Err(e) && e matches Error::Validation(_)
}

/// Renders and classifies what one submitted request came back as: a
/// success is rendered once and reported as success; an API-reported
/// failure has its error body rendered once and is still reported as a
/// failed command; a transport failure renders nothing. This is the
/// whole handling of an outcome, verified for every value the transport
/// can hand back.
pub fn print_outcome<R: Renderer>(out: &mut R, outcome: RequestOutcome) -> (res: Result<(), Error>)
    ensures
        single_post(outcome, res, old(out).rendered(), final(out).rendered()),
{
    match outcome {
        RequestOutcome::Success(body) => {
            out.render(RenderValue::Payload(body));
            Ok(())
        },
        RequestOutcome::ApiFailure(body) => {
            let detail = body.clone();
            out.render(RenderValue::Payload(body));
            Err(Error::Api(detail))
        },
        RequestOutcome::TransportFailure(msg) => Err(Error::Transport(msg)),
    }
}

/// Submits one request and renders what comes back. Rendering is never
/// skipped on the success path, happens exactly once on an API-reported
/// error path, and is never attempted on a transport-error path.
pub fn execute_and_print_request<C: Client, R: Renderer>(
    out: &mut R,
    client: &mut C,
    request: Descriptor,
) -> (res: Result<(), Error>)
    ensures
        executed_single(
            *old(client),
            *final(client),
            request,
            res,
            old(out).rendered(),
            final(out).rendered(),
        ),
{
    let outcome = client.request(&request);
    print_outcome(out, outcome)
}

/// Applies the paging options, then behaves exactly like the single
/// strategy: one request, one page; no auto-pagination happens here, a
/// caller fetches further pages by re-invoking with an updated cursor.
pub fn execute_and_print_page_request<C: Client, R: Renderer>(
    out: &mut R,
    client: &mut C,
    request: Descriptor,
    paging: &Paging,
) -> (res: Result<(), Error>)
    ensures
        executed_single(
            *old(client),
            *final(client),
            spec_add_paging(request, *paging),
            res,
            old(out).rendered(),
            final(out).rendered(),
        ),
{
    let request = add_paging_options(request, paging);
    execute_and_print_request(out, client, request)
}

/// After an all-message prefix of length `i`, rendering one more decoded
/// event extends the rendered prefix by exactly that event's payload.
proof fn lemma_rendered_step(events: Seq<StreamEvent>, i: int)
    requires
        0 <= i < events.len(),
        forall|j: int| 0 <= j <= i ==> events[j] is Message,
    ensures
        rendered_events(events.take(i + 1)) == rendered_events(events.take(i)).push(
            RenderValue::Payload(events[i]->Message_0),
        ),
    decreases i,
{
    if i == 0 {
        assert(events.take(0) =~= Seq::<StreamEvent>::empty());
        assert(rendered_events(events.take(0)) =~= Seq::<RenderValue>::empty());
        assert(events.take(1).first() == events[0]);
        assert(events.take(1).drop_first() =~= events.take(0));
        assert(rendered_events(events.take(1)) == seq![
            RenderValue::Payload(events[0]->Message_0),
        ] + rendered_events(events.take(0)));
        assert(seq![RenderValue::Payload(events[0]->Message_0)]
            + Seq::<RenderValue>::empty() =~= rendered_events(events.take(0)).push(
            RenderValue::Payload(events[0]->Message_0),
        ));
    } else {
        let rest = events.drop_first();
        assert(forall|j: int| 0 <= j <= i - 1 ==> rest[j] is Message);
        lemma_rendered_step(rest, i - 1);
        assert(events.take(i + 1).drop_first() =~= rest.take(i));
        assert(events.take(i).drop_first() =~= rest.take(i - 1));
        assert(events.take(i + 1).first() == events[0]);
        assert(events.take(i).first() == events[0]);
        let head = seq![RenderValue::Payload(events[0]->Message_0)];
        assert(rendered_events(events.take(i + 1)) == head + rendered_events(rest.take(i)));
        assert(rendered_events(events.take(i)) == head + rendered_events(rest.take(i - 1)));
        assert(rest[i - 1] == events[i]);
        assert(head + rendered_events(rest.take(i - 1)).push(RenderValue::Payload(events[i]->Message_0))
            =~= (head + rendered_events(rest.take(i - 1))).push(
            RenderValue::Payload(events[i]->Message_0),
        ));
    }
}

/// Past an all-message prefix, the whole sequence renders exactly that
/// prefix when a failure follows it or nothing follows it; and the first
/// failure of the whole sequence is whatever follows the prefix.
proof fn lemma_stream_tail(events: Seq<StreamEvent>, i: int)
    requires
        0 <= i <= events.len(),
        forall|j: int| 0 <= j < i ==> events[j] is Message,
    ensures
        i < events.len() && events[i] is Failure ==> {
            &&& rendered_events(events) == rendered_events(events.take(i))
            &&& stream_failure(events) == Some(events[i]->Failure_0)
        },
        i == events.len() ==> {
            &&& rendered_events(events) == rendered_events(events.take(i))
            &&& stream_failure(events) is None
        },
    decreases i,
{
    if i == 0 {
        assert(events.take(0) =~= Seq::<StreamEvent>::empty());
        if events.len() == 0 {
        } else if events[0] is Failure {
            assert(rendered_events(events) =~= rendered_events(events.take(0)));
        }
    } else {
        let rest = events.drop_first();
        assert(forall|j: int| 0 <= j < i - 1 ==> rest[j] is Message);
        lemma_stream_tail(rest, i - 1);
        assert(events.take(i).drop_first() =~= rest.take(i - 1));
        assert(events.take(i).first() == events[0]);
        let head = seq![RenderValue::Payload(events[0]->Message_0)];
        assert(rendered_events(events) == head + rendered_events(rest));
        assert(rendered_events(events.take(i)) == head + rendered_events(rest.take(i - 1)));
        if i < events.len() && events[i] is Failure {
            assert(rest[i - 1] == events[i]);
        }
    }
}

/// The streaming loop: renders each decoded event immediately and in
/// arrival order, ends successfully when the sequence ends, and ends
/// with a transport error at the first failure, leaving every event
/// already rendered in place.
fn render_stream<R: Renderer>(out: &mut R, events: &Vec<StreamEvent>) -> (res: Result<(), Error>)
    ensures
        stream_post(events@, res, old(out).rendered(), final(out).rendered()),
{
    let ghost before = out.rendered();
    let n = events.len();
    for i in 0..n
        invariant
            n == events@.len(),
            before == old(out).rendered(),
            forall|j: int| 0 <= j < i ==> events@[j] is Message,
            out.rendered() == before + rendered_events(events@.take(i as int)),
    {
        match &events[i] {
            StreamEvent::Message(body) => {
                proof {
                    lemma_rendered_step(events@, i as int);
                }
                out.render(RenderValue::Payload(body.clone()));
            },
            StreamEvent::Failure(msg) => {
                proof {
                    lemma_stream_tail(events@, i as int);
                }
                return Err(Error::Transport(msg.clone()));
            },
        }
    }
    proof {
        lemma_stream_tail(events@, n as int);
    }
    Ok(())
}

/// Applies the paging options, then either opens a live stream (and runs
/// the streaming loop on what arrives) or falls back to the single-page
/// strategy when streaming was not asked for.
pub fn execute_and_print_stream_request<C: Client, R: Renderer>(
    out: &mut R,
    client: &mut C,
    request: Descriptor,
    paging: &Paging,
    streaming: &Streaming,
) -> (res: Result<(), Error>)
    ensures
        streaming.stream ==> executed_stream(
            *old(client),
            *final(client),
            spec_add_paging(request, *paging),
            res,
            old(out).rendered(),
            final(out).rendered(),
        ),
        !streaming.stream ==> executed_single(
            *old(client),
            *final(client),
            spec_add_paging(request, *paging),
            res,
            old(out).rendered(),
            final(out).rendered(),
        ),
{
    let request = add_paging_options(request, paging);
    if streaming.stream {
        match client.stream(&request) {
            Ok(events) => render_stream(out, &events),
            Err(e) => Err(e),
        }
    } else {
        execute_and_print_request(out, client, request)
    }
}

/// One remote command of any resource kind, with the server selection.
#[derive(Debug)]
pub struct HorizonCommand {
    pub server: Option<String>,
    pub command: HorizonInnerCommand,
}

/// Either local server management or a remote lookup.
#[derive(Debug)]
pub enum HorizonInnerCommand {
    Server(server::ServerCommand),
    NonServer(HorizonNonServerCommand),
}

/// The remote lookups, by resource kind, plus the root info endpoint.
#[derive(Debug)]
pub enum HorizonNonServerCommand {
    Account(account::AccountCommand),
    ClaimableBalance(claimable_balance::ClaimableBalanceCommand),
    Ledger(ledger::LedgerCommand),
    Operation(operation::OperationCommand),
    Payment(payment::PaymentCommand),
    Transaction(transaction::TransactionCommand),
    Effect(effect::EffectCommand),
    Trade(trade::TradeCommand),
    Info,
}

/// The server name a command runs against: the one it names, or the
/// configured default.
pub open spec fn selected_server(command: HorizonCommand, config: AppConfig) -> Seq<char> {
    match command.server {
        Some(name) => name@,
        None => config.default_server@,
    }
}

/// What one remote lookup does to the client and the output, by kind.
pub open spec fn nonserver_command_post<C: Client>(
    command: HorizonNonServerCommand,
    pre: C,
    post: C,
    res: Result<(), Error>,
    before: Seq<RenderValue>,
    after: Seq<RenderValue>,
) -> bool {
    match command {
        HorizonNonServerCommand::Account(cmd) => account::account_command_post(
            cmd, pre, post, res, before, after,
        ),
        HorizonNonServerCommand::ClaimableBalance(cmd) => claimable_balance::claimable_balance_command_post(
            cmd, pre, post, res, before, after,
        ),
        HorizonNonServerCommand::Ledger(cmd) => ledger::ledger_command_post(
            cmd, pre, post, res, before, after,
        ),
        HorizonNonServerCommand::Operation(cmd) => operation::operation_command_post(
            cmd, pre, post, res, before, after,
        ),
        HorizonNonServerCommand::Payment(cmd) => payment::payment_command_post(
            cmd, pre, post, res, before, after,
        ),
        HorizonNonServerCommand::Transaction(cmd) => transaction::transaction_command_post(
            cmd, pre, post, res, before, after,
        ),
        HorizonNonServerCommand::Effect(cmd) => effect::effect_command_post(
            cmd, pre, post, res, before, after,
        ),
        HorizonNonServerCommand::Trade(cmd) => trade::trade_command_post(
            cmd, pre, post, res, before, after,
        ),
        HorizonNonServerCommand::Info => executed_single(
            pre, post, fresh(Endpoint::Root), res, before, after,
        ),
    }
}

/// What running a full remote command does. Server management touches
/// only the configuration; everything else first resolves the selected
/// server name against the configuration (the named server, or the
/// default) and fails with `UnknownServer`, before any network call,
/// exactly when that name is not configured.
pub open spec fn horizon_command_post<C: Client>(
    command: HorizonCommand,
    pre_config: AppConfig,
    post_config: AppConfig,
    pre: C,
    post: C,
    res: Result<(), Error>,
    before: Seq<RenderValue>,
    after: Seq<RenderValue>,
) -> bool {
    match command.command {
        HorizonInnerCommand::Server(cmd) => {
            &&& post.completed() == pre.completed()
            &&& server::server_command_post(cmd, pre_config, post_config, res, before, after)
        },
        HorizonInnerCommand::NonServer(cmd) => {
            &&& post_config == pre_config
            &&& if pre_config.has_server(selected_server(command, pre_config)) {
                nonserver_command_post(cmd, pre, post, res, before, after)
            } else {
                &&& post.completed() == pre.completed()
                &&& after == before
                &&& res matches Err(e) && e matches Error::UnknownServer(n) && n@
                    == selected_server(command, pre_config)
            }
        },
    }
}

/// Runs one remote command: resolves the selected server, then hands the
/// command to its resource dispatcher against the given client, which
/// the caller has bound to the resolved server.
pub fn run_command<C: Client, R: Renderer>(
    out: &mut R,
    config: &mut AppConfig,
    client: &mut C,
    command: HorizonCommand,
) -> (res: Result<(), Error>)
    ensures
        horizon_command_post(
            command,
            *old(config),
            *final(config),
            *old(client),
            *final(client),
            res,
            old(out).rendered(),
            final(out).rendered(),
        ),
{
    match command.command {
        HorizonInnerCommand::Server(cmd) => server::run_command(out, config, cmd),
        HorizonInnerCommand::NonServer(cmd) => {
            let server_name: String = match &command.server {
                Some(name) => name.clone(),
                None => config.default_server.clone(),
            };
            match config.resolve_server(server_name.as_str()) {
                Err(e) => Err(e),
                Ok(_server) => match cmd {
                    HorizonNonServerCommand::Account(c) => account::run_command(
                        out, config, client, c,
                    ),
                    HorizonNonServerCommand::ClaimableBalance(c) => claimable_balance::run_command(
                        out, config, client, c,
                    ),
                    HorizonNonServerCommand::Ledger(c) => ledger::run_command(
                        out, config, client, c,
                    ),
                    HorizonNonServerCommand::Operation(c) => operation::run_command(
                        out, config, client, c,
                    ),
                    HorizonNonServerCommand::Payment(c) => payment::run_command(
                        out, config, client, c,
                    ),
                    HorizonNonServerCommand::Transaction(c) => transaction::run_command(
                        out, config, client, c,
                    ),
                    HorizonNonServerCommand::Effect(c) => effect::run_command(
                        out, config, client, c,
                    ),
                    HorizonNonServerCommand::Trade(c) => trade::run_command(
                        out, config, client, c,
                    ),
                    HorizonNonServerCommand::Info => execute_and_print_request(
                        out,
                        client,
                        Descriptor::new(Endpoint::Root),
                    ),
                },
            }
        },
    }
}

} // verus!
