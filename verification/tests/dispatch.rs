use aurora::account::AccountCommand;
use aurora::client::RequestOutcome;
use aurora::client::StubClient;
use aurora::commands::Command;
use aurora::commands::run_command;
use aurora::config::AppConfig;
use aurora::error::Error;
use aurora::horizon::HorizonCommand;
use aurora::horizon::HorizonInnerCommand;
use aurora::horizon::HorizonNonServerCommand;
use aurora::horizon::Paging;
use aurora::horizon::Streaming;
use aurora::horizon::ledger::LedgerCommand;
use aurora::horizon::ledger::SingleLedgerCommand;
use aurora::horizon::payment::AllPaymentsCommand;
use aurora::horizon::payment::PaymentCommand;
use aurora::horizon::transaction::AllTransactionsCommand;
use aurora::horizon::transaction::TransactionCommand;
use aurora::render::OutputLog;
use aurora::render::RenderValue;
use aurora::request::Descriptor;
use aurora::request::Endpoint;

fn fresh_stub(outcome: RequestOutcome) -> StubClient {
    StubClient::with_outcome(outcome)
}

#[test]
fn top_dispatch_reaches_the_account_commands() {
    let mut config = AppConfig::default();
    let mut out = OutputLog::new();
    let mut client = fresh_stub(RequestOutcome::Success("unused".to_string()));
    let res = run_command(&mut out, &mut config, &mut client, Command::Account(AccountCommand::List));
    assert!(res.is_ok());
    assert_eq!(out.entries.len(), 1);
    assert!(client.calls.is_empty());
}

#[test]
fn top_dispatch_reaches_the_remote_commands() {
    let mut config = AppConfig::default();
    let mut out = OutputLog::new();
    let mut client = fresh_stub(RequestOutcome::Success("ledger".to_string()));
    let command = Command::Horizon(HorizonCommand {
        server: Some("public".to_string()),
        command: HorizonInnerCommand::NonServer(HorizonNonServerCommand::Ledger(
            LedgerCommand::Single(SingleLedgerCommand { ledger_id: 7 }),
        )),
    });
    let res = run_command(&mut out, &mut config, &mut client, command);
    assert!(res.is_ok());
    assert_eq!(client.calls, vec![Descriptor::new(Endpoint::Ledger { ledger_id: 7 })]);
    assert_eq!(out.entries, vec![RenderValue::Payload("ledger".to_string())]);
}

#[test]
fn a_named_server_that_is_not_configured_fails() {
    let mut config = AppConfig::default();
    let mut out = OutputLog::new();
    let mut client = fresh_stub(RequestOutcome::Success("unused".to_string()));
    let command = Command::Horizon(HorizonCommand {
        server: Some("elsewhere".to_string()),
        command: HorizonInnerCommand::NonServer(HorizonNonServerCommand::Info),
    });
    let res = run_command(&mut out, &mut config, &mut client, command);
    assert_eq!(res, Err(Error::UnknownServer("elsewhere".to_string())));
    assert!(client.calls.is_empty());
}

#[test]
fn include_failed_travels_into_the_descriptor() {
    let mut config = AppConfig::default();
    let mut out = OutputLog::new();
    let mut client = fresh_stub(RequestOutcome::Success("txs".to_string()));
    let command = Command::Horizon(HorizonCommand {
        server: None,
        command: HorizonInnerCommand::NonServer(HorizonNonServerCommand::Transaction(
            TransactionCommand::All(AllTransactionsCommand {
                include_failed: true,
                paging: Paging::default(),
            }),
        )),
    });
    let res = run_command(&mut out, &mut config, &mut client, command);
    assert!(res.is_ok());
    assert_eq!(
        client.calls,
        vec![Descriptor::new(Endpoint::Transactions { include_failed: true })]
    );
}

#[test]
fn a_streamed_listing_asks_for_exactly_one_stream() {
    let mut config = AppConfig::default();
    let mut out = OutputLog::new();
    let mut client = StubClient {
        script: Vec::new(),
        stream_script: Some(Ok(Vec::new())),
        exhausted: String::new(),
        calls: Vec::new(),
    };
    let command = Command::Horizon(HorizonCommand {
        server: None,
        command: HorizonInnerCommand::NonServer(HorizonNonServerCommand::Payment(
            PaymentCommand::All(AllPaymentsCommand {
                include_failed: false,
                paging: Paging::default(),
                streaming: Streaming { stream: true },
            }),
        )),
    });
    let res = run_command(&mut out, &mut config, &mut client, command);
    assert!(res.is_ok());
    assert_eq!(
        client.calls,
        vec![Descriptor::new(Endpoint::Payments { include_failed: false })]
    );
    assert!(out.entries.is_empty());
}
