use aurora::account::AccountCommand;
use aurora::account::AddCommand;
use aurora::account::RemoveCommand;
use aurora::account::run_command;
use aurora::client::RequestOutcome;
use aurora::client::StubClient;
use aurora::config::AppConfig;
use aurora::error::Error;
use aurora::horizon::claimable_balance::parse_asset;
use aurora::horizon::trade::TradesForAccountCommand;
use aurora::horizon::trade::run_for_account;
use aurora::horizon::Paging;
use aurora::horizon::Streaming;
use aurora::render::OutputLog;
use aurora::render::RenderValue;
use aurora::request::Asset;
use aurora::request::Descriptor;
use aurora::request::Endpoint;

const SEED: &str = "SCRG6SFG64YDEVGWDWTZBE6BWEW25WICOGOUTODVICCA3L3FOQIG26E6";
const ACCOUNT_ID: &str = "GDRZ6UR4VI3DWATUKAXCGCGAUXGF3IJYG5T3CTJDUJ674TFLN4AR6RV4";

#[test]
fn adding_a_seed_stores_its_derived_account() {
    let mut config = AppConfig::default();
    let mut out = OutputLog::new();
    let command = AccountCommand::Add(AddCommand { secret_seed: SEED.to_string() });
    let res = run_command(&mut out, &mut config, command);
    assert!(res.is_ok());
    assert_eq!(config.accounts.len(), 1);
    assert_eq!(config.accounts[0].account_id, ACCOUNT_ID);
    assert_eq!(config.accounts[0].secret_seed, SEED);
    assert_eq!(out.entries.len(), 1);
    match &out.entries[0] {
        RenderValue::Account(a) => assert_eq!(a.account_id, ACCOUNT_ID),
        other => panic!("expected an account, got {:?}", other),
    }
}

#[test]
fn adding_the_same_seed_twice_keeps_one_account() {
    let mut config = AppConfig::default();
    let mut out = OutputLog::new();
    run_command(
        &mut out,
        &mut config,
        AccountCommand::Add(AddCommand { secret_seed: SEED.to_string() }),
    )
    .unwrap();
    run_command(
        &mut out,
        &mut config,
        AccountCommand::Add(AddCommand { secret_seed: SEED.to_string() }),
    )
    .unwrap();
    assert_eq!(config.accounts.len(), 1);
    assert_eq!(out.entries.len(), 2);
}

#[test]
fn an_invalid_seed_is_rejected_before_anything_changes() {
    let mut config = AppConfig::default();
    let mut out = OutputLog::new();
    let res = run_command(
        &mut out,
        &mut config,
        AccountCommand::Add(AddCommand { secret_seed: "not a seed".to_string() }),
    );
    assert!(matches!(res, Err(Error::Validation(_))));
    assert!(config.accounts.is_empty());
    assert!(out.entries.is_empty());
}

#[test]
fn a_new_random_account_is_stored_and_rendered() {
    let mut config = AppConfig::default();
    let mut out = OutputLog::new();
    let res = run_command(&mut out, &mut config, AccountCommand::New);
    assert!(res.is_ok());
    assert_eq!(config.accounts.len(), 1);
    assert!(config.accounts[0].account_id.starts_with('G'));
    assert!(config.accounts[0].secret_seed.starts_with('S'));
}

#[test]
fn removing_an_account_by_id_empties_the_list() {
    let mut config = AppConfig::default();
    let mut out = OutputLog::new();
    run_command(
        &mut out,
        &mut config,
        AccountCommand::Add(AddCommand { secret_seed: SEED.to_string() }),
    )
    .unwrap();
    let res = run_command(
        &mut out,
        &mut config,
        AccountCommand::Remove(RemoveCommand { account_id: ACCOUNT_ID.to_string() }),
    );
    assert!(res.is_ok());
    assert!(config.accounts.is_empty());
}

#[test]
fn listing_accounts_renders_a_snapshot() {
    let mut config = AppConfig::default();
    let mut out = OutputLog::new();
    run_command(
        &mut out,
        &mut config,
        AccountCommand::Add(AddCommand { secret_seed: SEED.to_string() }),
    )
    .unwrap();
    let mut out2 = OutputLog::new();
    let res = run_command(&mut out2, &mut config, AccountCommand::List);
    assert!(res.is_ok());
    match &out2.entries[0] {
        RenderValue::Accounts(list) => {
            assert_eq!(list.accounts.len(), 1);
            assert_eq!(list.accounts[0].account_id, ACCOUNT_ID);
        },
        other => panic!("expected an account list, got {:?}", other),
    }
}

#[test]
fn xlm_in_any_letter_case_is_the_native_asset() {
    assert_eq!(parse_asset("XLM".to_string()), Ok(Asset::Native));
    assert_eq!(parse_asset("xlm".to_string()), Ok(Asset::Native));
    assert_eq!(parse_asset("xLm".to_string()), Ok(Asset::Native));
}

#[test]
fn code_and_issuer_make_a_credit_asset() {
    let r = parse_asset(format!("USD:{}", ACCOUNT_ID));
    assert_eq!(
        r,
        Ok(Asset::Credit { code: "USD".to_string(), issuer: ACCOUNT_ID.to_string() })
    );
}

#[test]
fn a_plain_word_is_not_an_asset() {
    assert!(matches!(parse_asset("FOO".to_string()), Err(Error::Validation(_))));
    assert!(matches!(parse_asset(String::new()), Err(Error::Validation(_))));
}

#[test]
fn a_bad_issuer_is_rejected() {
    assert!(matches!(
        parse_asset("USD:GNOTANISSUER".to_string()),
        Err(Error::Validation(_))
    ));
}

#[test]
fn an_oversized_code_is_rejected() {
    let r = parse_asset(format!("ABCDEFGHIJKLM:{}", ACCOUNT_ID));
    assert!(matches!(r, Err(Error::Validation(_))));
}

#[test]
fn an_empty_code_is_rejected() {
    let r = parse_asset(format!(":{}", ACCOUNT_ID));
    assert!(matches!(r, Err(Error::Validation(_))));
}

#[test]
fn two_colons_are_rejected() {
    assert!(matches!(parse_asset("A:B:C".to_string()), Err(Error::Validation(_))));
}

#[test]
fn an_invalid_account_id_stops_a_lookup_before_any_call() {
    let mut out = OutputLog::new();
    let mut client = StubClient::with_outcome(RequestOutcome::Success("unused".to_string()));
    let config = AppConfig::default();
    let command = TradesForAccountCommand {
        account_id: "GARBLED".to_string(),
        paging: Paging::default(),
        streaming: Streaming { stream: false },
    };
    let res = run_for_account(&mut out, &config, &mut client, command);
    assert!(matches!(res, Err(Error::Validation(_))));
    assert!(client.calls.is_empty());
    assert!(out.entries.is_empty());
}

#[test]
fn a_valid_account_id_reaches_the_client() {
    let mut out = OutputLog::new();
    let mut client = StubClient::with_outcome(RequestOutcome::Success("trades".to_string()));
    let config = AppConfig::default();
    let command = TradesForAccountCommand {
        account_id: ACCOUNT_ID.to_string(),
        paging: Paging::default(),
        streaming: Streaming { stream: false },
    };
    let res = run_for_account(&mut out, &config, &mut client, command);
    assert!(res.is_ok());
    assert_eq!(
        client.calls,
        vec![Descriptor::new(Endpoint::TradesForAccount { account_id: ACCOUNT_ID.to_string() })]
    );
    assert_eq!(out.entries, vec![RenderValue::Payload("trades".to_string())]);
}
