use aurora::client::RequestOutcome;
use aurora::client::StubClient;
use aurora::config::Account;
use aurora::config::AppConfig;
use aurora::config::Server;
use aurora::error::Error;
use aurora::horizon::HorizonCommand;
use aurora::horizon::HorizonInnerCommand;
use aurora::horizon::HorizonNonServerCommand;
use aurora::horizon::run_command;
use aurora::horizon::server::AddCommand;
use aurora::horizon::server::RemoveCommand;
use aurora::horizon::server::ServerCommand;
use aurora::render::OutputLog;
use aurora::render::RenderValue;
use aurora::request::Descriptor;
use aurora::request::Endpoint;

#[test]
fn default_config_seeds_the_two_known_servers() {
    let config = AppConfig::default();
    assert_eq!(config.default_server, "test");
    assert!(config.accounts.is_empty());
    assert_eq!(config.servers.len(), 2);
    assert_eq!(config.servers[0], Server::new("public", "https://horizon.stellar.org"));
    assert_eq!(config.servers[1], Server::new("test", "https://horizon-testnet.stellar.org"));
}

#[test]
fn adding_a_duplicate_server_name_changes_nothing() {
    let mut config = AppConfig::default();
    config.add_server(Server::new("test", "https://elsewhere.example.org"));
    assert_eq!(config.servers.len(), 2);
    assert_eq!(config.servers[1], Server::new("test", "https://horizon-testnet.stellar.org"));
}

#[test]
fn adding_a_new_server_appends_it_in_order() {
    let mut config = AppConfig::default();
    config.add_server(Server::new("local", "http://localhost:8000"));
    assert_eq!(config.servers.len(), 3);
    assert_eq!(config.servers[2], Server::new("local", "http://localhost:8000"));
}

#[test]
fn adding_a_duplicate_account_id_changes_nothing() {
    let mut config = AppConfig::default();
    config.add_account(Account {
        account_id: "GAAA".to_string(),
        secret_seed: "SAAA".to_string(),
    });
    config.add_account(Account {
        account_id: "GAAA".to_string(),
        secret_seed: "SBBB".to_string(),
    });
    assert_eq!(config.accounts.len(), 1);
    assert_eq!(config.accounts[0].secret_seed, "SAAA");
}

#[test]
fn removing_an_absent_key_is_a_no_op() {
    let mut config = AppConfig::default();
    config.remove_server("nowhere");
    assert_eq!(config.servers.len(), 2);
    config.remove_account("GNOBODY");
    assert!(config.accounts.is_empty());
}

#[test]
fn list_snapshots_keep_insertion_order() {
    let mut config = AppConfig::default();
    config.add_server(Server::new("a", "https://a.example.org"));
    config.add_server(Server::new("b", "https://b.example.org"));
    let listed = config.list_servers();
    assert_eq!(listed.servers, config.servers);
    let names: Vec<&str> = listed.servers.iter().map(|s| s.name.as_str()).collect();
    assert_eq!(names, vec!["public", "test", "a", "b"]);
}

#[test]
fn resolve_server_finds_a_configured_name() {
    let config = AppConfig::default();
    let server = config.resolve_server("test").unwrap();
    assert_eq!(server, Server::new("test", "https://horizon-testnet.stellar.org"));
}

#[test]
fn resolve_server_fails_on_an_unknown_name() {
    let config = AppConfig::default();
    let r = config.resolve_server("nowhere");
    assert_eq!(r, Err(Error::UnknownServer("nowhere".to_string())));
}

#[test]
fn unset_server_flag_falls_back_to_the_default() {
    let mut config = AppConfig::default();
    let mut out = OutputLog::new();
    let mut client = StubClient::with_outcome(RequestOutcome::Success("info".to_string()));
    let command = HorizonCommand {
        server: None,
        command: HorizonInnerCommand::NonServer(HorizonNonServerCommand::Info),
    };
    let res = run_command(&mut out, &mut config, &mut client, command);
    assert!(res.is_ok());
    assert_eq!(client.calls, vec![Descriptor::new(Endpoint::Root)]);
}

#[test]
fn default_server_fails_only_once_removed() {
    let mut config = AppConfig::default();
    config.remove_server("test");
    let mut out = OutputLog::new();
    let mut client = StubClient::with_outcome(RequestOutcome::Success("info".to_string()));
    let command = HorizonCommand {
        server: None,
        command: HorizonInnerCommand::NonServer(HorizonNonServerCommand::Info),
    };
    let res = run_command(&mut out, &mut config, &mut client, command);
    assert_eq!(res, Err(Error::UnknownServer("test".to_string())));
    assert!(client.calls.is_empty());
    assert!(out.entries.is_empty());
}

#[test]
fn server_add_command_validates_the_uri() {
    let mut config = AppConfig::default();
    let mut out = OutputLog::new();
    let mut client = StubClient::with_outcome(RequestOutcome::Success("unused".to_string()));
    let command = HorizonCommand {
        server: None,
        command: HorizonInnerCommand::Server(ServerCommand::Add(AddCommand {
            name: "bad".to_string(),
            uri: "not a uri".to_string(),
        })),
    };
    let res = run_command(&mut out, &mut config, &mut client, command);
    assert!(matches!(res, Err(Error::Validation(_))));
    assert_eq!(config.servers.len(), 2);
    assert!(out.entries.is_empty());
    assert!(client.calls.is_empty());
}

#[test]
fn server_add_command_adds_and_renders_the_server() {
    let mut config = AppConfig::default();
    let mut out = OutputLog::new();
    let mut client = StubClient::with_outcome(RequestOutcome::Success("unused".to_string()));
    let command = HorizonCommand {
        server: None,
        command: HorizonInnerCommand::Server(ServerCommand::Add(AddCommand {
            name: "local".to_string(),
            uri: "http://localhost:8000".to_string(),
        })),
    };
    let res = run_command(&mut out, &mut config, &mut client, command);
    assert!(res.is_ok());
    assert_eq!(config.servers.len(), 3);
    assert_eq!(
        out.entries,
        vec![RenderValue::Server(Server::new("local", "http://localhost:8000"))]
    );
}

#[test]
fn server_remove_command_removes_by_name() {
    let mut config = AppConfig::default();
    let mut out = OutputLog::new();
    let mut client = StubClient::with_outcome(RequestOutcome::Success("unused".to_string()));
    let command = HorizonCommand {
        server: None,
        command: HorizonInnerCommand::Server(ServerCommand::Remove(RemoveCommand {
            name: "public".to_string(),
        })),
    };
    let res = run_command(&mut out, &mut config, &mut client, command);
    assert!(res.is_ok());
    assert_eq!(config.servers.len(), 1);
    assert_eq!(config.servers[0].name, "test");
}

#[test]
fn server_list_command_renders_a_snapshot() {
    let mut config = AppConfig::default();
    let mut out = OutputLog::new();
    let mut client = StubClient::with_outcome(RequestOutcome::Success("unused".to_string()));
    let command = HorizonCommand {
        server: None,
        command: HorizonInnerCommand::Server(ServerCommand::List),
    };
    let res = run_command(&mut out, &mut config, &mut client, command);
    assert!(res.is_ok());
    assert_eq!(out.entries.len(), 1);
    match &out.entries[0] {
        RenderValue::Servers(list) => assert_eq!(list.servers, config.servers),
        other => panic!("expected a server list, got {:?}", other),
    }
}
