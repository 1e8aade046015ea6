//! The persisted-record round trip: storing a configuration and loading
//! it again yields a configuration equal in all fields. The record shape
//! mirrors what a process persists; the serde impls are written by hand
//! since the test harness carries no derive machinery.

use aurora::config::{Account, AppConfig, Server};
use serde::de::{Deserialize, Deserializer, Error as DeError, IgnoredAny, MapAccess, Visitor};
use serde::ser::{Serialize, SerializeStruct, Serializer};

struct ConfigDoc {
    default_server: String,
    accounts: Vec<AccountDoc>,
    servers: Vec<ServerDoc>,
}

struct AccountDoc {
    account_id: String,
    secret_seed: String,
}

struct ServerDoc {
    name: String,
    uri: String,
}

impl Default for ConfigDoc {
    fn default() -> Self {
        ConfigDoc { default_server: String::new(), accounts: Vec::new(), servers: Vec::new() }
    }
}

impl Serialize for ConfigDoc {
    fn serialize<S: Serializer>(&self, serializer: S) -> Result<S::Ok, S::Error> {
        let mut st = serializer.serialize_struct("ConfigDoc", 3)?;
        st.serialize_field("default_server", &self.default_server)?;
        st.serialize_field("accounts", &self.accounts)?;
        st.serialize_field("servers", &self.servers)?;
        st.end()
    }
}

impl Serialize for AccountDoc {
    fn serialize<S: Serializer>(&self, serializer: S) -> Result<S::Ok, S::Error> {
        let mut st = serializer.serialize_struct("AccountDoc", 2)?;
        st.serialize_field("account_id", &self.account_id)?;
        st.serialize_field("secret_seed", &self.secret_seed)?;
        st.end()
    }
}

impl Serialize for ServerDoc {
    fn serialize<S: Serializer>(&self, serializer: S) -> Result<S::Ok, S::Error> {
        let mut st = serializer.serialize_struct("ServerDoc", 2)?;
        st.serialize_field("name", &self.name)?;
        st.serialize_field("uri", &self.uri)?;
        st.end()
    }
}

struct ConfigVisitor;

impl<'de> Visitor<'de> for ConfigVisitor {
    type Value = ConfigDoc;

    fn expecting(&self, f: &mut std::fmt::Formatter) -> std::fmt::Result {
        f.write_str("a configuration record")
    }

    fn visit_map<M: MapAccess<'de>>(self, mut map: M) -> Result<ConfigDoc, M::Error> {
        let mut default_server: Option<String> = None;
        let mut accounts: Option<Vec<AccountDoc>> = None;
        let mut servers: Option<Vec<ServerDoc>> = None;
        while let Some(key) = map.next_key::<String>()? {
            match key.as_str() {
                "default_server" => default_server = Some(map.next_value()?),
                "accounts" => accounts = Some(map.next_value()?),
                "servers" => servers = Some(map.next_value()?),
                _ => {
                    let _: IgnoredAny = map.next_value()?;
                }
            }
        }
        Ok(ConfigDoc {
            default_server: default_server
                .ok_or_else(|| M::Error::missing_field("default_server"))?,
            accounts: accounts.ok_or_else(|| M::Error::missing_field("accounts"))?,
            servers: servers.ok_or_else(|| M::Error::missing_field("servers"))?,
        })
    }
}

impl<'de> Deserialize<'de> for ConfigDoc {
    fn deserialize<D: Deserializer<'de>>(deserializer: D) -> Result<Self, D::Error> {
        deserializer.deserialize_struct(
            "ConfigDoc",
            &["default_server", "accounts", "servers"],
            ConfigVisitor,
        )
    }
}

struct AccountVisitor;

impl<'de> Visitor<'de> for AccountVisitor {
    type Value = AccountDoc;

    fn expecting(&self, f: &mut std::fmt::Formatter) -> std::fmt::Result {
        f.write_str("an account record")
    }

    fn visit_map<M: MapAccess<'de>>(self, mut map: M) -> Result<AccountDoc, M::Error> {
        let mut account_id: Option<String> = None;
        let mut secret_seed: Option<String> = None;
        while let Some(key) = map.next_key::<String>()? {
            match key.as_str() {
                "account_id" => account_id = Some(map.next_value()?),
                "secret_seed" => secret_seed = Some(map.next_value()?),
                _ => {
                    let _: IgnoredAny = map.next_value()?;
                }
            }
        }
        Ok(AccountDoc {
            account_id: account_id.ok_or_else(|| M::Error::missing_field("account_id"))?,
            secret_seed: secret_seed.ok_or_else(|| M::Error::missing_field("secret_seed"))?,
        })
    }
}

impl<'de> Deserialize<'de> for AccountDoc {
    fn deserialize<D: Deserializer<'de>>(deserializer: D) -> Result<Self, D::Error> {
        deserializer.deserialize_struct(
            "AccountDoc",
            &["account_id", "secret_seed"],
            AccountVisitor,
        )
    }
}

struct ServerVisitor;

impl<'de> Visitor<'de> for ServerVisitor {
    type Value = ServerDoc;

    fn expecting(&self, f: &mut std::fmt::Formatter) -> std::fmt::Result {
        f.write_str("a server record")
    }

    fn visit_map<M: MapAccess<'de>>(self, mut map: M) -> Result<ServerDoc, M::Error> {
        let mut name: Option<String> = None;
        let mut uri: Option<String> = None;
        while let Some(key) = map.next_key::<String>()? {
            match key.as_str() {
                "name" => name = Some(map.next_value()?),
                "uri" => uri = Some(map.next_value()?),
                _ => {
                    let _: IgnoredAny = map.next_value()?;
                }
            }
        }
        Ok(ServerDoc {
            name: name.ok_or_else(|| M::Error::missing_field("name"))?,
            uri: uri.ok_or_else(|| M::Error::missing_field("uri"))?,
        })
    }
}

impl<'de> Deserialize<'de> for ServerDoc {
    fn deserialize<D: Deserializer<'de>>(deserializer: D) -> Result<Self, D::Error> {
        deserializer.deserialize_struct("ServerDoc", &["name", "uri"], ServerVisitor)
    }
}

fn to_doc(config: &AppConfig) -> ConfigDoc {
    ConfigDoc {
        default_server: config.default_server.clone(),
        accounts: config
            .accounts
            .iter()
            .map(|a| AccountDoc {
                account_id: a.account_id.clone(),
                secret_seed: a.secret_seed.clone(),
            })
            .collect(),
        servers: config
            .servers
            .iter()
            .map(|s| ServerDoc { name: s.name.clone(), uri: s.uri.clone() })
            .collect(),
    }
}

fn from_doc(doc: ConfigDoc) -> AppConfig {
    AppConfig {
        default_server: doc.default_server,
        accounts: doc
            .accounts
            .into_iter()
            .map(|a| Account { account_id: a.account_id, secret_seed: a.secret_seed })
            .collect(),
        servers: doc
            .servers
            .into_iter()
            .map(|s| Server { name: s.name, uri: s.uri })
            .collect(),
    }
}

#[test]
fn stored_configuration_loads_back_equal() {
    let mut config = AppConfig::default();
    config.add_server(Server::new("local", "http://localhost:8000"));
    config.add_account(Account {
        account_id: "GDRZ6UR4VI3DWATUKAXCGCGAUXGF3IJYG5T3CTJDUJ674TFLN4AR6RV4".to_string(),
        secret_seed: "SCRG6SFG64YDEVGWDWTZBE6BWEW25WICOGOUTODVICCA3L3FOQIG26E6".to_string(),
    });

    confy::store("aurora_round_trip_check", None, to_doc(&config)).unwrap();
    let loaded: ConfigDoc = confy::load("aurora_round_trip_check", None).unwrap();
    let reloaded = from_doc(loaded);

    assert_eq!(reloaded, config);
}
