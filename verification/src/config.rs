use vstd::prelude::*;

use crate::error::Error;
use crate::stellar;

verus! {

/// A known server: a logical name bound to the URI of a remote API host.
#[derive(Debug, PartialEq, Eq)]
pub struct Server {
    pub name: String,
    pub uri: String,
}

/// A known account: the public account id and the secret seed it was
/// derived from. Both are validated by the external crypto collaborator
/// when the account enters the configuration, never by this core.
#[derive(Debug, PartialEq, Eq)]
pub struct Account {
    pub account_id: String,
    pub secret_seed: String,
}

/// The process-wide configuration: a default server name and the lists
/// of known servers and accounts, kept in insertion order.
#[derive(Debug, PartialEq, Eq)]
pub struct AppConfig {
    pub default_server: String,
    pub accounts: Vec<Account>,
    pub servers: Vec<Server>,
}

/// A snapshot of the known accounts, in stored order, for rendering.
#[derive(Debug, PartialEq, Eq)]
pub struct AccountList {
    pub accounts: Vec<Account>,
}

/// A snapshot of the known servers, in stored order, for rendering.
#[derive(Debug, PartialEq, Eq)]
pub struct ServerList {
    pub servers: Vec<Server>,
}

impl Clone for Server {
    fn clone(&self) -> (res: Server)
        ensures
            res == *self,
    {
        Server { name: self.name.clone(), uri: self.uri.clone() }
    }
}

impl Clone for Account {
    fn clone(&self) -> (res: Account)
        ensures
            res == *self,
    {
        Account { account_id: self.account_id.clone(), secret_seed: self.secret_seed.clone() }
    }
}

impl Server {
    /// Builds a server record from its name and URI, verbatim.
    pub fn new(name: &str, uri: &str) -> (s: Server)
        ensures
            s.name@ == name@,
            s.uri@ == uri@,
    {
        Server { name: name.to_owned(), uri: uri.to_owned() }
    }
}

impl Account {
    /// The account record derived from a key pair: the strkey encodings
    /// of its two halves, as the external crypto collaborator hands them
    /// out.
    pub fn new(keypair: &stellar_base::crypto::DalekKeyPair) -> Account {
        Account {
            account_id: stellar::keypair_account_id(keypair),
            secret_seed: stellar::keypair_secret_seed(keypair),
        }
    }
}

/// The accounts with this id removed, in their original order.
pub open spec fn accounts_without(accounts: Seq<Account>, id: Seq<char>) -> Seq<Account>
    decreases accounts.len(),
{
    if accounts.len() == 0 {
        Seq::empty()
    } else {
        let rest = accounts_without(accounts.drop_last(), id);
        if accounts.last().account_id@ == id {
            rest
        } else {
            rest.push(accounts.last())
        }
    }
}

/// The servers with this name removed, in their original order.
pub open spec fn servers_without(servers: Seq<Server>, name: Seq<char>) -> Seq<Server>
    decreases servers.len(),
{
    if servers.len() == 0 {
        Seq::empty()
    } else {
        let rest = servers_without(servers.drop_last(), name);
        if servers.last().name@ == name {
            rest
        } else {
            rest.push(servers.last())
        }
    }
}

/// There is a server with this name at index `i`, and none before it.
pub open spec fn server_at(servers: Seq<Server>, name: Seq<char>, i: int) -> bool {
    &&& 0 <= i < servers.len()
    &&& servers[i].name@ == name
    &&& forall|j: int| 0 <= j < i ==> servers[j].name@ != name
}

impl AppConfig {
    /// Some server in the configuration has this name.
    pub open spec fn has_server(self, name: Seq<char>) -> bool {
        exists|i: int| 0 <= i < self.servers@.len() && self.servers@[i].name@ == name
    }

    /// Some account in the configuration has this account id.
    pub open spec fn has_account(self, account_id: Seq<char>) -> bool {
        exists|i: int|
            0 <= i < self.accounts@.len() && self.accounts@[i].account_id@ == account_id
    }

    /// Looks the name up among the known servers and returns the first
    /// match. Fails exactly when no server carries the name; a dangling
    /// `default_server` is therefore tolerated until it is used.
    pub fn resolve_server(&self, server_name: &str) -> (r: Result<Server, Error>)
        ensures
            match r {
                Ok(s) => exists|i: int|
                    #[trigger] server_at(self.servers@, server_name@, i) && s == self.servers@[i],
                Err(e) => {
                    &&& !self.has_server(server_name@)
                    &&& e matches Error::UnknownServer(n) && n@ == server_name@
                },
            },
    {
        let name: String = server_name.to_owned();
        let n = self.servers.len();
        for i in 0..n
            invariant
                n == self.servers@.len(),
                name@ == server_name@,
                forall|j: int| 0 <= j < i ==> self.servers@[j].name@ != server_name@,
        {
            if self.servers[i].name == name {
                let found = self.servers[i].clone();
                assert(server_at(self.servers@, server_name@, i as int));
                return Ok(found);
            }
        }
        Err(Error::UnknownServer(name))
    }

    /// Appends the account unless one with the same id is already known:
    /// adding a duplicate leaves the configuration entirely unchanged.
    pub fn add_account(&mut self, account: Account)
        ensures
            old(self).has_account(account.account_id@) ==> *final(self) == *old(self),
            !old(self).has_account(account.account_id@) ==> {
                &&& final(self).accounts@ == old(self).accounts@.push(account)
                &&& final(self).servers == old(self).servers
                &&& final(self).default_server == old(self).default_server
            },
    {
        let n = self.accounts.len();
        for i in 0..n
            invariant
                n == self.accounts@.len(),
                forall|j: int| 0 <= j < i ==> self.accounts@[j].account_id@ != account.account_id@,
        {
            if self.accounts[i].account_id == account.account_id {
                assert(old(self).has_account(account.account_id@));
                return ;
            }
        }
        self.accounts.push(account);
    }

    /// Appends the server unless one with the same name is already known:
    /// adding a duplicate leaves the configuration entirely unchanged.
    pub fn add_server(&mut self, server: Server)
        ensures
            old(self).has_server(server.name@) ==> *final(self) == *old(self),
            !old(self).has_server(server.name@) ==> {
                &&& final(self).servers@ == old(self).servers@.push(server)
                &&& final(self).accounts == old(self).accounts
                &&& final(self).default_server == old(self).default_server
            },
    {
        let n = self.servers.len();
        for i in 0..n
            invariant
                n == self.servers@.len(),
                forall|j: int| 0 <= j < i ==> self.servers@[j].name@ != server.name@,
        {
            if self.servers[i].name == server.name {
                assert(old(self).has_server(server.name@));
                return ;
            }
        }
        self.servers.push(server);
    }

    /// Removes every account with this id; removing an absent id is a
    /// no-op rather than an error.
    pub fn remove_account(&mut self, account_id: &str)
        ensures
            final(self).accounts@ == accounts_without(old(self).accounts@, account_id@),
            final(self).servers == old(self).servers,
            final(self).default_server == old(self).default_server,
    {
        let id: String = account_id.to_owned();
        let mut kept: Vec<Account> = Vec::new();
        let n = self.accounts.len();
        for i in 0..n
            invariant
                *self == *old(self),
                n == self.accounts@.len(),
                id@ == account_id@,
                kept@ == accounts_without(self.accounts@.take(i as int), account_id@),
        {
            proof {
                let prev = self.accounts@.take(i as int);
                let cur = self.accounts@.take(i + 1);
                assert(cur.drop_last() =~= prev);
                assert(cur.last() == self.accounts@[i as int]);
            }
            if !(self.accounts[i].account_id == id) {
                kept.push(self.accounts[i].clone());
            }
        }
        proof {
            assert(self.accounts@.take(n as int) =~= self.accounts@);
        }
        self.accounts = kept;
    }

    /// Removes every server with this name; removing an absent name is a
    /// no-op rather than an error.
    pub fn remove_server(&mut self, name: &str)
        ensures
            final(self).servers@ == servers_without(old(self).servers@, name@),
            final(self).accounts == old(self).accounts,
            final(self).default_server == old(self).default_server,
    {
        let wanted: String = name.to_owned();
        let mut kept: Vec<Server> = Vec::new();
        let n = self.servers.len();
        for i in 0..n
            invariant
                *self == *old(self),
                n == self.servers@.len(),
                wanted@ == name@,
                kept@ == servers_without(self.servers@.take(i as int), name@),
        {
            proof {
                let prev = self.servers@.take(i as int);
                let cur = self.servers@.take(i + 1);
                assert(cur.drop_last() =~= prev);
                assert(cur.last() == self.servers@[i as int]);
            }
            if !(self.servers[i].name == wanted) {
                kept.push(self.servers[i].clone());
            }
        }
        proof {
            assert(self.servers@.take(n as int) =~= self.servers@);
        }
        self.servers = kept;
    }

    /// A snapshot copy of the known accounts, in stored order.
    pub fn list_accounts(&self) -> (r: AccountList)
        ensures
            r.accounts@ == self.accounts@,
    {
        let mut copy: Vec<Account> = Vec::new();
        let n = self.accounts.len();
        for i in 0..n
            invariant
                n == self.accounts@.len(),
                copy@ == self.accounts@.take(i as int),
        {
            copy.push(self.accounts[i].clone());
        }
        assert(self.accounts@.take(n as int) == self.accounts@);
        AccountList { accounts: copy }
    }

    /// A snapshot copy of the known servers, in stored order.
    pub fn list_servers(&self) -> (r: ServerList)
        ensures
            r.servers@ == self.servers@,
    {
        let mut copy: Vec<Server> = Vec::new();
        let n = self.servers.len();
        for i in 0..n
            invariant
                n == self.servers@.len(),
                copy@ == self.servers@.take(i as int),
        {
            copy.push(self.servers[i].clone());
        }
        assert(self.servers@.take(n as int) == self.servers@);
        ServerList { servers: copy }
    }
}

impl Default for AppConfig {
    /// The configuration used when nothing has been persisted yet: the
    /// two well-known servers, no accounts, and "test" as the default.
    fn default() -> (c: AppConfig)
        ensures
            c.default_server@ == "test"@,
            c.accounts@.len() == 0,
            c.servers@.len() == 2,
            c.servers@[0].name@ == "public"@,
            c.servers@[0].uri@ == "https://horizon.stellar.org"@,
            c.servers@[1].name@ == "test"@,
            c.servers@[1].uri@ == "https://horizon-testnet.stellar.org"@,
    {
        let mut servers: Vec<Server> = Vec::new();
        servers.push(Server::new("public", "https://horizon.stellar.org"));
        servers.push(Server::new("test", "https://horizon-testnet.stellar.org"));
        AppConfig { accounts: Vec::new(), default_server: "test".to_owned(), servers }
    }
}

} // verus!
