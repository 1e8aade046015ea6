use vstd::prelude::*;

use crate::config::Account;
use crate::config::AppConfig;
use crate::config::accounts_without;
use crate::error::Error;
use crate::render::RenderValue;
use crate::render::Renderer;
use crate::stellar;
use crate::stellar::secret_seed_ok;

verus! {

/// The local account commands: derive a fresh random account, import one
/// from a secret seed, remove one by id, or list them all.
#[derive(Debug)]
pub enum AccountCommand {
    New,
    Add(AddCommand),
    Remove(RemoveCommand),
    List,
}

/// Imports the account derived from this secret seed.
#[derive(Debug)]
pub struct AddCommand {
    pub secret_seed: String,
}

/// Removes the account with this account id.
#[derive(Debug)]
pub struct RemoveCommand {
    pub account_id: String,
}

/// A key pair entered the configuration as this account record: appended
/// unless its id was already known (in which case nothing changed), and
/// rendered once either way.
pub open spec fn keypair_added(
    account: Account,
    pre: AppConfig,
    post: AppConfig,
    before: Seq<RenderValue>,
    after: Seq<RenderValue>,
) -> bool {
    &&& (pre.has_account(account.account_id@) ==> post == pre)
    &&& (!pre.has_account(account.account_id@) ==> {
        &&& post.accounts@ == pre.accounts@.push(account)
        &&& post.servers == pre.servers
        &&& post.default_server == pre.default_server
    })
    &&& after == before.push(RenderValue::Account(account))
}

/// What running an account command does to the configuration and output.
pub open spec fn account_command_post(
    command: AccountCommand,
    pre: AppConfig,
    post: AppConfig,
    res: Result<(), Error>,
    before: Seq<RenderValue>,
    after: Seq<RenderValue>,
) -> bool {
    match command {
        AccountCommand::New => res is Ok && exists|account: Account|
            #[trigger] keypair_added(account, pre, post, before, after),
        AccountCommand::Add(cmd) => {
            &&& (secret_seed_ok(cmd.secret_seed@) ==> res is Ok && exists|account: Account|
                #[trigger] keypair_added(account, pre, post, before, after))
            &&& (!secret_seed_ok(cmd.secret_seed@) ==> {
                &&& post == pre
                &&& after == before
                &&& res matches Err(e) && e matches Error::Validation(_)
            })
        },
        AccountCommand::Remove(cmd) => {
            &&& res is Ok
            &&& post.accounts@ == accounts_without(pre.accounts@, cmd.account_id@)
            &&& post.servers == pre.servers
            &&& post.default_server == pre.default_server
            &&& after == before
        },
        AccountCommand::List => {
            &&& res is Ok
            &&& post == pre
            &&& after.len() == before.len() + 1
            &&& after.drop_last() == before
            &&& after.last() matches RenderValue::Accounts(al) && al.accounts@ == pre.accounts@
        },
    }
}

/// Dispatches a local account command.
pub fn run_command<R: Renderer>(
    out: &mut R,
    config: &mut AppConfig,
    command: AccountCommand,
) -> (res: Result<(), Error>)
    ensures
        account_command_post(
            command,
            *old(config),
            *final(config),
            res,
            old(out).rendered(),
            final(out).rendered(),
        ),
{
    match command {
        AccountCommand::New => run_new(out, config),
        AccountCommand::Add(cmd) => run_add(out, config, cmd),
        AccountCommand::Remove(cmd) => run_remove(out, config, cmd),
        AccountCommand::List => run_list(out, config),
    }
}

/// Derives a fresh random key pair and adds its account.
pub fn run_new<R: Renderer>(out: &mut R, config: &mut AppConfig) -> (res: Result<(), Error>)
    ensures
        res is Ok,
        exists|account: Account|
            #[trigger] keypair_added(
                account,
                *old(config),
                *final(config),
                old(out).rendered(),
                final(out).rendered(),
            ),
{
    let keypair = match stellar::keypair_random() {
        Ok(kp) => kp,
        Err(e) => {
            return Err(e);
        },
    };
    add_keypair_to_config(out, config, &keypair)
}

/// Imports the key pair derived from the given secret seed and adds its
/// account; a seed that does not decode is rejected.
pub fn run_add<R: Renderer>(out: &mut R, config: &mut AppConfig, command: AddCommand) -> (res:
    Result<(), Error>)
    ensures
        secret_seed_ok(command.secret_seed@) ==> res is Ok && exists|account: Account|
            #[trigger] keypair_added(
                account,
                *old(config),
                *final(config),
                old(out).rendered(),
                final(out).rendered(),
            ),
        !secret_seed_ok(command.secret_seed@) ==> {
            &&& *final(config) == *old(config)
            &&& final(out).rendered() == old(out).rendered()
            &&& res matches Err(e) && e matches Error::Validation(_)
        },
{
    let keypair = match stellar::keypair_from_seed(command.secret_seed.as_str()) {
        Ok(kp) => kp,
        Err(e) => {
            return Err(e);
        },
    };
    add_keypair_to_config(out, config, &keypair)
}

/// Removes every account with this id; an absent id is a no-op.
pub fn run_remove<R: Renderer>(
    out: &mut R,
    config: &mut AppConfig,
    command: RemoveCommand,
) -> (res: Result<(), Error>)
    ensures
        res is Ok,
        final(config).accounts@ == accounts_without(old(config).accounts@, command.account_id@),
        final(config).servers == old(config).servers,
        final(config).default_server == old(config).default_server,
        final(out).rendered() == old(out).rendered(),
{
    let _ = out;
    config.remove_account(command.account_id.as_str());
    Ok(())
}

/// Renders a snapshot of the known accounts, in stored order.
pub fn run_list<R: Renderer>(out: &mut R, config: &AppConfig) -> (res: Result<(), Error>)
    ensures
        res is Ok,
        final(out).rendered().len() == old(out).rendered().len() + 1,
        final(out).rendered().drop_last() == old(out).rendered(),
        final(out).rendered().last() matches RenderValue::Accounts(al) && al.accounts@
            == config.accounts@,
{
    let list = config.list_accounts();
    out.render(RenderValue::Accounts(list));
    proof {
        assert(out.rendered().drop_last() =~= old(out).rendered());
    }
    Ok(())
}

/// Turns a key pair into an account record, enters it into the
/// configuration (a duplicate id is a silent no-op on the insert), and
/// renders the record.
fn add_keypair_to_config<R: Renderer>(
    out: &mut R,
    config: &mut AppConfig,
    keypair: &stellar_base::crypto::DalekKeyPair,
) -> (res: Result<(), Error>)
    ensures
        res is Ok,
        exists|account: Account|
            #[trigger] keypair_added(
                account,
                *old(config),
                *final(config),
                old(out).rendered(),
                final(out).rendered(),
            ),
{
    let account = Account::new(keypair);
    let ghost witness = account;
    let shown = account.clone();
    config.add_account(account);
    out.render(RenderValue::Account(shown));
    proof {
        assert(keypair_added(witness, *old(config), *config, old(out).rendered(), out.rendered()));
    }
    Ok(())
}

} // verus!
