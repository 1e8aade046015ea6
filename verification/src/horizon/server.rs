use vstd::prelude::*;

use crate::config::AppConfig;
use crate::config::Server;
use crate::config::servers_without;
use crate::error::Error;
use crate::render::RenderValue;
use crate::render::Renderer;

verus! {

/// The server management commands: add one, remove one, list all.
#[derive(Debug)]
pub enum ServerCommand {
    Add(AddCommand),
    Remove(RemoveCommand),
    List,
}

/// Adds a server under a name, bound to a URI.
#[derive(Debug)]
pub struct AddCommand {
    pub name: String,
    pub uri: String,
}

/// Removes the server with this name.
#[derive(Debug)]
pub struct RemoveCommand {
    pub name: String,
}

/// The string is a syntactically valid URI.
pub uninterp spec fn uri_ok(s: Seq<char>) -> bool;

/// Relies on url::Url::parse: syntactic URI validity is a function of
/// the string alone.
#[verifier::external_body]
pub(crate) fn check_uri(uri: &str) -> (r: bool)
    ensures
        r == uri_ok(uri@),
{
    url::Url::parse(uri).is_ok()
}

/// The add command went through: the server was appended unless its name
/// was already taken (in which case nothing changed), and the record
/// built from the command was rendered once either way.
pub open spec fn added_server(
    command: AddCommand,
    pre: AppConfig,
    post: AppConfig,
    before: Seq<RenderValue>,
    after: Seq<RenderValue>,
) -> bool {
    &&& (pre.has_server(command.name@) ==> post == pre)
    &&& (!pre.has_server(command.name@) ==> {
        &&& post.servers@ == pre.servers@.push(Server { name: command.name, uri: command.uri })
        &&& post.accounts == pre.accounts
        &&& post.default_server == pre.default_server
    })
    &&& after == before.push(RenderValue::Server(Server { name: command.name, uri: command.uri }))
}

/// What running a server command does to the configuration and output.
pub open spec fn server_command_post(
    command: ServerCommand,
    pre: AppConfig,
    post: AppConfig,
    res: Result<(), Error>,
    before: Seq<RenderValue>,
    after: Seq<RenderValue>,
) -> bool {
    match command {
        ServerCommand::Add(cmd) => {
            &&& (uri_ok(cmd.uri@) ==> res is Ok && added_server(cmd, pre, post, before, after))
            &&& (!uri_ok(cmd.uri@) ==> {
                &&& post == pre
                &&& after == before
                &&& res matches Err(e) && e matches Error::Validation(_)
            })
        },
        ServerCommand::Remove(cmd) => {
            &&& res is Ok
            &&& post.servers@ == servers_without(pre.servers@, cmd.name@)
            &&& post.accounts == pre.accounts
            &&& post.default_server == pre.default_server
            &&& after == before
        },
        ServerCommand::List => {
            &&& res is Ok
            &&& post == pre
            &&& after.len() == before.len() + 1
            &&& after.drop_last() == before
            &&& after.last() matches RenderValue::Servers(sl) && sl.servers@ == pre.servers@
        },
    }
}

/// Dispatches a server management command.
pub fn run_command<R: Renderer>(
    out: &mut R,
    config: &mut AppConfig,
    command: ServerCommand,
) -> (res: Result<(), Error>)
    ensures
        server_command_post(
            command,
            *old(config),
            *final(config),
            res,
            old(out).rendered(),
            final(out).rendered(),
        ),
{
    match command {
        ServerCommand::Add(cmd) => run_add(out, config, cmd),
        ServerCommand::Remove(cmd) => run_remove(out, config, cmd),
        ServerCommand::List => run_list(out, config),
    }
}

/// Validates the URI, then adds the server unless its name is already
/// taken (a silent no-op on the insert), and renders the record.
pub fn run_add<R: Renderer>(out: &mut R, config: &mut AppConfig, command: AddCommand) -> (res:
    Result<(), Error>)
    ensures
        uri_ok(command.uri@) ==> res is Ok && added_server(
            command,
            *old(config),
            *final(config),
            old(out).rendered(),
            final(out).rendered(),
        ),
        !uri_ok(command.uri@) ==> {
            &&& *final(config) == *old(config)
            &&& final(out).rendered() == old(out).rendered()
            &&& res matches Err(e) && e matches Error::Validation(_)
        },
{
    if !check_uri(command.uri.as_str()) {
        return Err(Error::Validation(command.uri));
    }
    let server = Server { name: command.name, uri: command.uri };
    let shown = server.clone();
    config.add_server(server);
    out.render(RenderValue::Server(shown));
    Ok(())
}

/// Removes every server with this name; an absent name is a no-op.
pub fn run_remove<R: Renderer>(
    out: &mut R,
    config: &mut AppConfig,
    command: RemoveCommand,
) -> (res: Result<(), Error>)
    ensures
        res is Ok,
        final(config).servers@ == servers_without(old(config).servers@, command.name@),
        final(config).accounts == old(config).accounts,
        final(config).default_server == old(config).default_server,
        final(out).rendered() == old(out).rendered(),
{
    let _ = out;
    config.remove_server(command.name.as_str());
    Ok(())
}

/// Renders a snapshot of the known servers, in stored order.
pub fn run_list<R: Renderer>(out: &mut R, config: &AppConfig) -> (res: Result<(), Error>)
    ensures
        res is Ok,
        final(out).rendered().len() == old(out).rendered().len() + 1,
        final(out).rendered().drop_last() == old(out).rendered(),
        final(out).rendered().last() matches RenderValue::Servers(sl) && sl.servers@
            == config.servers@,
{
    let list = config.list_servers();
    out.render(RenderValue::Servers(list));
    proof {
        assert(out.rendered().drop_last() =~= old(out).rendered());
    }
    Ok(())
}

} // verus!
