use vstd::prelude::*;

use crate::config::Account;
use crate::config::AccountList;
use crate::config::Server;
use crate::config::ServerList;

verus! {

/// A value handed to the rendering capability: either an opaque response
/// payload from the remote service (a decoded response, a streamed
/// event, or an API error body), or one of the configuration records
/// that the local commands print.
#[derive(Debug, PartialEq, Eq)]
pub enum RenderValue {
    Payload(String),
    Account(Account),
    Server(Server),
    Accounts(AccountList),
    Servers(ServerList),
}

/// The rendering capability consumed by the engine. An implementation
/// chooses the concrete output format once per process; the engine never
/// branches on format and only ever calls `render`.
///
/// `rendered()` is the sequence of values rendered so far; `render`
/// appends exactly one value to it, so every contract over this trait
/// pins down how often and in which order rendering happens.
pub trait Renderer {
    spec fn rendered(&self) -> Seq<RenderValue>;

    fn render(&mut self, value: RenderValue)
        ensures
            final(self).rendered() == old(self).rendered().push(value),
    ;
}

/// A renderer that records what it was asked to render, in order.
pub struct OutputLog {
    pub entries: Vec<RenderValue>,
}

impl OutputLog {
    /// An empty log.
    pub fn new() -> (out: OutputLog)
        ensures
            out.rendered().len() == 0,
    {
        OutputLog { entries: Vec::new() }
    }
}

impl Renderer for OutputLog {
    open spec fn rendered(&self) -> Seq<RenderValue> {
        self.entries@
    }

    fn render(&mut self, value: RenderValue) {
        self.entries.push(value);
    }
}

} // verus!
