use vstd::prelude::*;

use crate::error::Error;
use crate::request::Descriptor;

verus! {

/// What one submitted request came back as: a decoded response payload,
/// an API-reported failure with its error body, or a transport-level
/// failure with no well-formed body at all.
#[derive(Debug, PartialEq, Eq)]
pub enum RequestOutcome {
    Success(String),
    ApiFailure(String),
    TransportFailure(String),
}

/// One element of a live event sequence: a decoded event payload, or the
/// decode/transport failure that ends the stream.
#[derive(Debug, PartialEq, Eq)]
pub enum StreamEvent {
    Message(String),
    Failure(String),
}

impl Clone for StreamEvent {
    fn clone(&self) -> (res: StreamEvent)
        ensures
            res == *self,
    {
        match self {
            StreamEvent::Message(body) => StreamEvent::Message(body.clone()),
            StreamEvent::Failure(msg) => StreamEvent::Failure(msg.clone()),
        }
    }
}

/// The HTTP client capability consumed by the engine.
///
/// `completed()` is the sequence of descriptors submitted so far, over
/// both `request` and `stream`: contracts over it pin down that exactly
/// one network call is made per engine invocation, and with which
/// descriptor. `next_outcome()` and `next_stream()` are what the next
/// submission comes back as; the engine promises nothing about their
/// values, only what it does with every possible value.
pub trait Client {
    spec fn completed(&self) -> Seq<Descriptor>;

    spec fn next_outcome(&self) -> RequestOutcome;

    spec fn next_stream(&self) -> Result<Vec<StreamEvent>, Error>;

    /// Submits one request and waits for its outcome.
    fn request(&mut self, request: &Descriptor) -> (outcome: RequestOutcome)
        ensures
            final(self).completed() == old(self).completed().push(*request),
            outcome == old(self).next_outcome(),
    ;

    /// Opens a live, order-preserving sequence of decoded events, handed
    /// back as they arrived until the connection ended or failed.
    fn stream(&mut self, request: &Descriptor) -> (events: Result<Vec<StreamEvent>, Error>)
        ensures
            final(self).completed() == old(self).completed().push(*request),
            events == old(self).next_stream(),
    ;
}

/// A scripted client: it answers each request with the next scripted
/// outcome and a stream request with the scripted event sequence, and
/// records every descriptor submitted to it. It stands in for the real
/// transport wherever the engine's behaviour is exercised directly.
pub struct StubClient {
    /// Outcomes handed out in order, one per request.
    pub script: Vec<RequestOutcome>,
    /// What the next stream call hands back, if scripted.
    pub stream_script: Option<Result<Vec<StreamEvent>, Error>>,
    /// The transport-failure text used once the script is exhausted.
    pub exhausted: String,
    /// Every descriptor submitted so far, in order.
    pub calls: Vec<Descriptor>,
}

impl StubClient {
    /// A stub that answers one request with the given outcome.
    pub fn with_outcome(outcome: RequestOutcome) -> (c: StubClient)
        ensures
            c.completed().len() == 0,
            c.next_outcome() == outcome,
    {
        let mut script: Vec<RequestOutcome> = Vec::new();
        script.push(outcome);
        StubClient {
            script,
            stream_script: None,
            exhausted: String::new(),
            calls: Vec::new(),
        }
    }

    /// A stub whose next stream call hands back these events.
    pub fn with_stream(events: Vec<StreamEvent>) -> (c: StubClient)
        ensures
            c.completed().len() == 0,
            c.next_stream() matches Ok(evs) && evs@ == events@,
    {
        StubClient {
            script: Vec::new(),
            stream_script: Some(Ok(events)),
            exhausted: String::new(),
            calls: Vec::new(),
        }
    }
}

impl Client for StubClient {
    open spec fn completed(&self) -> Seq<Descriptor> {
        self.calls@
    }

    open spec fn next_outcome(&self) -> RequestOutcome {
        if self.script@.len() == 0 {
            RequestOutcome::TransportFailure(self.exhausted)
        } else {
            self.script@[0]
        }
    }

    open spec fn next_stream(&self) -> Result<Vec<StreamEvent>, Error> {
        match self.stream_script {
            Some(r) => r,
            None => Err(Error::Transport(self.exhausted)),
        }
    }

    fn request(&mut self, request: &Descriptor) -> (outcome: RequestOutcome) {
        self.calls.push(request.clone());
        if self.script.len() == 0 {
            RequestOutcome::TransportFailure(self.exhausted.clone())
        } else {
            self.script.remove(0)
        }
    }

    fn stream(&mut self, request: &Descriptor) -> (events: Result<Vec<StreamEvent>, Error>) {
        self.calls.push(request.clone());
        match self.stream_script.take() {
            Some(r) => r,
            None => Err(Error::Transport(self.exhausted.clone())),
        }
    }
}

} // verus!
