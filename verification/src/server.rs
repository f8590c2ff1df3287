//! Server-level types and the accept-loop decision logic.
//!
//! The accept loop itself performs socket I/O and therefore lives outside the
//! library; every decision it takes — stop on shutdown, hand a connection to
//! the pool, back off when no connection is pending — is computed here by
//! [`accept_step`], so that the loop's control flow is verified even though
//! its I/O is not.

use vstd::prelude::*;
use vstd::string::StringExecFns;

verus! {

/// How long the accept loop sleeps between polls when no connection is
/// pending, in milliseconds. This interval bounds shutdown latency: the flag
/// is re-checked before every poll.
pub const POLL_INTERVAL_MS: u64 = 10;

/// An error surfaced by the server to its caller (for example a bind
/// failure). Carries a human-readable message.
#[derive(Debug)]
pub struct ServerError {
    message: String,
}

impl ServerError {
    /// The message this error was constructed with.
    pub closed spec fn spec_message(&self) -> Seq<char> {
        self.message@
    }

    pub fn new(msg: &str) -> (e: ServerError)
        ensures
            e.spec_message() == msg@,
    {
        ServerError { message: msg.to_owned() }
    }

    /// A display form of the error, `"Server error: "` followed by the
    /// message.
    pub fn describe(&self) -> (r: String)
        ensures
            r@ == "Server error: "@ + self.spec_message(),
    {
        let mut out: String = "Server error: ".to_owned();
        out.append(self.message.as_str());
        out
    }
}

/// Configuration for one server instance: the listening address, the number
/// of worker threads, and a verbosity flag.
pub struct ServerConfig {
    pub address: String,
    pub pool_size: usize,
    pub verbose: bool,
}

impl Default for ServerConfig {
    /// The default configuration: listen on `127.0.0.1:7878` with four
    /// workers, quietly.
    fn default() -> (c: ServerConfig)
        ensures
            c.address@ == "127.0.0.1:7878"@,
            c.pool_size == 4,
            !c.verbose,
    {
        ServerConfig { address: "127.0.0.1:7878".to_owned(), pool_size: 4, verbose: false }
    }
}

/// What one poll of the listening socket yielded: a connection, nothing
/// pending (the accept would block), or some other connection-level error.
#[derive(Clone, Copy, PartialEq, Eq, Structural, Debug)]
pub enum AcceptEvent {
    Connection,
    WouldBlock,
    OtherError,
}

/// What the accept loop does next: stop accepting and drain the pool,
/// hand the connection to the pool, sleep one poll interval and re-poll,
/// or log the error and keep going.
#[derive(Clone, Copy, PartialEq, Eq, Structural, Debug)]
pub enum AcceptAction {
    Stop,
    Submit,
    SleepRetry,
    LogAndContinue,
}

/// The accept loop's decision rule. The shutdown flag is consulted before
/// the poll's outcome is even looked at, so a set flag always wins; a
/// would-block outcome is expected, not an error, and drives the
/// sleep-and-retry path; any other error is connection-level only.
pub open spec fn accept_step_spec(shutdown: bool, event: AcceptEvent) -> AcceptAction {
    if shutdown {
        AcceptAction::Stop
    } else {
        match event {
            AcceptEvent::Connection => AcceptAction::Submit,
            AcceptEvent::WouldBlock => AcceptAction::SleepRetry,
            AcceptEvent::OtherError => AcceptAction::LogAndContinue,
        }
    }
}

/// One decision of the accept loop, taken from the current value of the
/// shared shutdown flag and the outcome of one poll. The loop that owns the
/// socket acts on the returned action and calls back in with the next
/// outcome.
pub fn accept_step(shutdown: bool, event: AcceptEvent) -> (a: AcceptAction)
    ensures
        a == accept_step_spec(shutdown, event),
{
    if shutdown {
        AcceptAction::Stop
    } else {
        match event {
            AcceptEvent::Connection => AcceptAction::Submit,
            AcceptEvent::WouldBlock => AcceptAction::SleepRetry,
            AcceptEvent::OtherError => AcceptAction::LogAndContinue,
        }
    }
}

/// Once the shutdown flag is set, the very next decision — whatever the
/// poll yields — is to stop accepting: shutdown latency is bounded by one
/// poll interval.
pub proof fn lemma_shutdown_stops_accepting()
    ensures
        forall|event: AcceptEvent| accept_step_spec(true, event) == AcceptAction::Stop,
{
}

} // verus!
