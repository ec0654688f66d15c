//! What the client reports about the agent network and the long-polling
//! endpoint, and how it introduces itself to the agent network.
use vstd::prelude::*;
use crate::text::concat2;

verus! {

/// The long-polling endpoint of the delivery service.
pub const LONG_POLL_URL: &'static str = "http://localhost:8080/long_poll";

/// The agent network that the client connects to.
pub const AGENT_NETWORK_URL: &'static str = "ws://0.0.0.0:6543";

/// The name under which the client registers with the agent network.
pub const BOT_NAME: &'static str = "RustClient";

/// A line for the console.
#[derive(Clone, Debug, PartialEq, Eq)]
pub enum Report {
    /// A line on standard output.
    Stdout(String),
    /// A line on standard error.
    Stderr(String),
}

/// How one long-polling request went.
#[derive(Clone, Debug, PartialEq, Eq)]
pub enum PollOutcome {
    /// The server answered with this text.
    Body(String),
    /// The server answered, but its body could not be read as text.
    UnreadableBody,
    /// The request failed; the error as text.
    Failed(String),
}

/// The text frame that registers the client with the agent network:
/// `register as {bot_name}`.
pub fn registration_message(bot_name: &str) -> (r: String)
    ensures
        r@ == "register as "@ + bot_name@,
{
    concat2("register as ", bot_name)
}

/// What is reported about one long-polling request: the text of an answer
/// on standard output, a failure on standard error, nothing for an answer
/// without readable text.
pub fn long_poll_report(outcome: PollOutcome) -> (r: Option<Report>)
    ensures
        outcome matches PollOutcome::Body(b) ==> r matches Some(Report::Stdout(t)) && t@
            == "Received response: "@ + b@,
        outcome is UnreadableBody ==> r is None,
        outcome matches PollOutcome::Failed(e) ==> r matches Some(Report::Stderr(t)) && t@
            == "Error during long-polling: "@ + e@,
{
    match outcome {
        PollOutcome::Body(b) => Some(Report::Stdout(concat2("Received response: ", b.as_str()))),
        PollOutcome::UnreadableBody => None,
        PollOutcome::Failed(e) => Some(
            Report::Stderr(concat2("Error during long-polling: ", e.as_str())),
        ),
    }
}

/// What is reported about one frame from the agent network: the frame's
/// text on standard output, an error on standard error.
pub fn incoming_report(frame: Result<String, String>) -> (r: Report)
    ensures
        frame matches Ok(m) ==> r matches Report::Stdout(t) && t@ == "Received a message: "@
            + m@,
        frame matches Err(e) ==> r matches Report::Stderr(t) && t@
            == "Error receiving message: "@ + e@,
{
    match frame {
        Ok(m) => Report::Stdout(concat2("Received a message: ", m.as_str())),
        Err(e) => Report::Stderr(concat2("Error receiving message: ", e.as_str())),
    }
}

} // verus!
