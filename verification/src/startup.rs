//! Startup decisions.
//!
//! Starting the server takes two fallible steps: building the runtime and
//! binding the listener to serve. Neither failure has a recovery path: the
//! decision on a failed step is always to abort with a fixed fatal message,
//! never to keep going.

use vstd::prelude::*;

verus! {

/// What the process does after a startup step: go on to the next step, or
/// abort at once with a fatal message.
#[derive(Debug)]
pub enum StartAction {
    Proceed,
    Abort { message: String },
}

/// The fatal message when the runtime cannot be built.
pub open spec fn runtime_failure_message() -> Seq<char> {
    "Failed to build Tokio runtime"@
}

/// The fatal message when the listener cannot be bound or serving stops
/// with an error.
pub open spec fn serve_failure_message() -> Seq<char> {
    "Failed to start server"@
}

/// Decides what to do once the runtime build has succeeded or failed:
/// proceed exactly on success, abort with the fixed fatal message
/// otherwise.
pub fn on_runtime_build(built: bool) -> (a: StartAction)
    ensures
        (a is Proceed) <==> built,
        a matches StartAction::Abort { message } ==> message@ == runtime_failure_message(),
{
    if built {
        StartAction::Proceed
    } else {
        StartAction::Abort { message: "Failed to build Tokio runtime".to_owned() }
    }
}

/// Decides what to do once binding and serving has succeeded or failed:
/// proceed exactly on success, abort with the fixed fatal message
/// otherwise. There is no retry or backoff: a port already in use aborts
/// the process at once.
pub fn on_serve_result(serving: bool) -> (a: StartAction)
    ensures
        (a is Proceed) <==> serving,
        a matches StartAction::Abort { message } ==> message@ == serve_failure_message(),
{
    if serving {
        StartAction::Proceed
    } else {
        StartAction::Abort { message: "Failed to start server".to_owned() }
    }
}

} // verus!
