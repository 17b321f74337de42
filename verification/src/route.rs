//! The request model and the handling decision.
//!
//! A request is a method and a path. Handling a request yields an
//! `Outcome`: either a `Fault` (the handler raises an unrecoverable error
//! and no response is produced) or a `Response` with a status code and a
//! body. The one registered route faults on every request; everything else
//! gets a plain error response.

use vstd::prelude::*;

verus! {

/// The HTTP methods the router distinguishes.
#[derive(Clone, Copy, Debug, PartialEq, Eq, Structural)]
pub enum Method {
    Get,
    Head,
    Post,
    Put,
    Delete,
    Patch,
    Options,
}

/// An incoming request, reduced to what routing reads: method and path.
#[derive(Clone, Debug)]
pub struct Request {
    pub method: Method,
    pub path: String,
}

/// What handling a request produces: a fault (no response is ever sent),
/// or a response with a status code and a body.
#[derive(Debug)]
pub enum Outcome {
    Fault { message: String },
    Response { status: u16, body: String },
}

/// The one registered path.
pub open spec fn registered_path() -> Seq<char> {
    "/success/"@
}

/// The message carried by the fault that every matching request raises.
pub open spec fn fault_message() -> Seq<char> {
    "Error"@
}

/// Statuses in the 2xx range signal success.
pub open spec fn is_success(status: u16) -> bool {
    200 <= status < 300
}

/// The status of the response a request would get, or `None` when the
/// handler faults instead of responding. Only a `Get` on the registered
/// path reaches the handler; it always faults. Any other method on that
/// path is rejected, and any other path is unknown.
pub open spec fn spec_status(m: Method, path: Seq<char>) -> Option<u16> {
    if path == registered_path() {
        if m is Get {
            None
        } else {
            Some(405)
        }
    } else {
        Some(404)
    }
}

/// What it means for `o` to be the outcome of handling a request with
/// method `m` and path `path`: the handler faults exactly when
/// `spec_status` has no status, the fault carries the fixed message, and a
/// response carries exactly that status and an empty body.
pub open spec fn handles(m: Method, path: Seq<char>, o: Outcome) -> bool {
    &&& (o is Fault) <==> (spec_status(m, path) is None)
    &&& (o matches Outcome::Fault { message } ==> message@ == fault_message())
    &&& (o matches Outcome::Response { status, body } ==> Some(status) == spec_status(m, path)
        && body@ == Seq::<char>::empty())
}

/// Two outcomes agree: same kind, and equal messages, statuses and bodies.
pub open spec fn outcome_equiv(o1: Outcome, o2: Outcome) -> bool {
    match (o1, o2) {
        (Outcome::Fault { message: m1 }, Outcome::Fault { message: m2 }) => m1@ == m2@,
        (
            Outcome::Response { status: s1, body: b1 },
            Outcome::Response { status: s2, body: b2 },
        ) => s1 == s2 && b1@ == b2@,
        _ => false,
    }
}

/// Every request to the registered path with the `Get` method makes the
/// handler fault, with the fixed message: it never produces a response, so
/// in particular never a success response.
pub proof fn lemma_registered_get_faults(m: Method, path: Seq<char>, o: Outcome)
    requires
        handles(m, path, o),
        path == registered_path(),
        m is Get,
    ensures
        o matches Outcome::Fault { message } && message@ == fault_message(),
{
}

/// No request whatsoever gets a success response: whenever handling does
/// produce a response, its status is outside the 2xx range.
pub proof fn lemma_no_success_response(m: Method, path: Seq<char>, o: Outcome)
    requires
        handles(m, path, o),
    ensures
        o matches Outcome::Response { status, .. } ==> !is_success(status),
{
}

/// The outcome of a request is determined by that request alone: any two
/// handlings of the same method and path agree, whether they happen in one
/// batch, in different batches, or in different runs. No state persists
/// from one request to the next.
pub proof fn lemma_request_determines_outcome(m: Method, path: Seq<char>, o1: Outcome, o2: Outcome)
    requires
        handles(m, path, o1),
        handles(m, path, o2),
    ensures
        outcome_equiv(o1, o2),
{
}

/// The registered path as an owned string.
pub fn registered_route_path() -> (p: String)
    ensures
        p@ == registered_path(),
{
    "/success/".to_owned()
}

/// The fault message as an owned string.
pub fn fault_message_string() -> (msg: String)
    ensures
        msg@ == fault_message(),
{
    "Error".to_owned()
}

/// Whether `path` is the registered path.
pub fn path_is_registered(path: &String) -> (r: bool)
    ensures
        r == (path@ == registered_path()),
{
    let reg: String = registered_route_path();
    *path == reg
}

/// Handles one request. A `Get` on the registered path faults with the
/// fixed message; any other method on that path gets a method-not-allowed
/// response; any other path gets a not-found response. Response bodies are
/// empty: the faulting handler is the route's only content.
pub fn handle(req: &Request) -> (o: Outcome)
    ensures
        handles(req.method, req.path@, o),
{
    if path_is_registered(&req.path) {
        if req.method == Method::Get {
            Outcome::Fault { message: fault_message_string() }
        } else {
            Outcome::Response { status: 405, body: String::new() }
        }
    } else {
        Outcome::Response { status: 404, body: String::new() }
    }
}

/// Handles a batch of requests, one after the other. Each outcome is
/// determined by its own request alone: the handler keeps no state, so no
/// request can influence the handling of another.
pub fn handle_all(reqs: &Vec<Request>) -> (os: Vec<Outcome>)
    ensures
        os@.len() == reqs@.len(),
        forall|i: int|
            0 <= i < reqs@.len() ==> handles(reqs@[i].method, reqs@[i].path@, #[trigger] os@[i]),
{
    let mut os: Vec<Outcome> = Vec::new();
    let mut k: usize = 0;
    while k < reqs.len()
        invariant
            k <= reqs@.len(),
            os@.len() == k,
            forall|i: int|
                0 <= i < k ==> handles(reqs@[i].method, reqs@[i].path@, #[trigger] os@[i]),
        decreases reqs@.len() - k,
    {
        let o = handle(&reqs[k]);
        os.push(o);
        k = k + 1;
    }
    os
}

} // verus!
