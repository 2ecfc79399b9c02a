use vstd::prelude::*;
use vstd::string::StringExecFns;

use std::sync::Arc;

use crossbeam_channel::{Receiver, Sender};

use crate::msg::{
    expansion_result, list_macros_result, shape_mismatch_reason, spec_expansion_result,
    spec_list_macros_result, ProcMacroKind, Request, Response,
};
use crate::expander::{custom_derive_request, is_custom_derive_request, list_macros_request};
use crate::tt::{ExpansionError, Subtree};

verus! {

/// Declares crossbeam_channel::Sender, carried through opaque: the sending
/// side of the task queue and of each reply channel.
#[verifier::external_type_specification]
#[verifier::external_body]
#[verifier::reject_recursive_types(T)]
pub struct ExSender<T>(crossbeam_channel::Sender<T>);

/// Declares crossbeam_channel::Receiver, carried through opaque: the receiving
/// side of a reply channel.
#[verifier::external_type_specification]
#[verifier::external_body]
#[verifier::reject_recursive_types(T)]
pub struct ExReceiver<T>(crossbeam_channel::Receiver<T>);

/// A pending call: the request, and the private channel on which the
/// supervisor deposits its one reply.
pub struct Task {
    pub req: Request,
    pub result_tx: Sender<Option<Response>>,
}

/// Relies on crossbeam_channel::bounded with capacity zero: a rendezvous
/// channel, whose send completes only when a receive takes the value.
#[verifier::external_body]
fn rendezvous<T>() -> (Sender<T>, Receiver<T>) {
    crossbeam_channel::bounded(0)
}

/// Relies on crossbeam_channel::Sender::send: blocks until the value is
/// received, or fails when every receiver is gone. Tells whether it was sent.
#[verifier::external_body]
fn send_value<T>(s: &Sender<T>, v: T) -> bool {
    s.send(v).is_ok()
}

/// Relies on crossbeam_channel::Receiver::recv: blocks until a value arrives,
/// or fails when every sender is gone and nothing is left to take.
#[verifier::external_body]
fn receive_value<T>(r: &Receiver<T>) -> Option<T> {
    r.recv().ok()
}

/// What became of one submission on its way to the worker and back.
#[derive(Clone, Debug, PartialEq, Eq)]
pub enum Delivery {
    /// The handle was never connected to a supervisor.
    NoSender,
    /// The supervisor had shut down: the task queue could not be reached.
    ProcessClosed,
    /// The reply channel closed without a reply.
    ThreadClosed,
    /// The supervisor delivered this reply.
    Replied(Option<Response>),
}

pub open spec fn no_sender_message() -> Seq<char> {
    "No sender is found."@
}

pub open spec fn process_closed_message() -> Seq<char> {
    "Proc macro process is closed."@
}

pub open spec fn thread_closed_message() -> Seq<char> {
    "Proc macro thread is closed."@
}

pub open spec fn empty_result_message() -> Seq<char> {
    "Empty result"@
}

/// The diagnostic for a reply of the wrong shape, quoting the reason.
pub open spec fn unexpected_response_message(reason: Seq<char>) -> Seq<char> {
    "Fail to get response, reason : \""@ + reason + "\" "@
}

/// `r` is an `Unknown` error with message `msg`.
pub open spec fn is_unknown<T>(r: Result<T, ExpansionError>, msg: Seq<char>) -> bool {
    match r {
        Err(ExpansionError::Unknown(m)) => m@ == msg,
        _ => false,
    }
}

/// `r` is what a caller expecting the payload that `narrow` picks out is given
/// for a submission that went as `d` says.
pub open spec fn settles<T>(
    d: Delivery,
    narrow: spec_fn(Response) -> Option<T>,
    r: Result<T, ExpansionError>,
) -> bool {
    match d {
        Delivery::NoSender => is_unknown(r, no_sender_message()),
        Delivery::ProcessClosed => is_unknown(r, process_closed_message()),
        Delivery::ThreadClosed => is_unknown(r, thread_closed_message()),
        Delivery::Replied(None) => is_unknown(r, empty_result_message()),
        Delivery::Replied(Some(Response::Error(e))) => r == Err::<T, ExpansionError>(
            ExpansionError::ExpansionError(e.message),
        ),
        Delivery::Replied(Some(res)) => match narrow(res) {
            Some(v) => r == Ok::<T, ExpansionError>(v),
            None => is_unknown(r, unexpected_response_message(shape_mismatch_reason())),
        },
    }
}

/// The response of a submission that got a reply other than an error, or the
/// error its caller is given.
pub fn settle(d: Delivery) -> (r: Result<Response, ExpansionError>)
    ensures
        settles(d, |res: Response| Some(res), r),
        r is Ok ==> !(r->Ok_0 is Error),
{
    match d {
        Delivery::NoSender => Err(ExpansionError::Unknown("No sender is found.".to_owned())),
        Delivery::ProcessClosed => Err(
            ExpansionError::Unknown("Proc macro process is closed.".to_owned()),
        ),
        Delivery::ThreadClosed => Err(
            ExpansionError::Unknown("Proc macro thread is closed.".to_owned()),
        ),
        Delivery::Replied(None) => Err(ExpansionError::Unknown("Empty result".to_owned())),
        Delivery::Replied(Some(Response::Error(e))) => Err(
            ExpansionError::ExpansionError(e.message),
        ),
        Delivery::Replied(Some(res)) => Ok(res),
    }
}

/// What a submission came to: `sent` tells whether the task queue took the
/// call, and `reply` is what the private reply channel gave (`None` when it
/// closed without a value).
pub fn delivery(sent: bool, reply: Option<Option<Response>>) -> (d: Delivery)
    ensures
        d == spec_delivery(sent, reply),
{
    if !sent {
        Delivery::ProcessClosed
    } else {
        match reply {
            None => Delivery::ThreadClosed,
            Some(r) => Delivery::Replied(r),
        }
    }
}

/// Hands `req` to the supervisor through its task queue and waits for the
/// reply. `sender` is the queue, or `None` once the supervisor has shut down,
/// in which case nothing is sent. A queue that no longer takes calls gives
/// `ProcessClosed`, a reply channel closed without a value `ThreadClosed`.
pub fn submit(sender: Option<Arc<Sender<Task>>>, req: Request) -> (d: Delivery)
    ensures
        sender is None ==> d is ProcessClosed,
        exists|sent: bool, reply: Option<Option<Response>>|
            d == #[trigger] spec_delivery(sent, reply),
{
    match sender {
        None => {
            assert(spec_delivery(false, None) == Delivery::ProcessClosed);
            Delivery::ProcessClosed
        },
        Some(queue) => {
            let (result_tx, result_rx) = rendezvous();
            let sent = send_value(&*queue, Task { req, result_tx });
            let reply = if sent {
                receive_value(&result_rx)
            } else {
                None
            };
            delivery(sent, reply)
        },
    }
}

/// The delivery that a submission comes to: `ProcessClosed` when the queue did
/// not take the call, `ThreadClosed` when the reply channel closed without a
/// value, and otherwise the reply.
pub open spec fn spec_delivery(sent: bool, reply: Option<Option<Response>>) -> Delivery {
    if !sent {
        Delivery::ProcessClosed
    } else {
        match reply {
            None => Delivery::ThreadClosed,
            Some(r) => Delivery::Replied(r),
        }
    }
}

/// The error for a reply of the wrong shape, quoting `reason`.
fn unexpected_response(reason: String) -> (e: ExpansionError)
    ensures
        e is Unknown && e->Unknown_0@ == unexpected_response_message(reason@),
{
    let mut m = "Fail to get response, reason : \"".to_owned();
    m.append(reason.as_str());
    m.append("\" ");
    ExpansionError::Unknown(m)
}

/// The expanded token tree that `res` carries, if it is an expansion result.
pub open spec fn expansion_payload(res: Response) -> Option<Subtree> {
    match spec_expansion_result(res) {
        Some(v) => Some(v.expansion),
        None => None,
    }
}

/// The listed macros that `res` carries, if it is a listing result.
pub open spec fn list_payload(res: Response) -> Option<Vec<(String, ProcMacroKind)>> {
    match spec_list_macros_result(res) {
        Some(v) => Some(v.macros),
        None => None,
    }
}

/// The expanded token tree of a submitted expansion, or the caller's error.
pub fn expansion_outcome(d: Delivery) -> (r: Result<Subtree, ExpansionError>)
    ensures
        settles(d, |res: Response| expansion_payload(res), r),
{
    match settle(d) {
        Err(e) => Err(e),
        Ok(res) => match expansion_result(res) {
            Ok(v) => Ok(v.expansion),
            Err(reason) => Err(unexpected_response(reason)),
        },
    }
}

/// The macros listed by a submitted listing, or the caller's error.
pub fn list_macros_outcome(d: Delivery) -> (r: Result<Vec<(String, ProcMacroKind)>, ExpansionError>)
    ensures
        settles(d, |res: Response| list_payload(res), r),
{
    match settle(d) {
        Err(e) => Err(e),
        Ok(res) => match list_macros_result(res) {
            Ok(v) => Ok(v.macros),
            Err(reason) => Err(unexpected_response(reason)),
        },
    }
}

/// `r` is what a submission on `sender` can end in, whatever the supervisor
/// did: the outcome of some delivery, and the broker-unavailable error when
/// the supervisor had already shut down.
pub open spec fn submitted<T>(
    sender: Option<Arc<Sender<Task>>>,
    narrow: spec_fn(Response) -> Option<T>,
    r: Result<T, ExpansionError>,
) -> bool {
    &&& exists|sent: bool, reply: Option<Option<Response>>|
        #[trigger] settles(spec_delivery(sent, reply), narrow, r)
    &&& sender is None ==> is_unknown(r, process_closed_message())
}

/// Runs derive macro `derive_name` of the library at `dylib_path` on `subtree`
/// through the supervisor's task queue `sender`. Beside the result comes, as a
/// ghost value, the request handed to the queue.
pub fn custom_derive(
    sender: Option<Arc<Sender<Task>>>,
    dylib_path: &str,
    subtree: Subtree,
    derive_name: &str,
) -> (r: (Result<Subtree, ExpansionError>, Ghost<Request>))
    ensures
        submitted(sender, |res: Response| expansion_payload(res), r.0),
        is_custom_derive_request(r.1@, dylib_path@, subtree, derive_name@),
{
    let req = custom_derive_request(dylib_path, subtree, derive_name);
    let ghost sent = req;
    let d = submit(sender, req);
    (expansion_outcome(d), Ghost(sent))
}

/// Lists the macros of the library at `dylib_path` through the supervisor's
/// task queue `sender`. Beside the result comes, as a ghost value, the request
/// handed to the queue.
pub fn find_proc_macros(sender: Option<Arc<Sender<Task>>>, dylib_path: &str) -> (r: (
    Result<Vec<(String, ProcMacroKind)>, ExpansionError>,
    Ghost<Request>,
))
    ensures
        submitted(sender, |res: Response| list_payload(res), r.0),
        r.1@ is ListMacro && r.1@->ListMacro_0.lib@ == dylib_path@,
{
    let req = list_macros_request(dylib_path);
    let ghost sent = req;
    let d = submit(sender, req);
    (list_macros_outcome(d), Ghost(sent))
}

} // verus!
