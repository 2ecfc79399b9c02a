use vstd::prelude::*;

use crate::msg::{ErrorCode, Response, ResponseError};

verus! {

/// Where the supervisor loop stands between two calls.
#[derive(Clone, Copy, Debug, PartialEq, Eq, Structural)]
pub enum LoopState {
    /// The worker is healthy: the next call is written and its reply read.
    Serving,
    /// The last exchange failed: the worker must be restarted first.
    Recovering,
    /// The worker could not be restarted: the loop takes no more calls.
    Terminated,
}

/// The outcome of writing one request to the worker and reading its reply.
#[derive(Clone, Debug, PartialEq, Eq)]
pub enum Exchange {
    /// The reply was read and decoded.
    Replied(Response),
    /// Writing the request or reading the reply failed; this includes the
    /// worker's output ending, or its framing breaking, before a full reply.
    Failed,
}

/// The message of the reply synthesized when the worker's pipes break.
pub open spec fn server_closed_message() -> Seq<char> {
    "Server closed"@
}

/// The reply a call gets when the exchange with the worker failed.
pub open spec fn is_server_closed(reply: Option<Response>) -> bool {
    match reply {
        Some(Response::Error(e)) => e.code == ErrorCode::ServerErrorEnd && e.message@
            == server_closed_message(),
        _ => false,
    }
}

/// Whether `reply` is what a call whose exchange had `outcome` is given: the
/// decoded response, or the server-closed error when the exchange failed.
pub open spec fn delivers(outcome: Exchange, reply: Option<Response>) -> bool {
    match outcome {
        Exchange::Replied(r) => reply == Some(r),
        Exchange::Failed => is_server_closed(reply),
    }
}

/// The state after serving a call whose exchange had `outcome`.
pub open spec fn spec_after_exchange(outcome: Exchange) -> LoopState {
    match outcome {
        Exchange::Replied(_) => LoopState::Serving,
        Exchange::Failed => LoopState::Recovering,
    }
}

/// The state after an attempt to restart the worker; `restarted` holds when a
/// new worker was spawned and its pipes were taken.
pub open spec fn spec_after_restart(restarted: bool) -> LoopState {
    if restarted {
        LoopState::Serving
    } else {
        LoopState::Terminated
    }
}

/// One call as the loop sees it: the exchange, and, where it failed, whether
/// the restart that followed succeeded.
pub struct Attempt {
    pub exchange: Exchange,
    pub restarted: bool,
}

/// The state after one call taken in `state`.
pub open spec fn spec_step(state: LoopState, a: Attempt) -> LoopState {
    match state {
        LoopState::Serving => match a.exchange {
            Exchange::Replied(_) => LoopState::Serving,
            Exchange::Failed => spec_after_restart(a.restarted),
        },
        _ => state,
    }
}

/// The exchanges of the calls that the loop takes, in order, when it starts
/// in `state` and the calls go as `attempts` say. Each of them gets exactly one
/// reply; a terminated loop takes no more calls.
pub open spec fn served(state: LoopState, attempts: Seq<Attempt>) -> Seq<Exchange>
    decreases attempts.len(),
{
    if attempts.len() == 0 || state != LoopState::Serving {
        Seq::empty()
    } else {
        seq![attempts[0].exchange] + served(spec_step(state, attempts[0]), attempts.drop_first())
    }
}

/// The state the loop is in after the calls that `attempts` describe.
pub open spec fn final_state(state: LoopState, attempts: Seq<Attempt>) -> LoopState
    decreases attempts.len(),
{
    if attempts.len() == 0 || state != LoopState::Serving {
        state
    } else {
        final_state(spec_step(state, attempts[0]), attempts.drop_first())
    }
}

/// The decisions of the loop that serves calls to one worker. The loop itself,
/// with the process and its pipes, is driven by the caller, which reports each
/// outcome here and acts on what comes back.
pub struct Supervisor {
    pub state: LoopState,
}

impl Supervisor {
    /// A supervisor for a freshly spawned worker; `pipes` tells whether its
    /// pipes could be taken. Without them the loop ends at once.
    pub fn new(pipes: bool) -> (r: Supervisor)
        ensures
            r.state == spec_after_restart(pipes),
    {
        if pipes {
            Supervisor { state: LoopState::Serving }
        } else {
            Supervisor { state: LoopState::Terminated }
        }
    }

    /// Whether the loop takes another call.
    pub fn accepts_calls(&self) -> (r: bool)
        ensures
            r == (self.state == LoopState::Serving),
    {
        self.state == LoopState::Serving
    }

    /// Whether the worker must be restarted before the next call.
    pub fn needs_restart(&self) -> (r: bool)
        ensures
            r == (self.state == LoopState::Recovering),
    {
        self.state == LoopState::Recovering
    }

    /// Records the outcome of one exchange and returns the reply to deliver to
    /// the call that was served: the decoded response, or a server-closed
    /// error when the exchange failed.
    pub fn on_exchange(&mut self, outcome: Exchange) -> (reply: Option<Response>)
        requires
            old(self).state == LoopState::Serving,
        ensures
            final(self).state == spec_after_exchange(outcome),
            delivers(outcome, reply),
    {
        match outcome {
            Exchange::Replied(r) => {
                self.state = LoopState::Serving;
                Some(r)
            },
            Exchange::Failed => {
                self.state = LoopState::Recovering;
                Some(server_closed())
            },
        }
    }

    /// Records the outcome of restarting the worker after a failed exchange.
    pub fn on_restart(&mut self, restarted: bool)
        requires
            old(self).state == LoopState::Recovering,
        ensures
            final(self).state == spec_after_restart(restarted),
    {
        if restarted {
            self.state = LoopState::Serving;
        } else {
            self.state = LoopState::Terminated;
        }
    }
}

/// The error response delivered when the worker's pipes break.
pub fn server_closed() -> (r: Response)
    ensures
        is_server_closed(Some(r)),
{
    Response::Error(
        ResponseError { code: ErrorCode::ServerErrorEnd, message: "Server closed".to_owned() },
    )
}

/// While the worker stays healthy, the loop takes every call, in order, and
/// answers each with the response the worker produced for that request.
pub proof fn lemma_healthy_calls_answered(attempts: Seq<Attempt>)
    requires
        forall|i: int| 0 <= i < attempts.len() ==> attempts[i].exchange is Replied,
    ensures
        served(LoopState::Serving, attempts) == attempts.map_values(|a: Attempt| a.exchange),
        final_state(LoopState::Serving, attempts) == LoopState::Serving,
        forall|i: int, reply: Option<Response>|
            0 <= i < attempts.len() ==> (delivers(attempts[i].exchange, reply) <==> reply
                == Some(attempts[i].exchange->Replied_0)),
    decreases attempts.len(),
{
    if attempts.len() > 0 {
        let rest = attempts.drop_first();
        lemma_healthy_calls_answered(rest);
        assert(served(LoopState::Serving, attempts) =~= attempts.map_values(
            |a: Attempt| a.exchange,
        ));
    } else {
        assert(served(LoopState::Serving, attempts) =~= attempts.map_values(
            |a: Attempt| a.exchange,
        ));
    }
}

/// A call whose exchange breaks is answered with the server-closed error; when
/// the worker is restarted, the next call is served by it as usual.
pub proof fn lemma_broken_pipe_recovers(first: Attempt, second: Attempt, rest: Seq<Attempt>)
    requires
        first.exchange is Failed,
        first.restarted,
    ensures
        ({
            let s = served(LoopState::Serving, seq![first, second] + rest);
            &&& s.len() >= 2
            &&& s[0] == first.exchange
            &&& s[1] == second.exchange
        }),
        forall|reply: Option<Response>| delivers(first.exchange, reply) <==> is_server_closed(reply),
        spec_step(LoopState::Serving, first) == LoopState::Serving,
{
    let all = seq![first, second] + rest;
    assert(all[0] == first);
    assert(all.drop_first() =~= seq![second] + rest);
    assert((seq![second] + rest)[0] == second);
    assert((seq![second] + rest).drop_first() =~= rest);
    let tail = served(LoopState::Serving, seq![second] + rest);
    assert(tail[0] == second.exchange);
    assert(served(LoopState::Serving, all) == seq![first.exchange] + tail);
}

/// When the worker cannot be restarted, the loop answers the call that broke
/// and then terminates: it takes none of the later calls.
pub proof fn lemma_failed_restart_terminates(first: Attempt, rest: Seq<Attempt>)
    requires
        first.exchange is Failed,
        !first.restarted,
    ensures
        served(LoopState::Serving, seq![first] + rest) == seq![first.exchange],
        final_state(LoopState::Serving, seq![first] + rest) == LoopState::Terminated,
        served(LoopState::Terminated, rest).len() == 0,
{
    let all = seq![first] + rest;
    assert(all[0] == first);
    assert(all.drop_first() =~= rest);
    assert(spec_step(LoopState::Serving, first) == LoopState::Terminated);
    assert(served(LoopState::Terminated, rest) =~= Seq::<Exchange>::empty());
    assert(final_state(LoopState::Terminated, rest) == LoopState::Terminated);
    assert(served(LoopState::Serving, all) =~= seq![first.exchange]);
}

} // verus!
