use ra_proc_macro::msg::{ErrorCode, ExpansionResult, Response, ResponseError};
use ra_proc_macro::supervisor::{server_closed, Exchange, LoopState, Supervisor};
use ra_proc_macro::tt::Subtree;

fn reply() -> Response {
    Response::ExpansionMacro(ExpansionResult {
        expansion: Subtree { delimiter: None, tokens: vec![] },
    })
}

#[test]
fn server_closed_reply_has_its_code_and_message() {
    assert_eq!(
        server_closed(),
        Response::Error(ResponseError {
            code: ErrorCode::ServerErrorEnd,
            message: "Server closed".to_string(),
        })
    );
}

#[test]
fn healthy_exchange_delivers_the_decoded_reply() {
    let mut s = Supervisor::new(true);
    assert!(s.accepts_calls());
    assert_eq!(s.on_exchange(Exchange::Replied(reply())), Some(reply()));
    assert_eq!(s.state, LoopState::Serving);
    assert!(s.accepts_calls());
    assert!(!s.needs_restart());
}

#[test]
fn broken_pipe_then_restart_serves_the_next_call() {
    let mut s = Supervisor::new(true);
    assert_eq!(s.on_exchange(Exchange::Failed), Some(server_closed()));
    assert!(s.needs_restart());
    assert!(!s.accepts_calls());
    s.on_restart(true);
    assert_eq!(s.state, LoopState::Serving);
    assert_eq!(s.on_exchange(Exchange::Replied(reply())), Some(reply()));
}

#[test]
fn failed_restart_terminates_the_loop() {
    let mut s = Supervisor::new(true);
    assert_eq!(s.on_exchange(Exchange::Failed), Some(server_closed()));
    s.on_restart(false);
    assert_eq!(s.state, LoopState::Terminated);
    assert!(!s.accepts_calls());
    assert!(!s.needs_restart());
}

#[test]
fn worker_without_pipes_is_not_served() {
    let s = Supervisor::new(false);
    assert_eq!(s.state, LoopState::Terminated);
    assert!(!s.accepts_calls());
}

#[test]
fn output_ending_before_a_reply_is_a_broken_pipe() {
    let mut s = Supervisor::new(true);
    assert_eq!(s.on_exchange(Exchange::Failed), Some(server_closed()));
    assert_eq!(s.state, LoopState::Recovering);
    assert!(s.needs_restart());
}
