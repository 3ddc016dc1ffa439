use std::sync::mpsc;
use std::time::Duration;

use chat_dispatch::client::{
    read_reply, ApiResponse, Choice, ClientError, CompletionRequest, Exchange, WireMessage,
};
use chat_dispatch::dispatch::{
    Coordinator, DispatchError, DispatchState, PollAction, PollEvent,
};
use chat_dispatch::message::Role;

fn history(coordinator: &Coordinator) -> Vec<(Role, String)> {
    coordinator.store().snapshot().iter().map(|m| (m.role(), m.content().to_string())).collect()
}

fn response_with(contents: &[&str]) -> Exchange {
    let choices = contents
        .iter()
        .map(|c| Choice {
            message: WireMessage { role: "assistant".to_string(), content: c.to_string() },
        })
        .collect();
    Exchange::Parsed(ApiResponse { choices })
}

/// Runs one exchange to its end against a stand-in for the completion
/// endpoint and reports the result with the number of ticks shown.
fn dispatch(
    coordinator: &mut Coordinator,
    prompt: &str,
    model: &str,
    timeouts: usize,
    endpoint: impl FnOnce(&CompletionRequest) -> Exchange,
) -> (Result<String, DispatchError>, usize) {
    let request = coordinator.begin(prompt.to_string(), model.to_string());
    let mut ticks = 0;
    for _ in 0..timeouts {
        match coordinator.on_poll(PollEvent::Timeout) {
            PollAction::Tick => ticks += 1,
            PollAction::Deliver(_) => panic!("a timeout ended the exchange"),
        }
    }
    let result = read_reply(endpoint(&request));
    match coordinator.on_poll(PollEvent::Completed(result)) {
        PollAction::Deliver(outcome) => {
            coordinator.finish();
            (outcome, ticks)
        }
        PollAction::Tick => panic!("a result did not end the exchange"),
    }
}

#[test]
fn new_coordinator_is_idle_and_empty() {
    let coordinator = Coordinator::new(20000);
    assert_eq!(coordinator.state(), DispatchState::Idle);
    assert_eq!(coordinator.budget(), 20000);
    assert!(coordinator.store().is_empty());
}

#[test]
fn dispatch_returns_the_reply_and_records_both_turns() {
    let mut coordinator = Coordinator::new(20000);
    let (result, _) = dispatch(&mut coordinator, "hi", "model-x", 0, |request| {
        assert_eq!(request.model, "model-x");
        assert_eq!(request.messages.len(), 1);
        assert_eq!(request.messages[0].role, "user");
        assert_eq!(request.messages[0].content, "hi");
        response_with(&["hello"])
    });
    assert_eq!(result.unwrap(), "hello");
    assert_eq!(
        history(&coordinator),
        vec![(Role::User, "hi".to_string()), (Role::Assistant, "hello".to_string())]
    );
    assert_eq!(coordinator.state(), DispatchState::Idle);
}

#[test]
fn begin_moves_to_sending_and_success_to_succeeded() {
    let mut coordinator = Coordinator::new(100);
    let _request = coordinator.begin("hi".to_string(), "m".to_string());
    assert_eq!(coordinator.state(), DispatchState::Sending);
    let action = coordinator.on_poll(PollEvent::Completed(Ok("hello".to_string())));
    assert!(matches!(action, PollAction::Deliver(Ok(ref reply)) if reply == "hello"));
    assert_eq!(coordinator.state(), DispatchState::Succeeded);
    coordinator.finish();
    assert_eq!(coordinator.state(), DispatchState::Idle);
}

#[test]
fn failure_moves_to_failed_and_finish_to_idle() {
    let mut coordinator = Coordinator::new(100);
    let _request = coordinator.begin("hi".to_string(), "m".to_string());
    let action = coordinator.on_poll(PollEvent::Completed(Err(ClientError::MalformedResponse)));
    assert!(matches!(
        action,
        PollAction::Deliver(Err(DispatchError::Client(ClientError::MalformedResponse)))
    ));
    assert_eq!(coordinator.state(), DispatchState::Failed);
    coordinator.finish();
    assert_eq!(coordinator.state(), DispatchState::Idle);
}

#[test]
fn finish_while_sending_changes_nothing() {
    let mut coordinator = Coordinator::new(100);
    let _request = coordinator.begin("hi".to_string(), "m".to_string());
    coordinator.finish();
    assert_eq!(coordinator.state(), DispatchState::Sending);
    assert_eq!(history(&coordinator), vec![(Role::User, "hi".to_string())]);
}

#[test]
fn timeout_gives_a_tick_and_changes_nothing() {
    let mut coordinator = Coordinator::new(100);
    let _request = coordinator.begin("hi".to_string(), "m".to_string());
    for _ in 0..5 {
        assert!(matches!(coordinator.on_poll(PollEvent::Timeout), PollAction::Tick));
        assert_eq!(coordinator.state(), DispatchState::Sending);
        assert_eq!(history(&coordinator), vec![(Role::User, "hi".to_string())]);
    }
}

#[test]
fn ticks_are_counted_one_per_timeout() {
    let mut coordinator = Coordinator::new(100);
    let (result, ticks) =
        dispatch(&mut coordinator, "hi", "m", 7, |_| response_with(&["hello"]));
    assert_eq!(result.unwrap(), "hello");
    assert_eq!(ticks, 7);
}

#[test]
fn failed_dispatch_keeps_the_prompt_and_adds_no_reply() {
    let mut coordinator = Coordinator::new(100);
    let (first, _) = dispatch(&mut coordinator, "one", "m", 0, |_| response_with(&["1"]));
    assert!(first.is_ok());
    let (second, _) = dispatch(&mut coordinator, "two", "m", 0, |_| {
        Exchange::TransportFailed("connection reset".to_string())
    });
    match second {
        Err(DispatchError::Client(ClientError::Transport(detail))) => {
            assert_eq!(detail, "connection reset")
        }
        other => panic!("unexpected {:?}", other),
    }
    assert_eq!(
        history(&coordinator),
        vec![
            (Role::User, "one".to_string()),
            (Role::Assistant, "1".to_string()),
            (Role::User, "two".to_string()),
        ]
    );
}

#[test]
fn succeeded_dispatch_adds_prompt_then_reply() {
    let mut coordinator = Coordinator::new(100);
    let (first, _) = dispatch(&mut coordinator, "one", "m", 0, |_| Exchange::Unreadable);
    assert!(matches!(first, Err(DispatchError::Client(ClientError::MalformedResponse))));
    let (second, _) = dispatch(&mut coordinator, "two", "m", 2, |request| {
        assert_eq!(request.messages.len(), 2);
        response_with(&["2", "ignored"])
    });
    assert_eq!(second.unwrap(), "2");
    assert_eq!(
        history(&coordinator),
        vec![
            (Role::User, "one".to_string()),
            (Role::User, "two".to_string()),
            (Role::Assistant, "2".to_string()),
        ]
    );
}

#[test]
fn zero_choices_surface_as_no_choice_without_a_reply() {
    let mut coordinator = Coordinator::new(100);
    let (result, _) = dispatch(&mut coordinator, "hi", "m", 0, |_| response_with(&[]));
    assert!(matches!(result, Err(DispatchError::Client(ClientError::NoChoice))));
    assert_eq!(history(&coordinator), vec![(Role::User, "hi".to_string())]);
}

#[test]
fn lost_worker_is_reported_after_the_pending_ticks() {
    let mut coordinator = Coordinator::new(100);
    let _request = coordinator.begin("hi".to_string(), "m".to_string());
    for _ in 0..3 {
        assert!(matches!(coordinator.on_poll(PollEvent::Timeout), PollAction::Tick));
    }
    let action = coordinator.on_poll(PollEvent::Disconnected);
    assert!(matches!(action, PollAction::Deliver(Err(DispatchError::WorkerLost))));
    assert_eq!(coordinator.state(), DispatchState::Failed);
    assert_eq!(history(&coordinator), vec![(Role::User, "hi".to_string())]);
}

#[test]
fn worker_that_ends_without_sending_does_not_hang_the_dispatch() {
    let mut coordinator = Coordinator::new(100);
    let _request = coordinator.begin("hi".to_string(), "m".to_string());
    let (sender, receiver) = mpsc::channel::<Result<String, ClientError>>();
    drop(sender);
    let mut polls = 0;
    let outcome = loop {
        polls += 1;
        assert!(polls <= 3, "the dispatch keeps waiting for a worker that is gone");
        let event = match receiver.recv_timeout(Duration::from_millis(10)) {
            Ok(result) => PollEvent::Completed(result),
            Err(mpsc::RecvTimeoutError::Timeout) => PollEvent::Timeout,
            Err(mpsc::RecvTimeoutError::Disconnected) => PollEvent::Disconnected,
        };
        match coordinator.on_poll(event) {
            PollAction::Tick => {}
            PollAction::Deliver(outcome) => break outcome,
        }
    };
    assert!(matches!(outcome, Err(DispatchError::WorkerLost)));
    assert_eq!(polls, 1);
}

#[test]
fn begin_trims_the_history_before_the_request_is_built() {
    let mut coordinator = Coordinator::new(10);
    let (first, _) = dispatch(&mut coordinator, "aaaa", "m", 0, |_| response_with(&["bbbb"]));
    assert!(first.is_ok());
    let request = coordinator.begin("cccc".to_string(), "m".to_string());
    let sent: Vec<&str> = request.messages.iter().map(|m| m.content.as_str()).collect();
    assert_eq!(sent, vec!["bbbb", "cccc"]);
    assert_eq!(
        history(&coordinator),
        vec![(Role::Assistant, "bbbb".to_string()), (Role::User, "cccc".to_string())]
    );
}

#[test]
fn reply_is_appended_without_trimming() {
    let mut coordinator = Coordinator::new(10);
    let (result, _) =
        dispatch(&mut coordinator, "hi", "m", 0, |_| response_with(&["a long reply indeed"]));
    assert!(result.is_ok());
    assert_eq!(coordinator.store().len(), 2);
    assert_eq!(coordinator.store().char_count(), 21);
}

#[test]
fn prompt_longer_than_the_budget_leaves_an_empty_request() {
    let mut coordinator = Coordinator::new(3);
    let request = coordinator.begin("too long".to_string(), "m".to_string());
    assert!(request.messages.is_empty());
    assert!(coordinator.store().is_empty());
    let action = coordinator.on_poll(PollEvent::Completed(Err(ClientError::NoChoice)));
    assert!(matches!(action, PollAction::Deliver(Err(_))));
    assert!(coordinator.store().is_empty());
}

#[test]
fn request_is_a_snapshot() {
    let mut coordinator = Coordinator::new(100);
    let request = coordinator.begin("hi".to_string(), "m".to_string());
    coordinator.on_poll(PollEvent::Completed(Ok("hello".to_string())));
    assert_eq!(request.messages.len(), 1);
    assert_eq!(coordinator.store().len(), 2);
}

#[test]
fn dispatch_errors_describe_themselves() {
    assert_eq!(
        DispatchError::WorkerLost.describe(),
        "The thread handling the request has terminated unexpectedly."
    );
    assert_eq!(
        DispatchError::Client(ClientError::NoChoice).describe(),
        "No choice found in the response"
    );
    assert_eq!(
        DispatchError::Client(ClientError::Transport("dns".to_string())).describe(),
        "Request error: dns"
    );
}
