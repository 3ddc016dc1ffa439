//! The dispatch coordinator: the decisions of one exchange, from the prompt
//! that starts it to the reply or error that ends it.
//!
//! The coordinator never waits and never talks to the network. Its caller
//! starts the background work with the request that [`Coordinator::begin`]
//! returns, waits on the result channel for a bounded time, and reports what
//! each wait gave to [`Coordinator::on_poll`], which answers with what to do
//! next.

use vstd::prelude::*;
use vstd::string::StringExecFns;
use crate::client::{
    build_request, reply_of, request_for, ClientError, ClientErrorView, CompletionRequest,
    ExchangeView,
};
use crate::message::{assistant_message, user_message, Message, MessageView, Role};
use crate::store::{
    total_chars, total_chars_of_push, trimmed, trimmed_within_budget,
    trimmed_within_budget_is_identity, ConversationStore,
};

verus! {

/// Why a dispatch gave no reply.
#[derive(Debug)]
pub enum DispatchError {
    /// The completion client failed.
    Client(ClientError),
    /// The background work ended without ever reporting a result.
    WorkerLost,
}

/// The mathematical value of a [`DispatchError`].
pub enum DispatchErrorView {
    Client(ClientErrorView),
    WorkerLost,
}

impl View for DispatchError {
    type V = DispatchErrorView;

    open spec fn view(&self) -> DispatchErrorView {
        match self {
            DispatchError::Client(error) => DispatchErrorView::Client(error@),
            DispatchError::WorkerLost => DispatchErrorView::WorkerLost,
        }
    }
}

impl DispatchErrorView {
    /// The line that tells a person about the error.
    pub open spec fn message(self) -> Seq<char> {
        match self {
            DispatchErrorView::Client(error) => error.message(),
            DispatchErrorView::WorkerLost =>
                "The thread handling the request has terminated unexpectedly."@,
        }
    }
}

impl DispatchError {
    /// Returns the line that tells a person about the error.
    pub fn describe(&self) -> (line: String)
        ensures
            line@ == self@.message(),
    {
        match self {
            DispatchError::Client(error) => error.describe(),
            DispatchError::WorkerLost => String::from_str(
                "The thread handling the request has terminated unexpectedly.",
            ),
        }
    }
}

/// Where a coordinator stands in an exchange.
#[derive(Clone, Copy, Debug, PartialEq, Eq, Structural)]
pub enum DispatchState {
    /// No exchange is under way.
    Idle,
    /// A request is out and its result is awaited.
    Sending,
    /// The last exchange gave a reply.
    Succeeded,
    /// The last exchange gave an error.
    Failed,
}

/// What one bounded wait for the result of the background work gave.
#[derive(Debug)]
pub enum PollEvent {
    /// The wait ran out with no result yet.
    Timeout,
    /// The completion client finished with this result.
    Completed(Result<String, ClientError>),
    /// The background work is gone and left no result.
    Disconnected,
}

/// The mathematical value of a [`PollEvent`].
pub enum PollEventView {
    Timeout,
    Completed(Result<Seq<char>, ClientErrorView>),
    Disconnected,
}

impl View for PollEvent {
    type V = PollEventView;

    open spec fn view(&self) -> PollEventView {
        match self {
            PollEvent::Timeout => PollEventView::Timeout,
            PollEvent::Completed(result) => PollEventView::Completed(
                crate::client::reply_view(*result),
            ),
            PollEvent::Disconnected => PollEventView::Disconnected,
        }
    }
}

/// What the caller does after a wait.
#[derive(Debug)]
pub enum PollAction {
    /// Show one sign of work in progress and wait again.
    Tick,
    /// The exchange is over: hand this result to whoever asked.
    Deliver(Result<String, DispatchError>),
}

/// The mathematical value of a [`PollAction`].
pub enum PollActionView {
    Tick,
    Deliver(Result<Seq<char>, DispatchErrorView>),
}

/// The value of the result of a dispatch: the reply's characters, or the
/// error's value.
pub open spec fn outcome_view(result: Result<String, DispatchError>) -> Result<
    Seq<char>,
    DispatchErrorView,
> {
    match result {
        Ok(reply) => Ok(reply@),
        Err(error) => Err(error@),
    }
}

impl View for PollAction {
    type V = PollActionView;

    open spec fn view(&self) -> PollActionView {
        match self {
            PollAction::Tick => PollActionView::Tick,
            PollAction::Deliver(result) => PollActionView::Deliver(outcome_view(*result)),
        }
    }
}

/// The mathematical value of a [`Coordinator`].
pub struct CoordinatorView {
    /// The conversation so far, oldest message first.
    pub history: Seq<MessageView>,
    /// The character budget to which the history is trimmed before a request.
    pub budget: nat,
    /// Where the coordinator stands.
    pub state: DispatchState,
}

/// The coordinator after it has taken `prompt` in: the prompt stands at the
/// end of the history as a user message, the history is trimmed to the budget,
/// and the request is out.
pub open spec fn begun(c: CoordinatorView, prompt: Seq<char>) -> CoordinatorView {
    CoordinatorView {
        history: trimmed(c.history.push(user_message(prompt)), c.budget),
        budget: c.budget,
        state: DispatchState::Sending,
    }
}

/// The coordinator after a wait that gave `event`. A timeout changes nothing.
/// A reply is appended to the history as an assistant message. An error, or
/// the loss of the background work, leaves the history as it is.
pub open spec fn polled(c: CoordinatorView, event: PollEventView) -> CoordinatorView {
    match event {
        PollEventView::Timeout => c,
        PollEventView::Completed(Ok(reply)) => CoordinatorView {
            history: c.history.push(assistant_message(reply)),
            budget: c.budget,
            state: DispatchState::Succeeded,
        },
        PollEventView::Completed(Err(_)) => CoordinatorView {
            history: c.history,
            budget: c.budget,
            state: DispatchState::Failed,
        },
        PollEventView::Disconnected => CoordinatorView {
            history: c.history,
            budget: c.budget,
            state: DispatchState::Failed,
        },
    }
}

/// What the caller is told to do after a wait that gave `event`.
pub open spec fn action_for(event: PollEventView) -> PollActionView {
    match event {
        PollEventView::Timeout => PollActionView::Tick,
        PollEventView::Completed(Ok(reply)) => PollActionView::Deliver(Ok(reply)),
        PollEventView::Completed(Err(error)) => PollActionView::Deliver(
            Err(DispatchErrorView::Client(error)),
        ),
        PollEventView::Disconnected => PollActionView::Deliver(
            Err(DispatchErrorView::WorkerLost),
        ),
    }
}

/// How a series of waits went: where it left the coordinator, how many signs
/// of work in progress were shown, and what was delivered, if anything.
pub struct RunView {
    pub coordinator: CoordinatorView,
    pub ticks: nat,
    pub delivered: Option<Result<Seq<char>, DispatchErrorView>>,
}

/// Polling with the events of `events`, in order, until one of them ends the
/// exchange or none is left.
pub open spec fn polled_until_delivery(c: CoordinatorView, events: Seq<PollEventView>) -> RunView
    decreases events.len(),
{
    if events.len() == 0 {
        RunView { coordinator: c, ticks: 0, delivered: None }
    } else {
        match action_for(events[0]) {
            PollActionView::Tick => {
                let rest = polled_until_delivery(polled(c, events[0]), events.drop_first());
                RunView {
                    coordinator: rest.coordinator,
                    ticks: rest.ticks + 1,
                    delivered: rest.delivered,
                }
            },
            PollActionView::Deliver(result) => RunView {
                coordinator: polled(c, events[0]),
                ticks: 0,
                delivered: Some(result),
            },
        }
    }
}

/// What goes out with a request is within budget, and so is the history that
/// a failed exchange leaves behind.
pub proof fn request_is_within_budget(c: CoordinatorView, prompt: Seq<char>, event: PollEventView)
    ensures
        total_chars(begun(c, prompt).history) <= c.budget,
        action_for(event) matches PollActionView::Deliver(Err(_)) ==> total_chars(
            polled(begun(c, prompt), event).history,
        ) <= c.budget,
{
    trimmed_within_budget(c.history.push(user_message(prompt)), c.budget);
}

/// A whole dispatch: the prompt is taken in, then the waits are gone through.
pub open spec fn dispatched(
    c: CoordinatorView,
    prompt: Seq<char>,
    events: Seq<PollEventView>,
) -> RunView {
    polled_until_delivery(begun(c, prompt), events)
}

/// The number of messages of a history that `role` wrote.
pub open spec fn count_by(history: Seq<MessageView>, role: Role) -> nat
    decreases history.len(),
{
    if history.len() == 0 {
        0
    } else {
        count_by(history.drop_last(), role) + if history.last().role == role {
            1nat
        } else {
            0nat
        }
    }
}

/// Appending a message raises the count of its author's messages by one and
/// leaves the other counts as they are.
pub proof fn count_by_of_push(history: Seq<MessageView>, message: MessageView, role: Role)
    ensures
        count_by(history.push(message), role) == count_by(history, role) + if message.role
            == role {
            1nat
        } else {
            0nat
        },
{
    assert(history.push(message).drop_last() =~= history);
}

/// Waits that time out only delay the end: when the first `k` waits time out
/// and the next one does not, the exchange ends with that one, after exactly
/// `k` signs of work in progress.
pub proof fn timeouts_only_delay(c: CoordinatorView, events: Seq<PollEventView>, k: int)
    requires
        0 <= k < events.len(),
        forall|i: int| 0 <= i < k ==> events[i] == PollEventView::Timeout,
        events[k] != PollEventView::Timeout,
    ensures
        polled_until_delivery(c, events).coordinator == polled(c, events[k]),
        polled_until_delivery(c, events).ticks == k,
        action_for(events[k]) == PollActionView::Deliver(
            polled_until_delivery(c, events).delivered->0,
        ),
        polled_until_delivery(c, events).delivered is Some,
    decreases k,
{
    if k > 0 {
        let rest = events.drop_first();
        assert(events[0] == PollEventView::Timeout);
        assert(rest[k - 1] == events[k]);
        assert forall|i: int| 0 <= i < k - 1 implies rest[i] == PollEventView::Timeout by {
            assert(rest[i] == events[i + 1]);
        }
        timeouts_only_delay(c, rest, k - 1);
    }
}

/// A dispatch whose background work is lost does not hang: when the waits time
/// out `k` times and the next wait finds the background work gone, the dispatch
/// ends there with `WorkerLost`, after `k` signs of work in progress, and the
/// history holds the prompt and no reply.
pub proof fn lost_worker_is_reported(
    c: CoordinatorView,
    prompt: Seq<char>,
    events: Seq<PollEventView>,
    k: int,
)
    requires
        0 <= k < events.len(),
        forall|i: int| 0 <= i < k ==> events[i] == PollEventView::Timeout,
        events[k] == PollEventView::Disconnected,
    ensures
        dispatched(c, prompt, events).delivered == Some(
            Err::<Seq<char>, DispatchErrorView>(DispatchErrorView::WorkerLost),
        ),
        dispatched(c, prompt, events).ticks == k,
        dispatched(c, prompt, events).coordinator.state == DispatchState::Failed,
        dispatched(c, prompt, events).coordinator.history == begun(c, prompt).history,
{
    timeouts_only_delay(begun(c, prompt), events, k);
}

/// What a dispatch leaves in the history, whatever the budget: a failed
/// dispatch leaves the trimmed history that ends with the prompt, and a
/// dispatch that succeeds leaves the same followed by the reply.
pub proof fn dispatch_changes_history_once(
    c: CoordinatorView,
    prompt: Seq<char>,
    events: Seq<PollEventView>,
)
    ensures
        match dispatched(c, prompt, events).delivered {
            Some(Ok(reply)) => {
                &&& dispatched(c, prompt, events).coordinator.history == trimmed(
                    c.history.push(user_message(prompt)),
                    c.budget,
                ).push(assistant_message(reply))
                &&& dispatched(c, prompt, events).coordinator.state == DispatchState::Succeeded
            },
            Some(Err(_)) => {
                &&& dispatched(c, prompt, events).coordinator.history == trimmed(
                    c.history.push(user_message(prompt)),
                    c.budget,
                )
                &&& dispatched(c, prompt, events).coordinator.state == DispatchState::Failed
            },
            None => {
                &&& dispatched(c, prompt, events).coordinator == begun(c, prompt)
                &&& dispatched(c, prompt, events).ticks == events.len()
            },
        },
{
    run_ends_in_one_step(begun(c, prompt), events);
}

/// A series of waits changes the coordinator by at most the one event that
/// ends the exchange.
proof fn run_ends_in_one_step(c: CoordinatorView, events: Seq<PollEventView>)
    ensures
        match polled_until_delivery(c, events).delivered {
            Some(Ok(reply)) => polled_until_delivery(c, events).coordinator == polled(
                c,
                PollEventView::Completed(Ok(reply)),
            ),
            Some(Err(_)) => {
                &&& polled_until_delivery(c, events).coordinator.history == c.history
                &&& polled_until_delivery(c, events).coordinator.budget == c.budget
                &&& polled_until_delivery(c, events).coordinator.state == DispatchState::Failed
            },
            None => {
                &&& polled_until_delivery(c, events).coordinator == c
                &&& polled_until_delivery(c, events).ticks == events.len()
            },
        },
    decreases events.len(),
{
    if events.len() > 0 {
        if events[0] == PollEventView::Timeout {
            run_ends_in_one_step(c, events.drop_first());
        }
    }
}

/// Where the budget has room for the prompt, a dispatch that fails leaves
/// exactly one more user message, the prompt, at the end of the history and no
/// more assistant message; a dispatch that succeeds leaves exactly one more
/// user message and one more assistant message, the prompt and then the reply.
pub proof fn dispatch_adds_prompt_then_reply(
    c: CoordinatorView,
    prompt: Seq<char>,
    events: Seq<PollEventView>,
)
    requires
        total_chars(c.history) + prompt.len() <= c.budget,
        dispatched(c, prompt, events).delivered is Some,
    ensures
        match dispatched(c, prompt, events).delivered->0 {
            Ok(reply) => {
                &&& dispatched(c, prompt, events).coordinator.history == c.history.push(
                    user_message(prompt),
                ).push(assistant_message(reply))
                &&& count_by(dispatched(c, prompt, events).coordinator.history, Role::User)
                    == count_by(c.history, Role::User) + 1
                &&& count_by(dispatched(c, prompt, events).coordinator.history, Role::Assistant)
                    == count_by(c.history, Role::Assistant) + 1
            },
            Err(_) => {
                &&& dispatched(c, prompt, events).coordinator.history == c.history.push(
                    user_message(prompt),
                )
                &&& count_by(dispatched(c, prompt, events).coordinator.history, Role::User)
                    == count_by(c.history, Role::User) + 1
                &&& count_by(dispatched(c, prompt, events).coordinator.history, Role::Assistant)
                    == count_by(c.history, Role::Assistant)
            },
        },
        count_by(dispatched(c, prompt, events).coordinator.history, Role::System) == count_by(
            c.history,
            Role::System,
        ),
{
    let with_prompt = c.history.push(user_message(prompt));
    total_chars_of_push(c.history, user_message(prompt));
    trimmed_within_budget_is_identity(with_prompt, c.budget);
    dispatch_changes_history_once(c, prompt, events);
    count_by_of_push(c.history, user_message(prompt), Role::User);
    count_by_of_push(c.history, user_message(prompt), Role::Assistant);
    count_by_of_push(c.history, user_message(prompt), Role::System);
    match dispatched(c, prompt, events).delivered->0 {
        Ok(reply) => {
            count_by_of_push(with_prompt, assistant_message(reply), Role::User);
            count_by_of_push(with_prompt, assistant_message(reply), Role::Assistant);
            count_by_of_push(with_prompt, assistant_message(reply), Role::System);
        },
        Err(_) => {},
    }
}

/// A response without candidates surfaces as `NoChoice`: a dispatch whose
/// exchange brings such a response, after any number of waits that time out,
/// delivers that error and leaves the history with the prompt and no reply.
pub proof fn no_choice_adds_no_reply(
    c: CoordinatorView,
    prompt: Seq<char>,
    events: Seq<PollEventView>,
    k: int,
)
    requires
        0 <= k < events.len(),
        forall|i: int| 0 <= i < k ==> events[i] == PollEventView::Timeout,
        events[k] == PollEventView::Completed(reply_of(ExchangeView::Parsed(Seq::empty()))),
    ensures
        dispatched(c, prompt, events).delivered == Some(
            Err::<Seq<char>, DispatchErrorView>(
                DispatchErrorView::Client(ClientErrorView::NoChoice),
            ),
        ),
        dispatched(c, prompt, events).coordinator.state == DispatchState::Failed,
        dispatched(c, prompt, events).coordinator.history == begun(c, prompt).history,
{
    timeouts_only_delay(begun(c, prompt), events, k);
}

/// Owns the conversation store and decides the steps of each exchange.
#[derive(Debug)]
pub struct Coordinator {
    store: ConversationStore,
    budget: usize,
    state: DispatchState,
}

impl View for Coordinator {
    type V = CoordinatorView;

    closed spec fn view(&self) -> CoordinatorView {
        CoordinatorView { history: self.store@, budget: self.budget as nat, state: self.state }
    }
}

impl Coordinator {
    /// Creates an idle coordinator with an empty history and the given
    /// character budget.
    pub fn new(budget: usize) -> (c: Coordinator)
        ensures
            c@ == (CoordinatorView {
                history: Seq::<MessageView>::empty(),
                budget: budget as nat,
                state: DispatchState::Idle,
            }),
    {
        Coordinator { store: ConversationStore::new(), budget, state: DispatchState::Idle }
    }

    /// Where the coordinator stands.
    pub fn state(&self) -> (s: DispatchState)
        ensures
            s == self@.state,
    {
        self.state
    }

    /// The character budget.
    pub fn budget(&self) -> (b: usize)
        ensures
            b == self@.budget,
    {
        self.budget
    }

    /// The conversation store.
    pub fn store(&self) -> (store: &ConversationStore)
        ensures
            store@ == self@.history,
    {
        &self.store
    }

    /// Starts an exchange. The prompt is appended to the history as a user
    /// message, the history is trimmed to the budget, and the request that
    /// holds a copy of the trimmed history is returned for the background
    /// work to send. No exchange may be under way.
    pub fn begin(&mut self, prompt: String, model: String) -> (request: CompletionRequest)
        requires
            old(self)@.state == DispatchState::Idle,
        ensures
            final(self)@ == begun(old(self)@, prompt@),
            total_chars(final(self)@.history) <= final(self)@.budget,
            request@ == request_for(final(self)@.history, model@),
    {
        self.store.append(Message::user(prompt));
        self.store.trim_to_budget(self.budget);
        self.state = DispatchState::Sending;
        let history = self.store.snapshot();
        build_request(&history, model)
    }

    /// Takes in what one wait for the result gave and says what to do next. An
    /// exchange must be under way. A reply is appended as it is: the budget is
    /// enforced again when the next exchange begins.
    pub fn on_poll(&mut self, event: PollEvent) -> (action: PollAction)
        requires
            old(self)@.state == DispatchState::Sending,
        ensures
            final(self)@ == polled(old(self)@, event@),
            action@ == action_for(event@),
    {
        match event {
            PollEvent::Timeout => PollAction::Tick,
            PollEvent::Completed(Ok(reply)) => {
                self.store.append(Message::assistant(reply.clone()));
                self.state = DispatchState::Succeeded;
                PollAction::Deliver(Ok(reply))
            },
            PollEvent::Completed(Err(error)) => {
                self.state = DispatchState::Failed;
                PollAction::Deliver(Err(DispatchError::Client(error)))
            },
            PollEvent::Disconnected => {
                self.state = DispatchState::Failed;
                PollAction::Deliver(Err(DispatchError::WorkerLost))
            },
        }
    }

    /// Closes an exchange that has ended, so that the next can begin. While a
    /// request is still out nothing changes.
    pub fn finish(&mut self)
        ensures
            final(self)@.history == old(self)@.history,
            final(self)@.budget == old(self)@.budget,
            final(self)@.state == if old(self)@.state == DispatchState::Sending {
                DispatchState::Sending
            } else {
                DispatchState::Idle
            },
    {
        match self.state {
            DispatchState::Sending => {},
            _ => {
                self.state = DispatchState::Idle;
            },
        }
    }
}

} // verus!
