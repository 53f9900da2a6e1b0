//! Change detection between polls of the status.
//!
//! The caller polls the daemon at a fixed interval, and once more right after
//! a command that changed the link. Each poll is handed to
//! [`ReconciliationState::observe`], one at a time; the answer says whether
//! the tray has to be told.

use crate::tailscale::status::StatusError;
use crate::tray::menu::{Context, ContextView};
use vstd::prelude::*;

verus! {

/// The interval between two polls of the daemon, in seconds.
pub const POLL_INTERVAL_SECS: u64 = 5;

/// What the caller does after a poll.
#[derive(Debug, Clone, Copy, PartialEq, Eq, Structural)]
pub enum Action {
    /// The link went up or down: hand the current context to the tray.
    Notify,
    /// The link is as it was: leave the tray alone.
    Keep,
    /// The poll failed: report the error and poll again at the next tick.
    Report(StatusError),
}

/// What is kept between two polls: whether the link was up at the last
/// successful poll, and the context that this poll gave.
#[derive(Debug, Clone)]
pub struct ReconciliationState {
    up: bool,
    context: Context,
}

/// The mathematical value of a [`ReconciliationState`].
#[verifier::ext_equal]
pub struct StateView {
    pub up: bool,
    pub context: ContextView,
}

/// What a poll gave.
#[verifier::ext_equal]
pub enum Event {
    /// A context was fetched and decoded.
    Fetched(ContextView),
    /// Fetching or decoding failed.
    Failed(StatusError),
}

/// The mathematical value of what a poll gave.
pub open spec fn event_view(fetched: Result<Context, StatusError>) -> Event {
    match fetched {
        Ok(context) => Event::Fetched(context@),
        Err(e) => Event::Failed(e),
    }
}

/// The state that is seeded from the first context fetched.
pub open spec fn spec_seed(first: ContextView) -> StateView {
    StateView { up: first.status.is_up(), context: first }
}

/// One step of the reconciliation: a failed poll leaves the state as it is
/// and is reported; a successful one replaces the context, and the tray is
/// told exactly when the link is up now and was not before, or the reverse.
pub open spec fn spec_observe(state: StateView, event: Event) -> (StateView, Action) {
    match event {
        Event::Failed(e) => (state, Action::Report(e)),
        Event::Fetched(context) => (
            spec_seed(context),
            if context.status.is_up() != state.up {
                Action::Notify
            } else {
                Action::Keep
            },
        ),
    }
}

/// The state after a run of polls, and how often the tray was told.
pub open spec fn spec_run(state: StateView, events: Seq<Event>) -> (StateView, nat)
    decreases events.len(),
{
    if events.len() == 0 {
        (state, 0)
    } else {
        let step = spec_observe(state, events.first());
        let rest = spec_run(step.0, events.drop_first());
        (
            rest.0,
            if step.1 == Action::Notify {
                rest.1 + 1
            } else {
                rest.1
            },
        )
    }
}

/// The successful polls of a run, in order.
pub open spec fn successes(events: Seq<Event>) -> Seq<Event>
    decreases events.len(),
{
    if events.len() == 0 {
        events
    } else if events.first() is Fetched {
        seq![events.first()] + successes(events.drop_first())
    } else {
        successes(events.drop_first())
    }
}

/// How often the link changes in a run of observations that starts from
/// `up`: the number of observations that differ from the one before.
pub open spec fn changes(up: bool, observed: Seq<bool>) -> nat
    decreases observed.len(),
{
    if observed.len() == 0 {
        0
    } else if observed.first() != up {
        changes(observed.first(), observed.drop_first()) + 1
    } else {
        changes(observed.first(), observed.drop_first())
    }
}

/// Whether the link is up in each context of a run of successful polls.
pub open spec fn observed_up(contexts: Seq<ContextView>) -> Seq<bool> {
    contexts.map_values(|c: ContextView| c.status.is_up())
}

/// A run of polls that all succeeded.
pub open spec fn all_fetched(contexts: Seq<ContextView>) -> Seq<Event> {
    contexts.map_values(|c: ContextView| Event::Fetched(c))
}

impl View for ReconciliationState {
    type V = StateView;

    closed spec fn view(&self) -> StateView {
        StateView { up: self.up, context: self.context@ }
    }
}

impl ReconciliationState {
    /// The state after the first successful poll.
    pub fn new(first: Context) -> (state: ReconciliationState)
        ensures
            state@ == spec_seed(first@),
    {
        let up = first.status.is_up();
        ReconciliationState { up, context: first }
    }

    /// Whether the link was up at the last successful poll.
    pub fn is_up(&self) -> (up: bool)
        ensures
            up == self@.up,
    {
        self.up
    }

    /// The context that the last successful poll gave.
    pub fn context(&self) -> (context: &Context)
        ensures
            context@ == self@.context,
    {
        &self.context
    }

    /// Takes in what a poll gave and says what to do about it. A timer tick
    /// and a refresh after a command are handled alike.
    pub fn observe(&mut self, fetched: Result<Context, StatusError>) -> (action: Action)
        ensures
            (final(self)@, action) == spec_observe(old(self)@, event_view(fetched)),
    {
        match fetched {
            Ok(context) => {
                let up = context.status.is_up();
                let changed = up != self.up;
                self.up = up;
                self.context = context;
                if changed {
                    Action::Notify
                } else {
                    Action::Keep
                }
            },
            Err(e) => Action::Report(e),
        }
    }
}

/// A failed poll leaves the state as it was, and the poll after it is
/// handled as if the failure had not happened.
pub proof fn lemma_failure_keeps_state(state: StateView, error: StatusError, next: Event)
    ensures
        spec_observe(state, Event::Failed(error)).0 == state,
        spec_observe(state, Event::Failed(error)).1 == Action::Report(error),
        spec_observe(spec_observe(state, Event::Failed(error)).0, next) == spec_observe(
            state,
            next,
        ),
{
}

/// The tray is told of a successful poll exactly when the link is up now and
/// was not at the poll before, or the reverse; the state is then the one that
/// this poll alone gives.
pub proof fn lemma_notify_on_change(state: StateView, context: ContextView)
    ensures
        spec_observe(state, Event::Fetched(context)).1 == Action::Notify <==> context.status.is_up()
            != state.up,
        spec_observe(state, Event::Fetched(context)).0 == spec_seed(context),
{
}

/// Failed polls count for nothing: a run ends in the same state, with the
/// tray told as often, as the run of its successful polls alone.
pub proof fn lemma_run_skips_failures(state: StateView, events: Seq<Event>)
    ensures
        spec_run(state, events) == spec_run(state, successes(events)),
    decreases events.len(),
{
    if events.len() > 0 {
        let rest = events.drop_first();
        if events.first() is Fetched {
            let next = spec_observe(state, events.first()).0;
            lemma_run_skips_failures(next, rest);
            let kept = successes(events);
            assert(kept.first() == events.first());
            assert(kept.drop_first() =~= successes(rest));
        } else {
            lemma_run_skips_failures(state, rest);
        }
    }
}

/// Over a run of successful polls the tray is told once for each change of
/// the link, and never for a state that repeats.
pub proof fn lemma_run_counts_changes(state: StateView, contexts: Seq<ContextView>)
    ensures
        spec_run(state, all_fetched(contexts)).1 == changes(state.up, observed_up(contexts)),
    decreases contexts.len(),
{
    if contexts.len() > 0 {
        let events = all_fetched(contexts);
        let next = spec_observe(state, events.first()).0;
        lemma_run_counts_changes(next, contexts.drop_first());
        assert(events.drop_first() =~= all_fetched(contexts.drop_first()));
        assert(observed_up(contexts).drop_first() =~= observed_up(contexts.drop_first()));
    }
}

} // verus!
