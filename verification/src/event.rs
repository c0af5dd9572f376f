//! The event scheduler: the one owner of the greeter's state, which takes
//! events from every source into one queue and applies them one at a time,
//! in the order in which they came.

use std::collections::VecDeque;
use vstd::prelude::*;
use crate::greeter::laws::run;
use crate::greeter::state::{Greeter, GreeterView, PowerChoice};
use crate::greeter::step::{step, Event, EventView, Outcome, OutcomeView};
use crate::ipc::{Request, RequestView};

verus! {

/// Views of a run of events, item by item.
pub open spec fn events_view(events: Seq<Event>) -> Seq<EventView> {
    Seq::new(events.len(), |i: int| events[i]@)
}

/// Views of a list of outcomes, item by item.
pub open spec fn outcomes_view(outcomes: Seq<Outcome>) -> Seq<OutcomeView> {
    Seq::new(outcomes.len(), |i: int| outcomes[i]@)
}

/// What the events of a run ask of the outside world, one answer for each
/// event, in their order.
pub open spec fn outcomes_of(s: GreeterView, events: Seq<EventView>) -> Seq<OutcomeView>
    decreases events.len(),
{
    if events.len() == 0 {
        Seq::empty()
    } else {
        outcomes_of(s, events.drop_last()).push(
            step(run(s, events.drop_last()), events.last()).1,
        )
    }
}

/// The owner of the state, with the events that wait to be applied.
#[derive(Debug)]
pub struct Scheduler {
    /// The state, which nothing else changes
    pub greeter: Greeter,
    /// The events that came in and were not applied yet, oldest first
    pub queue: VecDeque<Event>,
}

pub struct SchedulerView {
    pub greeter: GreeterView,
    pub queue: Seq<EventView>,
}

impl View for Scheduler {
    type V = SchedulerView;

    open spec fn view(&self) -> SchedulerView {
        SchedulerView { greeter: self.greeter@, queue: events_view(self.queue@) }
    }
}

impl Scheduler {
    /// A scheduler that owns `greeter` and has nothing to do yet.
    pub fn new(greeter: Greeter) -> (r: Scheduler)
        ensures
            r@.greeter == greeter@,
            r@.queue == Seq::<EventView>::empty(),
    {
        let r = Scheduler { greeter, queue: VecDeque::new() };
        assert(r@.queue =~= Seq::<EventView>::empty());
        r
    }

    /// Number of events that wait.
    pub fn waiting(&self) -> (n: usize)
        ensures
            n == self@.queue.len(),
    {
        self.queue.len()
    }

    /// Take an event in: it waits behind those that came before it. The
    /// state is not touched.
    pub fn post(&mut self, event: Event)
        ensures
            final(self)@.greeter == old(self)@.greeter,
            final(self)@.queue == old(self)@.queue.push(event@),
    {
        self.queue.push_back(event);
        assert(events_view(self.queue@) =~= events_view(old(self).queue@).push(event@));
    }

    /// Apply the event that has waited longest, if any waits.
    pub fn dispatch(&mut self) -> (out: Option<Outcome>)
        requires
            old(self)@.greeter.wf(),
        ensures
            final(self)@.greeter.wf(),
            match out {
                Some(o) => {
                    &&& old(self)@.queue.len() > 0
                    &&& (final(self)@.greeter, o@) == step(
                        old(self)@.greeter,
                        old(self)@.queue[0],
                    )
                    &&& final(self)@.queue == old(self)@.queue.drop_first()
                },
                None => old(self)@.queue.len() == 0 && final(self)@ == old(self)@,
            },
    {
        match self.queue.pop_front() {
            Some(event) => {
                assert(events_view(self.queue@) =~= events_view(old(self).queue@).drop_first());
                assert(events_view(old(self).queue@)[0] == event@);
                Some(self.greeter.handle(event))
            },
            None => {
                assert(events_view(self.queue@) =~= events_view(old(self).queue@));
                None
            },
        }
    }

    /// Apply every event that waits, oldest first, and report what each
    /// asked for.
    pub fn drain(&mut self) -> (outcomes: Vec<Outcome>)
        requires
            old(self)@.greeter.wf(),
        ensures
            final(self)@.greeter.wf(),
            final(self)@.greeter == run(old(self)@.greeter, old(self)@.queue),
            final(self)@.queue.len() == 0,
            outcomes_view(outcomes@) == outcomes_of(old(self)@.greeter, old(self)@.queue),
    {
        let ghost start = self@.greeter;
        let ghost all = self@.queue;
        let mut outcomes: Vec<Outcome> = Vec::new();
        assert(all.take(0) =~= Seq::<EventView>::empty());
        assert(outcomes_view(outcomes@) =~= Seq::<OutcomeView>::empty());
        assert(all.skip(0) =~= all);
        while self.queue.len() > 0
            invariant
                self@.greeter.wf(),
                start.wf(),
                outcomes.len() + self@.queue.len() == all.len(),
                self@.queue == all.skip(outcomes.len() as int),
                self@.greeter == run(start, all.take(outcomes.len() as int)),
                outcomes_view(outcomes@) == outcomes_of(start, all.take(outcomes.len() as int)),
            decreases self.queue.len(),
        {
            let ghost done = outcomes.len() as int;
            let ghost before = outcomes_view(outcomes@);
            match self.dispatch() {
                Some(out) => {
                    proof {
                        assert(all.skip(done)[0] == all[done]);
                        assert(all.take(done + 1).drop_last() =~= all.take(done));
                        assert(all.take(done + 1).last() == all[done]);
                        assert(all.skip(done).drop_first() =~= all.skip(done + 1));
                    }
                    outcomes.push(out);
                    assert(outcomes_view(outcomes@) =~= before.push(out@));
                },
                None => {},
            }
        }
        assert(all.take(all.len() as int) =~= all);
        outcomes
    }
}

/// Events are applied in the order in which they were taken in: a run in
/// two parts is the first part, then the second from where the first ended.
pub proof fn lemma_run_in_order(s: GreeterView, first: Seq<EventView>, second: Seq<EventView>)
    ensures
        run(s, first + second) == run(run(s, first), second),
    decreases second.len(),
{
    if second.len() == 0 {
        assert(first + second =~= first);
    } else {
        lemma_run_in_order(s, first, second.drop_last());
        assert((first + second).drop_last() =~= first + second.drop_last());
        assert((first + second).last() == second.last());
    }
}

/// Each event of a run asks for at most one redraw, and one answer is
/// given for each event.
pub proof fn lemma_one_outcome_per_event(s: GreeterView, events: Seq<EventView>)
    ensures
        outcomes_of(s, events).len() == events.len(),
    decreases events.len(),
{
    if events.len() > 0 {
        lemma_one_outcome_per_event(s, events.drop_last());
    }
}

// ---------------------------------------------------------------------
// What is done about an event
// ---------------------------------------------------------------------

/// One thing to do for the owner of the terminal and of the channel.
#[derive(Debug, Clone)]
pub enum Action {
    /// Tell the daemon that the attempt with this number is off, and wait
    /// for no answer.
    Cancel { attempt: u64 },
    /// Open the channel to the daemon anew.
    Reconnect,
    /// Send a request of the attempt with this number; its reply is due.
    Send { attempt: u64, request: Request },
    /// Carry out a power action.
    Power(PowerChoice),
    /// Draw the screen again.
    Redraw,
    /// Stop whatever produces events.
    StopProducers,
    /// Close the channel to the daemon.
    CloseChannel,
    /// End the process with this status.
    Exit(u8),
}

pub enum ActionView {
    Cancel { attempt: u64 },
    Reconnect,
    Send { attempt: u64, request: RequestView },
    Power(PowerChoice),
    Redraw,
    StopProducers,
    CloseChannel,
    Exit(u8),
}

impl View for Action {
    type V = ActionView;

    open spec fn view(&self) -> ActionView {
        match self {
            Action::Cancel { attempt } => ActionView::Cancel { attempt: *attempt },
            Action::Reconnect => ActionView::Reconnect,
            Action::Send { attempt, request } => ActionView::Send {
                attempt: *attempt,
                request: request@,
            },
            Action::Power(choice) => ActionView::Power(*choice),
            Action::Redraw => ActionView::Redraw,
            Action::StopProducers => ActionView::StopProducers,
            Action::CloseChannel => ActionView::CloseChannel,
            Action::Exit(code) => ActionView::Exit(*code),
        }
    }
}

/// Views of a list of actions, item by item.
pub open spec fn actions_view(actions: Seq<Action>) -> Seq<ActionView> {
    Seq::new(actions.len(), |i: int| actions[i]@)
}

/// No action, or one.
pub open spec fn action_if(wanted: bool, action: ActionView) -> Seq<ActionView> {
    if wanted {
        seq![action]
    } else {
        Seq::empty()
    }
}

/// The status that the process ends with for a reason: zero after a
/// launch, one otherwise.
pub open spec fn code_of(reason: crate::greeter::state::ExitReason) -> u8 {
    if reason == crate::greeter::state::ExitReason::Launched {
        0
    } else {
        1
    }
}

/// How the process ends: the producers are stopped and the channel is
/// closed before the process exits.
pub open spec fn shutdown_of(exit: Option<crate::greeter::state::ExitReason>) -> Seq<ActionView> {
    match exit {
        Some(reason) => seq![
            ActionView::StopProducers,
            ActionView::CloseChannel,
            ActionView::Exit(code_of(reason)),
        ],
        None => Seq::empty(),
    }
}

/// What goes to the daemon: the cancellation first, then the new
/// connection, then the request.
pub open spec fn traffic_of(outcome: OutcomeView, attempt: u64) -> Seq<ActionView> {
    action_if(outcome.cancel, ActionView::Cancel { attempt }) + action_if(
        outcome.reconnect,
        ActionView::Reconnect,
    ) + (match outcome.request {
        Some(request) => seq![ActionView::Send { attempt, request }],
        None => Seq::empty(),
    })
}

/// What is done on this machine: the power action, then the redraw.
pub open spec fn effects_of(outcome: OutcomeView) -> Seq<ActionView> {
    (match outcome.power {
        Some(choice) => seq![ActionView::Power(choice)],
        None => Seq::<ActionView>::empty(),
    }) + action_if(outcome.redraw, ActionView::Redraw)
}

/// What is to be done about an outcome, in the order in which it is done.
/// `attempt` is the number of the attempt after the event.
pub open spec fn actions_of(outcome: OutcomeView, attempt: u64) -> Seq<ActionView> {
    traffic_of(outcome, attempt) + effects_of(outcome) + shutdown_of(outcome.exit)
}

fn traffic(
    cancel: bool,
    reconnect: bool,
    request: Option<Request>,
    attempt: u64,
    Ghost(outcome): Ghost<OutcomeView>,
) -> (list: Vec<Action>)
    requires
        outcome.cancel == cancel,
        outcome.reconnect == reconnect,
        outcome.request == (match request {
            Some(r) => Some(r@),
            None => None,
        }),
    ensures
        actions_view(list@) == traffic_of(outcome, attempt),
{
    let mut list: Vec<Action> = Vec::new();
    if cancel {
        list.push(Action::Cancel { attempt });
    }
    if reconnect {
        list.push(Action::Reconnect);
    }
    match request {
        Some(request) => {
            list.push(Action::Send { attempt, request });
        },
        None => {},
    }
    assert(actions_view(list@) =~= traffic_of(outcome, attempt));
    list
}

fn effects(power: Option<PowerChoice>, redraw: bool, Ghost(outcome): Ghost<OutcomeView>) -> (list:
    Vec<Action>)
    requires
        outcome.power == power,
        outcome.redraw == redraw,
    ensures
        actions_view(list@) == effects_of(outcome),
{
    let mut list: Vec<Action> = Vec::new();
    match power {
        Some(choice) => {
            list.push(Action::Power(choice));
        },
        None => {},
    }
    if redraw {
        list.push(Action::Redraw);
    }
    assert(actions_view(list@) =~= effects_of(outcome));
    list
}

fn shutdown(exit: Option<crate::greeter::state::ExitReason>) -> (list: Vec<Action>)
    ensures
        actions_view(list@) == shutdown_of(exit),
{
    let mut list: Vec<Action> = Vec::new();
    match exit {
        Some(reason) => {
            list.push(Action::StopProducers);
            list.push(Action::CloseChannel);
            list.push(Action::Exit(reason.code()));
        },
        None => {},
    }
    assert(actions_view(list@) =~= shutdown_of(exit));
    list
}

/// Spell out what is to be done about an outcome.
pub fn actions(outcome: Outcome, attempt: u64) -> (list: Vec<Action>)
    ensures
        actions_view(list@) == actions_of(outcome@, attempt),
{
    let ghost view = outcome@;
    let mut list = traffic(outcome.cancel, outcome.reconnect, outcome.request, attempt, Ghost(view));
    let mut more = effects(outcome.power, outcome.redraw, Ghost(view));
    let mut last = shutdown(outcome.exit);
    let ghost first = actions_view(list@);
    let ghost second = actions_view(more@);
    let ghost third = actions_view(last@);
    list.append(&mut more);
    assert(actions_view(list@) =~= first + second);
    list.append(&mut last);
    assert(actions_view(list@) =~= first + second + third);
    list
}

proof fn lemma_traffic_shape(outcome: OutcomeView, attempt: u64)
    ensures
        ({
            let list = traffic_of(outcome, attempt);
            &&& list.len() <= 3
            &&& forall|i: int|
                0 <= i < list.len() ==> !(#[trigger] list[i] is Exit) && !(list[i] is Redraw)
            &&& forall|i: int|
                0 <= i < list.len() && #[trigger] list[i] is Send ==> i == list.len() - 1
        }),
{
}

proof fn lemma_effects_shape(outcome: OutcomeView)
    ensures
        ({
            let list = effects_of(outcome);
            &&& list.len() <= 2
            &&& forall|i: int|
                0 <= i < list.len() ==> !(#[trigger] list[i] is Exit) && !(list[i] is Send)
            &&& forall|i: int|
                0 <= i < list.len() && #[trigger] list[i] is Redraw ==> i == list.len() - 1
        }),
{
}

/// Whatever the outcome, the process only exits as the last thing done,
/// with the producers stopped and the channel closed just before; the
/// screen is drawn at most once, and at most one request is sent.
pub proof fn lemma_exit_comes_last(outcome: OutcomeView, attempt: u64)
    ensures
        ({
            let list = actions_of(outcome, attempt);
            let n = list.len() as int;
            &&& (outcome.exit is Some ==> n >= 3 && list[n - 1] is Exit && list[n - 2]
                is CloseChannel && list[n - 3] is StopProducers)
            &&& forall|i: int|
                0 <= i < n && #[trigger] list[i] is Exit ==> i == n - 1 && outcome.exit is Some
            &&& forall|i: int, j: int|
                0 <= i < n && 0 <= j < n && #[trigger] list[i] is Redraw && #[trigger] list[j]
                    is Redraw ==> i == j
            &&& forall|i: int, j: int|
                0 <= i < n && 0 <= j < n && #[trigger] list[i] is Send && #[trigger] list[j]
                    is Send ==> i == j
        }),
{
    lemma_traffic_shape(outcome, attempt);
    lemma_effects_shape(outcome);
    let a = traffic_of(outcome, attempt);
    let b = effects_of(outcome);
    let c = shutdown_of(outcome.exit);
    let list = actions_of(outcome, attempt);
    let n = list.len() as int;
    assert(n == a.len() + b.len() + c.len());
    assert forall|i: int| 0 <= i < n implies #[trigger] list[i] == (if i < a.len() {
        a[i]
    } else if i < a.len() + b.len() {
        b[i - a.len()]
    } else {
        c[i - a.len() - b.len()]
    }) by {}
    assert forall|i: int| 0 <= i < n && #[trigger] list[i] is Exit implies i == n - 1
        && outcome.exit is Some by {
        if i < a.len() {
            assert(list[i] == a[i]);
        } else if i < a.len() + b.len() {
            assert(list[i] == b[i - a.len()]);
        }
    }
    assert forall|i: int, j: int|
        0 <= i < n && 0 <= j < n && #[trigger] list[i] is Redraw && #[trigger] list[j]
            is Redraw implies i == j by {
        assert(list[i] == b[i - a.len()]) by {
            if i < a.len() {
                assert(list[i] == a[i]);
            }
        }
        assert(list[j] == b[j - a.len()]) by {
            if j < a.len() {
                assert(list[j] == a[j]);
            }
        }
    }
    assert forall|i: int, j: int|
        0 <= i < n && 0 <= j < n && #[trigger] list[i] is Send && #[trigger] list[j]
            is Send implies i == j by {
        assert(i < a.len()) by {
            if i >= a.len() && i < a.len() + b.len() {
                assert(list[i] == b[i - a.len()]);
            }
        }
        assert(j < a.len()) by {
            if j >= a.len() && j < a.len() + b.len() {
                assert(list[j] == b[j - a.len()]);
            }
        }
        assert(list[i] == a[i]);
        assert(list[j] == a[j]);
    }
}

} // verus!
