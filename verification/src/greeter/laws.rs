//! What holds of the conversation whatever happens to it.

use vstd::prelude::*;
use crate::config::schema::ConfigView;
use crate::greeter::state::{config_applied, GreeterView, Mode, Phase};
use crate::greeter::step::{
    cancelled, dismissed, exchange_failed, is_current, key_pressed, line_key, menu_key, plain_key,
    quiet, reconfigured, replied, shows_failure, step, terminated, ticked, EventView, Key,
};
use crate::ipc::{RequestView, ResponseView};

verus! {

/// The state after a run of events, taken first to last.
pub open spec fn run(s: GreeterView, events: Seq<EventView>) -> GreeterView
    decreases events.len(),
{
    if events.len() == 0 {
        s
    } else {
        step(run(s, events.drop_last()), events.last()).0
    }
}

/// Whether an event is the reply to the request that is waited for.
pub open spec fn answers_pending(s: GreeterView, e: EventView) -> bool {
    e matches EventView::Reply { attempt, .. } && is_current(s, attempt)
}

proof fn lemma_dismissed_wf(s: GreeterView)
    requires
        s.wf(),
        !s.is_terminal(),
    ensures
        dismissed(s).wf(),
{
}

proof fn lemma_menu_key_wf(s: GreeterView, key: Key)
    requires
        s.wf(),
        crate::greeter::state::is_menu(s.mode),
    ensures
        menu_key(s, key).0.wf(),
{
}

proof fn lemma_line_key_wf(s: GreeterView, key: Key)
    requires
        s.wf(),
        s.mode == Mode::EnteringUsername || s.mode == Mode::VisiblePrompt || s.mode
            == Mode::SecretPrompt,
    ensures
        line_key(s, key).0.wf(),
{
}

proof fn lemma_plain_key_wf(s: GreeterView, key: Key)
    requires
        s.wf(),
        !s.is_terminal(),
    ensures
        plain_key(s, key).0.wf(),
{
    if s.mode == Mode::Processing || s.mode == Mode::Error {
    } else if crate::greeter::state::is_menu(s.mode) {
        lemma_menu_key_wf(s, key);
    } else {
        lemma_line_key_wf(s, key);
    }
}

proof fn lemma_key_pressed_wf(s: GreeterView, key: Key)
    requires
        s.wf(),
    ensures
        key_pressed(s, key).0.wf(),
{
    if s.is_terminal() {
    } else if key == Key::Esc {
    } else if s.mode == Mode::Error {
        lemma_dismissed_wf(s);
    } else if s.error_ticks > 0 {
        lemma_dismissed_wf(s);
        lemma_plain_key_wf(dismissed(s), key);
    } else {
        lemma_plain_key_wf(s, key);
    }
}

proof fn lemma_replied_wf(s: GreeterView, attempt: u64, response: ResponseView)
    requires
        s.wf(),
    ensures
        replied(s, attempt, response).0.wf(),
{
}

proof fn lemma_other_events_wf(s: GreeterView, e: EventView)
    requires
        s.wf(),
        !(e is KeyPress),
        !(e is Reply),
    ensures
        step(s, e).0.wf(),
{
    match e {
        EventView::Failure { attempt, error } => {
            assert(exchange_failed(s, attempt, error).0.wf());
        },
        EventView::Tick => {
            if !s.is_terminal() && shows_failure(s) && s.error_ticks <= 1 {
                lemma_dismissed_wf(s);
            }
            assert(ticked(s).0.wf());
        },
        EventView::Terminate => {
            assert(terminated(s).0.wf());
        },
        EventView::ConfigReloaded(c) => {
            assert(reconfigured(s, c).0.wf());
        },
        _ => {},
    }
}

/// Every event takes a sound state to a sound state.
pub proof fn lemma_step_preserves_wf(s: GreeterView, e: EventView)
    requires
        s.wf(),
    ensures
        step(s, e).0.wf(),
{
    match e {
        EventView::KeyPress(key) => lemma_key_pressed_wf(s, key),
        EventView::Reply { attempt, response } => lemma_replied_wf(s, attempt, response),
        _ => lemma_other_events_wf(s, e),
    }
}

/// Every run of events takes a sound state to a sound state.
pub proof fn lemma_run_preserves_wf(s: GreeterView, events: Seq<EventView>)
    requires
        s.wf(),
    ensures
        run(s, events).wf(),
    decreases events.len(),
{
    if events.len() > 0 {
        lemma_run_preserves_wf(s, events.drop_last());
        lemma_step_preserves_wf(run(s, events.drop_last()), events.last());
    }
}

/// At most one request is ever outstanding: an event sends a request only
/// if no reply is due, or if the event is itself the reply that was due.
/// Once the request is sent, its reply is due.
pub proof fn lemma_one_request_at_a_time(s: GreeterView, e: EventView)
    requires
        s.wf(),
    ensures
        step(s, e).1.request is Some ==> !s.pending || answers_pending(s, e),
        step(s, e).1.request is Some ==> step(s, e).0.pending,
{
}

/// The same, along any run of events: whatever came before, the event at
/// position `i` sends a request only if none is outstanding by then.
pub proof fn lemma_requests_alternate(s: GreeterView, events: Seq<EventView>, i: int)
    requires
        s.wf(),
        0 <= i < events.len(),
    ensures
        ({
            let before = run(s, events.take(i));
            step(before, events[i]).1.request is Some ==> !before.pending || answers_pending(
                before,
                events[i],
            )
        }),
{
    lemma_run_preserves_wf(s, events.take(i));
    lemma_one_request_at_a_time(run(s, events.take(i)), events[i]);
}

/// When the daemon accepts the authentication, the session is started at
/// once, with the command and the environment that are selected at that
/// moment.
pub proof fn lemma_success_launches_selection(s: GreeterView, attempt: u64)
    requires
        s.wf(),
        is_current(s, attempt),
        s.phase == Phase::AwaitingDaemon,
    ensures
        replied(s, attempt, ResponseView::Success).1.request == Some(
            RequestView::StartSession { cmd: s.command, env: s.environment },
        ),
        replied(s, attempt, ResponseView::Success).0.phase == Phase::Launching,
        replied(s, attempt, ResponseView::Success).0.pending,
{
}

/// A new attempt starts clean: it carries over no question and no record
/// of an earlier attempt, and its requests bear a number that no earlier
/// attempt bore.
pub proof fn lemma_new_attempt_is_clean(s: GreeterView)
    requires
        s.wf(),
        s.mode == Mode::EnteringUsername,
        key_pressed(s, Key::Enter).1.request is Some,
    ensures
        ({
            let (after, out) = key_pressed(s, Key::Enter);
            &&& out.request == Some(RequestView::CreateSession { username: s.input.chars })
            &&& after.attempt > s.attempt
            &&& after.session is Some
            &&& after.session->0.username == s.input.chars
            &&& after.session->0.prompt is None
            &&& after.session->0.exchanges.len() == 0
            &&& after.session->0.command == s.command
            &&& after.session->0.environment == s.environment
            &&& after.notice is None
        }),
{
}

/// However an attempt ends, nothing of it is kept: whenever the user is
/// asked for a name, or the conversation is over, there is no record of an
/// attempt.
pub proof fn lemma_no_record_between_attempts(s: GreeterView, e: EventView)
    requires
        s.wf(),
    ensures
        ({
            let after = step(s, e).0;
            (after.phase == Phase::EnteringUsername || after.phase == Phase::Terminal)
                ==> after.session is None && !after.pending
        }),
{
    lemma_step_preserves_wf(s, e);
}

/// Cancelling, from any state in which the conversation is not over,
/// leads back to the question for a name with no attempt left, and tells
/// the daemon exactly if there was one.
pub proof fn lemma_cancel_resets(s: GreeterView)
    requires
        s.wf(),
        !s.is_terminal(),
    ensures
        key_pressed(s, Key::Esc) == cancelled(s),
        cancelled(s).0.mode == Mode::EnteringUsername,
        cancelled(s).0.phase == Phase::EnteringUsername,
        cancelled(s).0.session is None,
        !cancelled(s).0.pending,
        cancelled(s).1.cancel == (s.session is Some),
        cancelled(s).1.request is None,
        cancelled(s).0.wf(),
{
}

/// What a reply that is not waited for does: nothing.
pub proof fn lemma_stale_reply_is_dropped(s: GreeterView, attempt: u64, response: ResponseView)
    requires
        !is_current(s, attempt),
    ensures
        replied(s, attempt, response) == (s, quiet()),
{
}

/// The attempt numbered `tag` is over for good: a later attempt is under
/// way, or none is.
pub open spec fn is_over(s: GreeterView, tag: u64) -> bool {
    s.attempt > tag || (s.attempt == tag && s.session is None)
}

/// The number of the attempt never goes down.
pub proof fn lemma_attempts_only_grow(s: GreeterView, e: EventView)
    requires
        s.wf(),
    ensures
        step(s, e).0.attempt >= s.attempt,
{
}

/// An attempt that is over stays over.
pub proof fn lemma_over_stays_over(s: GreeterView, tag: u64, events: Seq<EventView>)
    requires
        s.wf(),
        is_over(s, tag),
    ensures
        is_over(run(s, events), tag),
        run(s, events).wf(),
    decreases events.len(),
{
    if events.len() > 0 {
        lemma_over_stays_over(s, tag, events.drop_last());
        let before = run(s, events.drop_last());
        lemma_step_preserves_wf(before, events.last());
        lemma_attempts_only_grow(before, events.last());
    }
}

/// After a cancellation, no reply to the cancelled attempt changes
/// anything, whenever it arrives and whatever happened in between.
pub proof fn lemma_cancelled_attempt_stays_dead(
    s: GreeterView,
    events: Seq<EventView>,
    response: ResponseView,
)
    requires
        s.wf(),
        !s.is_terminal(),
    ensures
        ({
            let later = run(cancelled(s).0, events);
            replied(later, s.attempt, response) == (later, quiet())
        }),
{
    lemma_cancel_resets(s);
    lemma_over_stays_over(cancelled(s).0, s.attempt, events);
}

/// Putting the same configuration in force a second time changes nothing.
pub proof fn lemma_config_reapplied(s: GreeterView, c: ConfigView)
    ensures
        config_applied(config_applied(s, c), c) == config_applied(s, c),
        reconfigured(reconfigured(s, c).0, c).0 == reconfigured(s, c).0,
{
}

/// Putting a configuration in force touches neither what the screen shows
/// nor where the conversation stands, and the keys it binds are those it
/// names.
pub proof fn lemma_config_keeps_conversation(s: GreeterView, c: ConfigView)
    ensures
        config_applied(s, c).mode == s.mode,
        config_applied(s, c).phase == s.phase,
        config_applied(s, c).pending == s.pending,
        config_applied(s, c).attempt == s.attempt,
        config_applied(s, c).input == s.input,
        config_applied(s, c).session is Some <==> s.session is Some,
        s.session is Some ==> {
            &&& config_applied(s, c).session->0.username == s.session->0.username
            &&& config_applied(s, c).session->0.prompt == s.session->0.prompt
            &&& config_applied(s, c).session->0.exchanges == s.session->0.exchanges
        },
        config_applied(s, c).kb_command == c.keybindings.command,
        config_applied(s, c).kb_sessions == c.keybindings.sessions,
        config_applied(s, c).kb_power == c.keybindings.power,
        s.wf() ==> config_applied(s, c).wf(),
{
}

/// Once the conversation is over, no event is processed any more.
pub proof fn lemma_terminal_is_final(s: GreeterView, e: EventView)
    requires
        s.is_terminal(),
    ensures
        step(s, e) == (s, quiet()),
{
}

/// The process is asked to end exactly when an event ends the
/// conversation.
pub proof fn lemma_exit_marks_the_end(s: GreeterView, e: EventView)
    requires
        s.wf(),
    ensures
        step(s, e).1.exit is Some <==> (!s.is_terminal() && step(s, e).0.is_terminal()),
        step(s, e).1.exit is Some ==> step(s, e).1.exit == step(s, e).0.exit,
{
}

/// What of the state can be seen: all of it but the count of ticks left
/// to a failure on screen and the memory of a failed channel.
pub open spec fn visible(s: GreeterView) -> GreeterView {
    GreeterView { error_ticks: 0, channel_failed: false, ..s }
}

/// Whenever an event changes what can be seen, a redraw is asked for,
/// unless the process is asked to end.
pub proof fn lemma_change_is_drawn(s: GreeterView, e: EventView)
    requires
        s.wf(),
    ensures
        visible(step(s, e).0) != visible(s) ==> step(s, e).1.redraw || step(s, e).1.exit is Some,
{
}

/// A failure or a rejection stays on screen for a bounded time: each tick
/// of the clock brings it closer to leaving, and after as many ticks as it
/// was given it is gone.
pub proof fn lemma_failure_leaves_with_time(s: GreeterView)
    requires
        s.wf(),
        !s.is_terminal(),
        shows_failure(s),
    ensures
        s.error_ticks <= 1 ==> {
            &&& ticked(s).0.notice is None
            &&& ticked(s).0.mode != Mode::Error
            &&& !shows_failure(ticked(s).0)
        },
        s.error_ticks > 1 ==> ticked(s).0.error_ticks == s.error_ticks - 1,
{
}

/// A failure or a rejection leaves the screen with the next key, whatever
/// the key.
pub proof fn lemma_failure_leaves_with_a_key(s: GreeterView, key: Key)
    requires
        s.wf(),
        !s.is_terminal(),
        shows_failure(s),
        s.notice is Some,
    ensures
        key_pressed(s, key).0.mode != Mode::Error,
        key_pressed(s, key).0.error_ticks == 0,
        key_pressed(s, key).1.redraw,
        key_pressed(s, key).0.notice is None,
{
}

/// A key pressed while a reply is due sends nothing; unless it cancels, it
/// changes nothing either.
pub proof fn lemma_keys_wait_for_the_daemon(s: GreeterView, key: Key)
    requires
        s.wf(),
        s.pending,
    ensures
        key_pressed(s, key).1.request is None,
        key != Key::Esc ==> key_pressed(s, key) == (s, quiet()),
{
}

/// An empty name is turned down on the spot: nothing is sent, no attempt
/// begins, and nothing changes but that a rejection on screen leaves it.
pub proof fn lemma_empty_name_is_not_sent(s: GreeterView)
    requires
        s.wf(),
        s.mode == Mode::EnteringUsername,
        s.input.chars.len() == 0,
    ensures
        key_pressed(s, Key::Enter).1.request is None,
        key_pressed(s, Key::Enter).0.session is None,
        key_pressed(s, Key::Enter).0.attempt == s.attempt,
        key_pressed(s, Key::Enter).0.mode == Mode::EnteringUsername,
        s.error_ticks == 0 ==> key_pressed(s, Key::Enter) == (s, quiet()),
{
}

/// Menus and power actions cause no traffic with the daemon and leave the
/// attempt's exchange as it is.
pub proof fn lemma_menus_send_nothing(s: GreeterView, key: Key)
    requires
        s.wf(),
        crate::greeter::state::is_menu(s.mode),
        key != Key::Esc,
    ensures
        key_pressed(s, key).1.request is None,
        !key_pressed(s, key).1.cancel,
        key_pressed(s, key).0.phase == s.phase,
        key_pressed(s, key).0.pending == s.pending,
        key_pressed(s, key).0.session is Some <==> s.session is Some,
        s.session is Some ==> {
            &&& key_pressed(s, key).0.session->0.username == s.session->0.username
            &&& key_pressed(s, key).0.session->0.prompt == s.session->0.prompt
            &&& key_pressed(s, key).0.session->0.exchanges == s.session->0.exchanges
        },
        key_pressed(s, key).1.power is Some ==> key_pressed(s, key).0.session == s.session,
{
}

} // verus!
