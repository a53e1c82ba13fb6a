//! What holds of every session: the invariant, the edges between the
//! states, and what a reaction and a restart do.

use crate::clock::ClockError;
use crate::machine::{
    edge, Event, Input, ModelView, Outcome, Settings, State, MAX_TRIALS, MIN_TRIALS,
};
use crate::palette::Rgb;
use vstd::prelude::*;

verus! {

/// A session that has not begun is a session, whatever palette of two or more
/// colours, settings and number of trials from three to five it has.
pub proof fn lemma_initial_wf(palette: Seq<Rgb>, color_index: nat, settings: Settings, target: nat)
    requires
        palette.len() >= 2,
        color_index < palette.len(),
        settings.wf(),
        MIN_TRIALS <= target <= MAX_TRIALS,
    ensures
        ModelView::initial(palette, color_index, settings, target).wf(),
{
}

/// No transition leads out of the sessions: what holds of one session holds
/// of the next, whatever the time, the delay and the draws.
pub proof fn lemma_transitions_keep_wf(
    s: ModelView,
    now: u128,
    delay_ms: u64,
    draw: nat,
    elapsed_ms: u128,
    fresh_target: nat,
)
    requires
        s.wf(),
        draw + 1 < s.palette.len(),
        MIN_TRIALS <= fresh_target <= MAX_TRIALS,
    ensures
        s.reset(fresh_target).wf(),
        s.start().wf(),
        s.fade().wf(),
        s.arm(now, delay_ms).wf(),
        s.flash(now, draw).wf(),
        s.react(elapsed_ms, fresh_target).wf(),
        s.tick(now, delay_ms, draw).wf(),
        forall|input: Input| (#[trigger] s.handle(input, now, fresh_target)).wf(),
{
    let recorded = s.record(elapsed_ms);
    if s.state == State::Running && !s.false_start(elapsed_ms) {
        assert forall|i: int| 0 <= i < recorded.latencies.len() implies #[trigger] recorded.latencies[i]
            >= recorded.settings.false_start_ms by {
            if i < s.latencies.len() {
                assert(recorded.latencies[i] == s.latencies[i]);
            }
        }
    }
}

/// Whatever happens to a session, it stays a session on the same palette and
/// with the same settings.
pub proof fn lemma_every_run_keeps_wf(s: ModelView, events: Seq<Event>)
    requires
        s.wf(),
        forall|i: int| 0 <= i < events.len() ==> s.admits(#[trigger] events[i]),
    ensures
        s.run(events).wf(),
        s.run(events).palette == s.palette,
        s.run(events).settings == s.settings,
    decreases events.len(),
{
    if events.len() > 0 {
        let earlier = events.drop_last();
        assert forall|i: int| 0 <= i < earlier.len() implies s.admits(#[trigger] earlier[i]) by {
            assert(earlier[i] == events[i]);
        }
        lemma_every_run_keeps_wf(s, earlier);
        let before = s.run(earlier);
        assert(s.admits(events.last()));
        match events.last() {
            Event::Tick { now, delay_ms, draw } => {
                lemma_transitions_keep_wf(before, now, delay_ms, draw, 0, MIN_TRIALS as nat);
            },
            Event::Key { input, now, fresh_target } => {
                lemma_transitions_keep_wf(before, now, 0, 0, 0, fresh_target);
                assert(before.handle(input, now, fresh_target).wf());
            },
        }
    }
}

/// Every session that shows its figures, whatever led to them, has recorded
/// as many latencies as it asked for trials, and it asked for three to five.
pub proof fn lemma_every_session_in_stats_is_complete(
    palette: Seq<Rgb>,
    color_index: nat,
    settings: Settings,
    target: nat,
    events: Seq<Event>,
)
    requires
        palette.len() >= 2,
        color_index < palette.len(),
        settings.wf(),
        MIN_TRIALS <= target <= MAX_TRIALS,
        forall|i: int|
            0 <= i < events.len() ==> ModelView::initial(
                palette,
                color_index,
                settings,
                target,
            ).admits(#[trigger] events[i]),
    ensures
        ({
            let s = ModelView::initial(palette, color_index, settings, target).run(events);
            s.state == State::Stats ==> s.latencies.len() == s.target && MIN_TRIALS <= s.target
                <= MAX_TRIALS
        }),
{
    lemma_every_run_keeps_wf(ModelView::initial(palette, color_index, settings, target), events);
}

/// A tick or an input, a restart aside, leaves the state as it is or follows
/// one of the edges: no state is skipped, and only a false start leads back.
pub proof fn lemma_transitions_follow_edges(
    s: ModelView,
    now: u128,
    delay_ms: u64,
    draw: nat,
    elapsed_ms: u128,
    fresh_target: nat,
)
    requires
        s.wf(),
    ensures
        s.start().state == s.state || edge(s.state, s.start().state),
        s.fade().state == s.state || edge(s.state, s.fade().state),
        s.arm(now, delay_ms).state == s.state,
        s.flash(now, draw).state == s.state || edge(s.state, s.flash(now, draw).state),
        s.react(elapsed_ms, fresh_target).state == s.state || edge(
            s.state,
            s.react(elapsed_ms, fresh_target).state,
        ),
        s.tick(now, delay_ms, draw).state == s.state || edge(
            s.state,
            s.tick(now, delay_ms, draw).state,
        ),
        forall|input: Input|
            input != Input::Restart ==> (#[trigger] s.handle(input, now, fresh_target)).state
                == s.state || edge(s.state, s.handle(input, now, fresh_target).state),
{
}

/// A session that shows its figures has recorded as many latencies as it
/// asked for trials, and it asked for three to five.
pub proof fn lemma_stats_holds_every_trial(s: ModelView)
    requires
        s.wf(),
        s.state == State::Stats,
    ensures
        s.latencies.len() == s.target,
        MIN_TRIALS <= s.target <= MAX_TRIALS,
{
}

/// A flash always changes the colour that is shown.
pub proof fn lemma_flash_changes_color(s: ModelView, now: u128, draw: nat)
    requires
        s.wf(),
        s.due(now),
        draw + 1 < s.palette.len(),
    ensures
        s.flash(now, draw).state == State::Running,
        s.flash(now, draw).color_index != s.color_index,
        s.flash(now, draw).color_index < s.palette.len(),
{
}

/// A press while a reaction is timed is a reaction after the whole
/// milliseconds since the flash.
pub proof fn lemma_press_is_a_reaction(s: ModelView, now: u128, fresh_target: nat)
    requires
        s.wf(),
        s.state == State::Running,
        s.elapsed_millis(now) is Some,
    ensures
        s.timer matches Some(since) && since <= now && s.elapsed_millis(now) == Some(
            ((now - since) / 1_000_000) as u128,
        ),
        s.handle(Input::Press, now, fresh_target) == s.react(
            s.elapsed_millis(now)->0,
            fresh_target,
        ),
        s.handle_result(Input::Press, now) == Ok::<Outcome, ClockError>(
            s.react_outcome(s.elapsed_millis(now)->0),
        ),
{
}

/// A reaction that comes before the threshold begins a new session, however
/// many trials were done: the instructions are shown and nothing is recorded.
pub proof fn lemma_false_start_resets(s: ModelView, elapsed_ms: u128, fresh_target: nat)
    requires
        s.wf(),
        s.state == State::Running,
        elapsed_ms < s.settings.false_start_ms,
    ensures
        s.react(elapsed_ms, fresh_target).state == State::Intro,
        s.react(elapsed_ms, fresh_target).latencies == Seq::<u128>::empty(),
        s.react(elapsed_ms, fresh_target).completed == 0,
        s.react_outcome(elapsed_ms) == Outcome::FalseStart,
{
}

/// A reaction at or after the threshold counts one more trial and appends
/// its latency, and only that, to those recorded.
pub proof fn lemma_reaction_records_once(s: ModelView, elapsed_ms: u128, fresh_target: nat)
    requires
        s.wf(),
        s.state == State::Running,
        elapsed_ms >= s.settings.false_start_ms,
    ensures
        s.react(elapsed_ms, fresh_target).completed == s.completed + 1,
        s.react(elapsed_ms, fresh_target).latencies == s.latencies.push(elapsed_ms),
        s.react(elapsed_ms, fresh_target).latencies.len() == s.latencies.len() + 1,
        s.react(elapsed_ms, fresh_target).target == s.target,
        s.react(elapsed_ms, fresh_target).state == State::Waiting || s.react(
            elapsed_ms,
            fresh_target,
        ).state == State::Stats,
{
}

/// A restart leads from any state to the instructions, with no trial done
/// and nothing recorded.
pub proof fn lemma_restart_clears(s: ModelView, now: u128, fresh_target: nat)
    ensures
        s.handle(Input::Restart, now, fresh_target) == s.reset(fresh_target),
        s.handle_result(Input::Restart, now) == Ok::<Outcome, ClockError>(Outcome::Restarted),
        s.reset(fresh_target).state == State::Intro,
        s.reset(fresh_target).completed == 0,
        s.reset(fresh_target).latencies == Seq::<u128>::empty(),
        s.reset(fresh_target).timer is None,
        s.reset(fresh_target).pending_delay is None,
        s.reset(fresh_target).palette == s.palette,
        s.reset(fresh_target).color_index == s.color_index,
{
}

} // verus!
