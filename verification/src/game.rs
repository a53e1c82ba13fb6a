//! The game's three callbacks: the tick, the input and the picture.

use crate::chance::{draw_delay, draw_other, draw_trials};
use crate::clock::{now_nanos, ClockError};
use crate::machine::{Input, Outcome, State};
use crate::model::Model;
use crate::palette::Rgb;
use crate::stats::{fastest, is_least, mean, mean_of};
use vstd::prelude::*;

verus! {

/// What the window is to show.
#[derive(Clone, Copy, Debug, PartialEq, Eq, Structural)]
pub enum Scene {
    /// The instructions.
    Instructions,
    /// The whole window in one colour.
    Flash(Rgb),
    /// The figures of a finished session, in milliseconds.
    Summary { mean: u128, fastest: u128 },
}

/// One tick: reads the clock where the session waits, and draws a delay or a
/// colour where the tick needs one.
///
/// Time and chance are open, so the contract says that the session made the
/// machine's tick for some time, some delay within the settings and some draw
/// among the other colours. Where the clock cannot be read the session stays
/// as it is.
pub fn update(model: &mut Model) -> (result: Result<(), ClockError>)
    requires
        old(model).wf(),
    ensures
        final(model).wf(),
        result is Err ==> result == Err::<(), ClockError>(ClockError::BeforeEpoch) && old(
            model,
        )@.state == State::Waiting && final(model)@ == old(model)@,
        result is Ok ==> exists|now: u128, delay_ms: u64, draw: nat|
            {
                &&& old(model)@.settings.min_delay_ms <= delay_ms < old(
                    model,
                )@.settings.max_delay_ms
                &&& draw + 1 < old(model)@.palette.len()
                &&& final(model)@ == #[trigger] old(model)@.tick(now, delay_ms, draw)
            },
{
    let ghost before = model@;
    let ghost any_delay: u64 = before.settings.min_delay_ms;
    match model.state() {
        State::IntroFade => {
            model.fade();
            assert(model@ == before.tick(0, any_delay, 0));
            Ok(())
        },
        State::Waiting => {
            let now: u128 = match now_nanos() {
                Ok(now) => now,
                Err(_) => {
                    return Err(ClockError::BeforeEpoch);
                },
            };
            if model.pending_delay().is_none() {
                let delay_ms: u64 = draw_delay(model.settings());
                model.arm(now, delay_ms);
                assert(model@ == before.tick(now, delay_ms, 0));
            } else if model.is_due(now) {
                let draw: usize = draw_other(model.color().len());
                model.flash(now, draw);
                assert(model@ == before.tick(now, any_delay, draw as nat));
            } else {
                assert(model@ == before.tick(now, any_delay, 0));
            }
            Ok(())
        },
        _ => {
            assert(model@ == before.tick(0, any_delay, 0));
            Ok(())
        },
    }
}

/// One input: reads the clock where a press answers a flash, and draws the
/// number of trials where a new session begins.
///
/// Time and chance are open, so the contract says that the session handled
/// the input as the machine does for some time, taking the number of trials
/// that it has afterwards as the one drawn. Where the clock cannot be read
/// the session stays as it is.
pub fn event(model: &mut Model, input: Input) -> (result: Result<Outcome, ClockError>)
    requires
        old(model).wf(),
    ensures
        final(model).wf(),
        result == Err::<Outcome, ClockError>(ClockError::BeforeEpoch) ==> input == Input::Press
            && old(model)@.state == State::Running && final(model)@ == old(model)@,
        result != Err::<Outcome, ClockError>(ClockError::BeforeEpoch) ==> exists|now: u128|
            {
                &&& final(model)@ == #[trigger] old(model)@.handle(
                    input,
                    now,
                    final(model)@.target,
                )
                &&& result == old(model)@.handle_result(input, now)
            },
{
    let ghost before = model@;
    match input {
        Input::Press => match model.state() {
            State::Intro => {
                model.start();
                assert(model@ == before.handle(input, 0, model@.target));
                Ok(Outcome::Started)
            },
            State::Running => {
                let now: u128 = match now_nanos() {
                    Ok(now) => now,
                    Err(_) => {
                        return Err(ClockError::BeforeEpoch);
                    },
                };
                let result = model.handle(input, now, draw_trials());
                assert(model@ == before.handle(input, now, model@.target));
                result
            },
            _ => {
                assert(model@ == before.handle(input, 0, model@.target));
                Ok(Outcome::Ignored)
            },
        },
        Input::Restart => {
            model.reset();
            assert(model@ == before.handle(input, 0, model@.target));
            Ok(Outcome::Restarted)
        },
        Input::Other => {
            assert(model@ == before.handle(input, 0, model@.target));
            Ok(Outcome::Ignored)
        },
    }
}

/// What the window is to show: the instructions before a start, the figures
/// after the last trial, and in between the current colour, in which a wait
/// and a timed reaction look alike.
pub fn view(model: &Model) -> (scene: Scene)
    requires
        model.wf(),
    ensures
        match model@.state {
            State::Intro => scene == Scene::Instructions,
            State::Stats => {
                &&& scene matches Scene::Summary { mean, fastest }
                &&& mean == mean_of(model@.latencies)
                &&& is_least(model@.latencies, fastest)
            },
            _ => scene == Scene::Flash(model@.palette[model@.color_index as int]),
        },
{
    match model.state() {
        State::Intro => Scene::Instructions,
        State::Stats => {
            let latencies = model.latencies();
            Scene::Summary {
                mean: mean(latencies).unwrap(),
                fastest: fastest(latencies).unwrap(),
            }
        },
        _ => Scene::Flash(*model.color().get()),
    }
}

} // verus!
