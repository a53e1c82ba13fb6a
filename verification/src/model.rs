//! The session that runs: its data, and one method for each transition.

use crate::chance::draw_trials;
use crate::clock::ClockError;
use crate::machine::{
    Input, ModelView, Outcome, Settings, State, MAX_TRIALS, MIN_TRIALS, NANOS_PER_MILLI,
};
use crate::palette::Color;
use vstd::prelude::*;

verus! {

/// A session of the game.
pub struct Model {
    state: State,
    color: Color,
    timer: Option<u128>,
    pending_delay: Option<u64>,
    latencies: Vec<u128>,
    target: u32,
    completed: u32,
    settings: Settings,
}

impl View for Model {
    type V = ModelView;

    /// The session as the machine sees it.
    closed spec fn view(&self) -> ModelView {
        ModelView {
            state: self.state,
            palette: self.color.palette(),
            color_index: self.color.current(),
            timer: self.timer,
            pending_delay: self.pending_delay,
            latencies: self.latencies@,
            target: self.target as nat,
            completed: self.completed as nat,
            settings: self.settings,
        }
    }
}

impl Model {
    /// The session is one of the machine's sessions.
    pub open spec fn wf(&self) -> bool {
        self@.wf()
    }

    /// A session of `target` trials that has not begun.
    pub fn with_trials(color: Color, settings: Settings, target: u32) -> (model: Model)
        requires
            color.wf(),
            settings.wf(),
            MIN_TRIALS <= target <= MAX_TRIALS,
        ensures
            model.wf(),
            model@ == ModelView::initial(
                color.palette(),
                color.current(),
                settings,
                target as nat,
            ),
    {
        Model {
            state: State::Intro,
            color,
            timer: None,
            pending_delay: None,
            latencies: Vec::new(),
            target,
            completed: 0,
            settings,
        }
    }

    /// A session that has not begun, of three to five trials; which, chance
    /// decides.
    pub fn new(color: Color, settings: Settings) -> (model: Model)
        requires
            color.wf(),
            settings.wf(),
        ensures
            model.wf(),
            model@ == ModelView::initial(
                color.palette(),
                color.current(),
                settings,
                model@.target,
            ),
    {
        Model::with_trials(color, settings, draw_trials())
    }

    /// Where the session stands.
    pub fn state(&self) -> (state: State)
        ensures
            state == self@.state,
    {
        self.state
    }

    /// The colour cycler.
    pub fn color(&self) -> (color: &Color)
        ensures
            color.palette() == self@.palette,
            color.current() == self@.color_index,
    {
        &self.color
    }

    /// The time noted, in nanoseconds, if one is.
    pub fn timer(&self) -> (timer: Option<u128>)
        ensures
            timer == self@.timer,
    {
        self.timer
    }

    /// The delay that the wait has drawn, in milliseconds, if it has.
    pub fn pending_delay(&self) -> (delay: Option<u64>)
        ensures
            delay == self@.pending_delay,
    {
        self.pending_delay
    }

    /// The latencies recorded so far, in milliseconds, oldest first.
    pub fn latencies(&self) -> (latencies: &Vec<u128>)
        ensures
            latencies@ == self@.latencies,
    {
        &self.latencies
    }

    /// How many trials the session asks for.
    pub fn target(&self) -> (target: u32)
        ensures
            target == self@.target,
    {
        self.target
    }

    /// How many trials are done.
    pub fn completed(&self) -> (completed: u32)
        ensures
            completed == self@.completed,
    {
        self.completed
    }

    /// The limits in force.
    pub fn settings(&self) -> (settings: Settings)
        ensures
            settings == self@.settings,
    {
        self.settings
    }

    /// Begins a new session of `target` trials.
    pub fn reset_to(&mut self, target: u32)
        requires
            old(self).wf(),
            MIN_TRIALS <= target <= MAX_TRIALS,
        ensures
            final(self).wf(),
            final(self)@ == old(self)@.reset(target as nat),
    {
        self.state = State::Intro;
        self.latencies.clear();
        self.target = target;
        self.completed = 0;
        self.timer = None;
        self.pending_delay = None;
    }

    /// Begins a new session, of three to five trials; which, chance decides.
    pub fn reset(&mut self)
        requires
            old(self).wf(),
        ensures
            final(self).wf(),
            final(self)@ == old(self)@.reset(final(self)@.target),
    {
        self.reset_to(draw_trials());
    }

    /// The player starts. Says whether the session was at the instructions
    /// and has left them.
    pub fn start(&mut self) -> (started: bool)
        requires
            old(self).wf(),
        ensures
            final(self).wf(),
            final(self)@ == old(self)@.start(),
            started == (old(self)@.state == State::Intro),
    {
        if self.state == State::Intro {
            self.state = State::IntroFade;
            true
        } else {
            false
        }
    }

    /// The tick after a start: the wait begins. Says whether it did.
    pub fn fade(&mut self) -> (faded: bool)
        requires
            old(self).wf(),
        ensures
            final(self).wf(),
            final(self)@ == old(self)@.fade(),
            faded == (old(self)@.state == State::IntroFade),
    {
        if self.state == State::IntroFade {
            self.state = State::Waiting;
            true
        } else {
            false
        }
    }

    /// Sets the delay of a wait that has none, and notes `now` as its
    /// beginning. Says whether it did.
    pub fn arm(&mut self, now: u128, delay_ms: u64) -> (armed: bool)
        requires
            old(self).wf(),
        ensures
            final(self).wf(),
            final(self)@ == old(self)@.arm(now, delay_ms),
            armed == old(self)@.unarmed(),
    {
        if self.state == State::Waiting && self.pending_delay.is_none() {
            self.timer = Some(now);
            self.pending_delay = Some(delay_ms);
            true
        } else {
            false
        }
    }

    /// Whether the pending delay has run out at `now`.
    pub fn is_due(&self, now: u128) -> (due: bool)
        ensures
            due == self@.due(now),
    {
        if self.state != State::Waiting {
            return false;
        }
        match (self.pending_delay, self.timer) {
            (Some(delay_ms), Some(since)) => {
                let delay: u128 = delay_ms as u128 * NANOS_PER_MILLI;
                now > since && now - since > delay
            },
            _ => false,
        }
    }

    /// The flash, where it is due at `now`: shows the colour that `draw` picks
    /// among the others and times the reaction from `now`. Says whether it
    /// flashed.
    pub fn flash(&mut self, now: u128, draw: usize) -> (flashed: bool)
        requires
            old(self).wf(),
            draw + 1 < old(self)@.palette.len(),
        ensures
            final(self).wf(),
            final(self)@ == old(self)@.flash(now, draw as nat),
            flashed == old(self)@.due(now),
    {
        if self.is_due(now) {
            self.color.advance(draw);
            self.timer = Some(now);
            self.pending_delay = None;
            self.state = State::Running;
            true
        } else {
            false
        }
    }

    /// The whole milliseconds from the time noted to `now`; `None` where no
    /// time is noted or the clock has gone back behind it.
    pub fn elapsed_millis(&self, now: u128) -> (elapsed: Option<u128>)
        ensures
            elapsed == self@.elapsed_millis(now),
    {
        match self.timer {
            Some(since) => {
                if now >= since {
                    Some((now - since) / NANOS_PER_MILLI)
                } else {
                    None
                }
            },
            None => None,
        }
    }

    /// The player reacts `elapsed_ms` milliseconds after the flash. A false
    /// start begins a new session of `fresh_target` trials; any other
    /// reaction is recorded. Where no reaction is timed nothing happens.
    pub fn react(&mut self, elapsed_ms: u128, fresh_target: u32) -> (outcome: Outcome)
        requires
            old(self).wf(),
            MIN_TRIALS <= fresh_target <= MAX_TRIALS,
        ensures
            final(self).wf(),
            final(self)@ == old(self)@.react(elapsed_ms, fresh_target as nat),
            outcome == old(self)@.react_outcome(elapsed_ms),
    {
        if self.state != State::Running {
            return Outcome::Ignored;
        }
        if elapsed_ms < self.settings.false_start_ms {
            self.reset_to(fresh_target);
            return Outcome::FalseStart;
        }
        self.latencies.push(elapsed_ms);
        self.completed = self.completed + 1;
        self.timer = None;
        if self.completed < self.target {
            self.state = State::Waiting;
            Outcome::Recorded
        } else {
            self.state = State::Stats;
            Outcome::Finished
        }
    }

    /// One tick of the clock at `now`. The delay is used where a wait has
    /// none, the draw where a flash is due.
    pub fn tick(&mut self, now: u128, delay_ms: u64, draw: usize)
        requires
            old(self).wf(),
            draw + 1 < old(self)@.palette.len(),
        ensures
            final(self).wf(),
            final(self)@ == old(self)@.tick(now, delay_ms, draw as nat),
    {
        match self.state {
            State::IntroFade => {
                self.fade();
            },
            State::Waiting => {
                if !self.arm(now, delay_ms) {
                    self.flash(now, draw);
                }
            },
            _ => {},
        }
    }

    /// The input `input` at `now`. The number of trials is used where a new
    /// session begins. A press that answers a flash while the clock stands
    /// behind the time of the flash is an error and changes nothing.
    pub fn handle(&mut self, input: Input, now: u128, fresh_target: u32) -> (result: Result<
        Outcome,
        ClockError,
    >)
        requires
            old(self).wf(),
            MIN_TRIALS <= fresh_target <= MAX_TRIALS,
        ensures
            final(self).wf(),
            final(self)@ == old(self)@.handle(input, now, fresh_target as nat),
            result == old(self)@.handle_result(input, now),
    {
        match input {
            Input::Press => match self.state {
                State::Intro => {
                    self.start();
                    Ok(Outcome::Started)
                },
                State::Running => match self.elapsed_millis(now) {
                    Some(elapsed_ms) => Ok(self.react(elapsed_ms, fresh_target)),
                    None => Err(ClockError::WentBackwards),
                },
                _ => Ok(Outcome::Ignored),
            },
            Input::Restart => {
                self.reset_to(fresh_target);
                Ok(Outcome::Restarted)
            },
            Input::Other => Ok(Outcome::Ignored),
        }
    }
}

} // verus!
