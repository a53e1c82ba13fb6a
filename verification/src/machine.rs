//! The session as a state machine over mathematical values.
//!
//! [`ModelView`] is what a session is, and the spec functions on it are its
//! transitions. The executable session refines this machine: each of its
//! methods promises the result of one transition. What holds of every
//! session is proved in [`crate::laws`].

use crate::clock::ClockError;
use crate::palette::{skip_over, Rgb};
use vstd::prelude::*;

verus! {

/// The fewest trials that a session asks for.
pub const MIN_TRIALS: u32 = 3;

/// The most trials that a session asks for.
pub const MAX_TRIALS: u32 = 5;

/// Nanoseconds in a millisecond.
pub const NANOS_PER_MILLI: u128 = 1_000_000;

/// A reaction faster than this many milliseconds is a false start, unless the
/// settings say otherwise.
pub const DEFAULT_FALSE_START_MS: u128 = 100;

/// The shortest wait before a flash, in milliseconds, unless the settings say
/// otherwise.
pub const DEFAULT_MIN_DELAY_MS: u64 = 500;

/// The bound below which every wait before a flash stays, in milliseconds,
/// unless the settings say otherwise.
pub const DEFAULT_MAX_DELAY_MS: u64 = 3000;

/// Where a session stands.
#[derive(Clone, Copy, Debug, PartialEq, Eq, Structural)]
pub enum State {
    /// The instructions are shown.
    Intro,
    /// The player has started; the wait begins at the next tick.
    IntroFade,
    /// A flash is to come.
    Waiting,
    /// The colour has changed and the player's reaction is timed.
    Running,
    /// All trials are done and the figures are shown.
    Stats,
}

/// What an input did to the session.
#[derive(Clone, Copy, Debug, PartialEq, Eq, Structural)]
pub enum Outcome {
    /// Nothing: the input means nothing in this state.
    Ignored,
    /// The session left the instructions.
    Started,
    /// The reaction came too soon, and the session began anew.
    FalseStart,
    /// The reaction was recorded and another trial follows.
    Recorded,
    /// The reaction was recorded and it was the last.
    Finished,
    /// The player asked for a new session.
    Restarted,
}

/// What the player did.
#[derive(Clone, Copy, Debug, PartialEq, Eq, Structural)]
pub enum Input {
    /// The one key that starts the session and that answers a flash.
    Press,
    /// The key that asks for a new session.
    Restart,
    /// Anything else.
    Other,
}

/// The tunable limits of a session.
#[derive(Clone, Copy, Debug, PartialEq, Eq, Structural)]
pub struct Settings {
    /// A reaction in fewer milliseconds than this is a false start.
    pub false_start_ms: u128,
    /// The shortest wait before a flash, in milliseconds.
    pub min_delay_ms: u64,
    /// Every wait before a flash is shorter than this, in milliseconds.
    pub max_delay_ms: u64,
}

impl Settings {
    /// There is a delay to draw: the range of delays is not empty.
    pub open spec fn wf(self) -> bool {
        self.min_delay_ms < self.max_delay_ms
    }

    /// The settings with these limits; `None` where no delay lies in
    /// `min_delay_ms..max_delay_ms`.
    pub fn new(false_start_ms: u128, min_delay_ms: u64, max_delay_ms: u64) -> (made: Option<
        Settings,
    >)
        ensures
            made is Some <==> min_delay_ms < max_delay_ms,
            made matches Some(s) ==> s == (Settings { false_start_ms, min_delay_ms, max_delay_ms })
                && s.wf(),
    {
        if min_delay_ms < max_delay_ms {
            Some(Settings { false_start_ms, min_delay_ms, max_delay_ms })
        } else {
            None
        }
    }
}

impl Default for Settings {
    /// A false start below 100 ms, and waits from 500 ms to just under 3000 ms.
    fn default() -> (s: Settings)
        ensures
            s == (Settings {
                false_start_ms: DEFAULT_FALSE_START_MS,
                min_delay_ms: DEFAULT_MIN_DELAY_MS,
                max_delay_ms: DEFAULT_MAX_DELAY_MS,
            }),
            s.wf(),
    {
        Settings {
            false_start_ms: DEFAULT_FALSE_START_MS,
            min_delay_ms: DEFAULT_MIN_DELAY_MS,
            max_delay_ms: DEFAULT_MAX_DELAY_MS,
        }
    }
}

/// A session as a mathematical value.
///
/// Times are nanoseconds on one clock; delays and latencies are milliseconds.
pub struct ModelView {
    /// Where the session stands.
    pub state: State,
    /// The colours that a flash chooses from.
    pub palette: Seq<Rgb>,
    /// The index of the colour now shown.
    pub color_index: nat,
    /// While a delay is pending, when the wait began; while a reaction is
    /// timed, when the flash came; otherwise nothing.
    pub timer: Option<u128>,
    /// In `Waiting`, the delay that was drawn, once it was.
    pub pending_delay: Option<u64>,
    /// The latencies recorded so far, oldest first.
    pub latencies: Seq<u128>,
    /// How many trials this session asks for.
    pub target: nat,
    /// How many trials are done.
    pub completed: nat,
    /// The limits in force.
    pub settings: Settings,
}

/// One thing that happens to a session, with the time, the delay and the
/// draws that it may need.
pub enum Event {
    /// The clock ticks at `now`.
    Tick { now: u128, delay_ms: u64, draw: nat },
    /// The player gives `input` at `now`.
    Key { input: Input, now: u128, fresh_target: nat },
}

/// The transitions that an input or a tick may make, a restart aside.
pub open spec fn edge(from: State, to: State) -> bool {
    ||| from == State::Intro && to == State::IntroFade
    ||| from == State::IntroFade && to == State::Waiting
    ||| from == State::Waiting && to == State::Running
    ||| from == State::Running && to == State::Waiting
    ||| from == State::Running && to == State::Stats
    ||| from == State::Running && to == State::Intro
}

impl ModelView {
    /// What holds of every session.
    pub open spec fn wf(self) -> bool {
        &&& self.palette.len() >= 2
        &&& self.color_index < self.palette.len()
        &&& self.settings.wf()
        &&& MIN_TRIALS <= self.target <= MAX_TRIALS
        &&& self.completed <= self.target
        &&& self.latencies.len() == self.completed
        &&& forall|i: int|
            0 <= i < self.latencies.len() ==> #[trigger] self.latencies[i]
                >= self.settings.false_start_ms
        &&& self.state == State::Stats <==> self.completed == self.target
        &&& self.state == State::Intro || self.state == State::IntroFade ==> self.completed == 0
        &&& self.pending_delay is Some ==> self.state == State::Waiting
        &&& self.timer is Some <==> self.state == State::Running || self.pending_delay is Some
    }

    /// A session that has not begun: it shows the instructions, has recorded
    /// nothing, and will ask for `target` trials.
    pub open spec fn initial(
        palette: Seq<Rgb>,
        color_index: nat,
        settings: Settings,
        target: nat,
    ) -> ModelView {
        ModelView {
            state: State::Intro,
            palette,
            color_index,
            timer: None,
            pending_delay: None,
            latencies: Seq::empty(),
            target,
            completed: 0,
            settings,
        }
    }

    /// A new session of `target` trials, on the same palette and settings and
    /// with the colour that is shown now.
    pub open spec fn reset(self, target: nat) -> ModelView {
        ModelView::initial(self.palette, self.color_index, self.settings, target)
    }

    /// The player starts: the instructions give way. Elsewhere nothing
    /// happens.
    pub open spec fn start(self) -> ModelView {
        if self.state == State::Intro {
            ModelView { state: State::IntroFade, ..self }
        } else {
            self
        }
    }

    /// The tick after a start: the wait begins. Elsewhere nothing happens.
    pub open spec fn fade(self) -> ModelView {
        if self.state == State::IntroFade {
            ModelView { state: State::Waiting, ..self }
        } else {
            self
        }
    }

    /// A wait has begun and no delay was drawn for it yet.
    pub open spec fn unarmed(self) -> bool {
        self.state == State::Waiting && self.pending_delay is None
    }

    /// At `now` the delay `delay_ms` is set for a wait that had none.
    /// Elsewhere nothing happens.
    pub open spec fn arm(self, now: u128, delay_ms: u64) -> ModelView {
        if self.unarmed() {
            ModelView { timer: Some(now), pending_delay: Some(delay_ms), ..self }
        } else {
            self
        }
    }

    /// The pending delay has run out at `now`: more time than the delay has
    /// passed since the wait began.
    pub open spec fn due(self, now: u128) -> bool {
        &&& self.state == State::Waiting
        &&& self.pending_delay matches Some(delay_ms)
        &&& self.timer matches Some(since)
        &&& now > since + delay_ms * NANOS_PER_MILLI
    }

    /// The flash, where it is due at `now`: the colour that `draw` picks among
    /// the others is shown, and the reaction is timed from `now`. Where no
    /// flash is due nothing happens.
    pub open spec fn flash(self, now: u128, draw: nat) -> ModelView {
        if self.due(now) {
            ModelView {
                state: State::Running,
                color_index: skip_over(self.color_index, draw),
                timer: Some(now),
                pending_delay: None,
                ..self
            }
        } else {
            self
        }
    }

    /// The whole milliseconds from the time noted to `now`; nothing where no
    /// time is noted or `now` lies before it.
    pub open spec fn elapsed_millis(self, now: u128) -> Option<u128> {
        match self.timer {
            Some(since) if now >= since => Some(((now - since) / NANOS_PER_MILLI as int) as u128),
            _ => None,
        }
    }

    /// A reaction after `elapsed_ms` is too quick to be one.
    pub open spec fn false_start(self, elapsed_ms: u128) -> bool {
        elapsed_ms < self.settings.false_start_ms
    }

    /// The latency `elapsed_ms` is recorded, and the session goes on to the
    /// next wait or, after the last trial, to the figures.
    pub open spec fn record(self, elapsed_ms: u128) -> ModelView {
        ModelView {
            state: if self.completed + 1 < self.target {
                State::Waiting
            } else {
                State::Stats
            },
            timer: None,
            latencies: self.latencies.push(elapsed_ms),
            completed: self.completed + 1,
            ..self
        }
    }

    /// The player reacts `elapsed_ms` after the flash. A false start begins a
    /// new session of `fresh_target` trials; any other reaction is recorded.
    /// Where no reaction is timed nothing happens.
    pub open spec fn react(self, elapsed_ms: u128, fresh_target: nat) -> ModelView {
        if self.state != State::Running {
            self
        } else if self.false_start(elapsed_ms) {
            self.reset(fresh_target)
        } else {
            self.record(elapsed_ms)
        }
    }

    /// What [`ModelView::react`] did.
    pub open spec fn react_outcome(self, elapsed_ms: u128) -> Outcome {
        if self.state != State::Running {
            Outcome::Ignored
        } else if self.false_start(elapsed_ms) {
            Outcome::FalseStart
        } else if self.completed + 1 < self.target {
            Outcome::Recorded
        } else {
            Outcome::Finished
        }
    }

    /// One tick of the clock at `now`, with a delay and a draw at hand in
    /// case the tick needs them. After a start the wait begins; a wait
    /// without a delay gets `delay_ms`; a wait whose delay has run out ends
    /// in the flash that `draw` picks. Any other tick changes nothing.
    pub open spec fn tick(self, now: u128, delay_ms: u64, draw: nat) -> ModelView {
        match self.state {
            State::IntroFade => self.fade(),
            State::Waiting => if self.unarmed() {
                self.arm(now, delay_ms)
            } else {
                self.flash(now, draw)
            },
            _ => self,
        }
    }

    /// The input `input` at `now`, with a number of trials at hand in case a
    /// new session begins. A press starts the session or answers the flash,
    /// a restart begins a new session, and anything else changes nothing;
    /// nor does a press that finds the clock gone back.
    pub open spec fn handle(self, input: Input, now: u128, fresh_target: nat) -> ModelView {
        match input {
            Input::Press => match self.state {
                State::Intro => self.start(),
                State::Running => match self.elapsed_millis(now) {
                    Some(elapsed_ms) => self.react(elapsed_ms, fresh_target),
                    None => self,
                },
                _ => self,
            },
            Input::Restart => self.reset(fresh_target),
            Input::Other => self,
        }
    }

    /// The event can happen to this session: its draw picks one of the other
    /// colours, and its number of trials is one that a session may have.
    pub open spec fn admits(self, event: Event) -> bool {
        match event {
            Event::Tick { draw, .. } => draw + 1 < self.palette.len(),
            Event::Key { fresh_target, .. } => MIN_TRIALS <= fresh_target <= MAX_TRIALS,
        }
    }

    /// The session after the event.
    pub open spec fn step(self, event: Event) -> ModelView {
        match event {
            Event::Tick { now, delay_ms, draw } => self.tick(now, delay_ms, draw),
            Event::Key { input, now, fresh_target } => self.handle(input, now, fresh_target),
        }
    }

    /// The session after the events, the first of them first.
    pub open spec fn run(self, events: Seq<Event>) -> ModelView
        decreases events.len(),
    {
        if events.len() == 0 {
            self
        } else {
            self.run(events.drop_last()).step(events.last())
        }
    }

    /// What [`ModelView::handle`] did, or why it could do nothing.
    pub open spec fn handle_result(self, input: Input, now: u128) -> Result<Outcome, ClockError> {
        match input {
            Input::Press => match self.state {
                State::Intro => Ok(Outcome::Started),
                State::Running => match self.elapsed_millis(now) {
                    Some(elapsed_ms) => Ok(self.react_outcome(elapsed_ms)),
                    None => Err(ClockError::WentBackwards),
                },
                _ => Ok(Outcome::Ignored),
            },
            Input::Restart => Ok(Outcome::Restarted),
            Input::Other => Ok(Outcome::Ignored),
        }
    }
}

} // verus!
