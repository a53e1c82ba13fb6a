use reflex::clock::ClockError;
use reflex::machine::{
    Input, Outcome, Settings, State, DEFAULT_FALSE_START_MS, DEFAULT_MAX_DELAY_MS,
    DEFAULT_MIN_DELAY_MS, MAX_TRIALS, MIN_TRIALS, NANOS_PER_MILLI,
};
use reflex::model::Model;
use reflex::palette::{Color, Rgb};

const MS: u128 = 1_000_000;

fn cycler() -> Color {
    let colors = vec![
        Rgb { red: 0, green: 0, blue: 0 },
        Rgb { red: 255, green: 0, blue: 0 },
        Rgb { red: 0, green: 255, blue: 0 },
        Rgb { red: 0, green: 0, blue: 255 },
    ];
    Color::new(colors, 0).unwrap()
}

fn session(target: u32) -> Model {
    Model::with_trials(cycler(), Settings::default(), target)
}

/// Drives a session from a wait without a delay to a timed reaction, and
/// returns the time of the flash.
fn flash_after(model: &mut Model, start: u128, delay_ms: u64) -> u128 {
    assert_eq!(model.state(), State::Waiting);
    assert!(model.arm(start, delay_ms));
    let at = start + delay_ms as u128 * MS + 1;
    assert!(model.flash(at, 0));
    assert_eq!(model.state(), State::Running);
    at
}

fn running(target: u32) -> (Model, u128) {
    let mut model = session(target);
    assert!(model.start());
    assert!(model.fade());
    let at = flash_after(&mut model, 10 * MS, 700);
    (model, at)
}

#[test]
fn default_settings_have_the_documented_values() {
    let settings = Settings::default();
    assert_eq!(settings.false_start_ms, 100);
    assert_eq!(settings.min_delay_ms, 500);
    assert_eq!(settings.max_delay_ms, 3000);
    assert_eq!(DEFAULT_FALSE_START_MS, 100);
    assert_eq!(DEFAULT_MIN_DELAY_MS, 500);
    assert_eq!(DEFAULT_MAX_DELAY_MS, 3000);
    assert_eq!(MIN_TRIALS, 3);
    assert_eq!(MAX_TRIALS, 5);
    assert_eq!(NANOS_PER_MILLI, 1_000_000);
}

#[test]
fn settings_need_a_delay_to_draw() {
    assert_eq!(Settings::new(100, 300, 300), None);
    assert_eq!(Settings::new(100, 301, 300), None);
    assert_eq!(Settings::new(0, 0, 0), None);
    assert_eq!(
        Settings::new(120, 300, 3000),
        Some(Settings { false_start_ms: 120, min_delay_ms: 300, max_delay_ms: 3000 })
    );
    assert_eq!(
        Settings::new(0, 0, 1),
        Some(Settings { false_start_ms: 0, min_delay_ms: 0, max_delay_ms: 1 })
    );
}

#[test]
fn a_session_begins_at_the_instructions() {
    for target in 3..=5u32 {
        let model = session(target);
        assert_eq!(model.state(), State::Intro);
        assert_eq!(model.target(), target);
        assert_eq!(model.completed(), 0);
        assert!(model.latencies().is_empty());
        assert_eq!(model.timer(), None);
        assert_eq!(model.pending_delay(), None);
        assert_eq!(model.settings(), Settings::default());
        assert_eq!(model.color().index(), 0);
        assert_eq!(model.color().len(), 4);
    }
}

#[test]
fn a_random_session_asks_for_three_to_five_trials() {
    let mut seen = [false; 6];
    for _ in 0..600 {
        let model = Model::new(cycler(), Settings::default());
        assert_eq!(model.state(), State::Intro);
        assert_eq!(model.completed(), 0);
        assert!(model.latencies().is_empty());
        assert!(3 <= model.target() && model.target() <= 5);
        seen[model.target() as usize] = true;
    }
    assert!(seen[3] && seen[4] && seen[5]);
}

#[test]
fn start_leaves_the_instructions_only() {
    let mut model = session(3);
    assert!(model.start());
    assert_eq!(model.state(), State::IntroFade);
    assert!(!model.start());
    assert_eq!(model.state(), State::IntroFade);
    assert!(model.fade());
    assert!(!model.start());
    assert_eq!(model.state(), State::Waiting);
}

#[test]
fn fade_begins_the_wait_only_after_a_start() {
    let mut model = session(3);
    assert!(!model.fade());
    assert_eq!(model.state(), State::Intro);
    assert!(model.start());
    assert!(model.fade());
    assert_eq!(model.state(), State::Waiting);
    assert!(!model.fade());
    assert_eq!(model.state(), State::Waiting);
    assert_eq!(model.pending_delay(), None);
    assert_eq!(model.timer(), None);
}

#[test]
fn arm_sets_one_delay_for_each_wait() {
    let mut model = session(3);
    assert!(!model.arm(5, 900));
    assert_eq!(model.pending_delay(), None);
    model.start();
    assert!(!model.arm(5, 900));
    model.fade();
    assert!(model.arm(5, 900));
    assert_eq!(model.pending_delay(), Some(900));
    assert_eq!(model.timer(), Some(5));
    assert_eq!(model.state(), State::Waiting);
    assert!(!model.arm(77, 1200));
    assert_eq!(model.pending_delay(), Some(900));
    assert_eq!(model.timer(), Some(5));
}

#[test]
fn a_flash_is_due_only_after_the_whole_delay() {
    let mut model = session(3);
    assert!(!model.is_due(u128::MAX));
    model.start();
    model.fade();
    assert!(!model.is_due(u128::MAX));
    model.arm(1_000, 500);
    assert!(!model.is_due(0));
    assert!(!model.is_due(1_000));
    assert!(!model.is_due(1_000 + 500 * MS - 1));
    assert!(!model.is_due(1_000 + 500 * MS));
    assert!(model.is_due(1_000 + 500 * MS + 1));
    assert!(model.is_due(u128::MAX));
}

#[test]
fn a_delay_of_nothing_is_due_at_the_next_instant() {
    let mut model = session(3);
    model.start();
    model.fade();
    model.arm(40, 0);
    assert!(!model.is_due(40));
    assert!(model.is_due(41));
}

#[test]
fn is_due_near_the_end_of_time() {
    let mut model = session(3);
    model.start();
    model.fade();
    model.arm(u128::MAX - 5, u64::MAX);
    assert!(!model.is_due(u128::MAX));
    assert!(!model.is_due(0));
}

#[test]
fn flash_before_its_time_changes_nothing() {
    let mut model = session(3);
    model.start();
    model.fade();
    model.arm(1_000, 500);
    assert!(!model.flash(1_000 + 500 * MS, 1));
    assert_eq!(model.state(), State::Waiting);
    assert_eq!(model.color().index(), 0);
    assert_eq!(model.pending_delay(), Some(500));
    assert_eq!(model.timer(), Some(1_000));
}

#[test]
fn flash_changes_the_color_and_times_the_reaction() {
    let mut model = session(3);
    model.start();
    model.fade();
    model.arm(1_000, 500);
    let at = 1_000 + 500 * MS + 1;
    assert!(model.flash(at, 2));
    assert_eq!(model.state(), State::Running);
    assert_eq!(model.color().index(), 3);
    assert_eq!(model.pending_delay(), None);
    assert_eq!(model.timer(), Some(at));
    assert_eq!(model.completed(), 0);
    assert!(!model.flash(at + 10_000 * MS, 0));
    assert_eq!(model.color().index(), 3);
}

#[test]
fn elapsed_millis_counts_whole_milliseconds() {
    let (model, at) = running(3);
    assert_eq!(model.elapsed_millis(at), Some(0));
    assert_eq!(model.elapsed_millis(at + MS - 1), Some(0));
    assert_eq!(model.elapsed_millis(at + MS), Some(1));
    assert_eq!(model.elapsed_millis(at + 2 * MS - 1), Some(1));
    assert_eq!(model.elapsed_millis(at + 183 * MS + 999_999), Some(183));
    assert_eq!(model.elapsed_millis(u128::MAX), Some((u128::MAX - at) / MS));
}

#[test]
fn elapsed_millis_needs_a_time_that_has_not_gone_back() {
    let (model, at) = running(3);
    assert_eq!(model.elapsed_millis(at - 1), None);
    assert_eq!(model.elapsed_millis(0), None);
    let idle = session(3);
    assert_eq!(idle.elapsed_millis(0), None);
    assert_eq!(idle.elapsed_millis(u128::MAX), None);
}

#[test]
fn a_reaction_just_under_the_threshold_is_a_false_start() {
    let (mut model, _) = running(3);
    assert_eq!(model.react(99, 5), Outcome::FalseStart);
    assert_eq!(model.state(), State::Intro);
    assert_eq!(model.completed(), 0);
    assert!(model.latencies().is_empty());
    assert_eq!(model.target(), 5);
    assert_eq!(model.timer(), None);
    assert_eq!(model.pending_delay(), None);
}

#[test]
fn a_reaction_at_the_threshold_is_recorded() {
    let (mut model, _) = running(3);
    assert_eq!(model.react(100, 5), Outcome::Recorded);
    assert_eq!(model.state(), State::Waiting);
    assert_eq!(model.completed(), 1);
    assert_eq!(*model.latencies(), vec![100u128]);
    assert_eq!(model.target(), 3);
    assert_eq!(model.timer(), None);
    assert_eq!(model.pending_delay(), None);
}

#[test]
fn a_false_start_discards_every_trial_done() {
    for done in 0..4u32 {
        let mut model = session(5);
        model.start();
        model.fade();
        let mut clock: u128 = 0;
        for _ in 0..done {
            let at = flash_after(&mut model, clock, 600);
            assert_eq!(model.react(250, 3), Outcome::Recorded);
            clock = at + 250 * MS;
        }
        assert_eq!(model.completed(), done);
        flash_after(&mut model, clock, 600);
        assert_eq!(model.react(0, 4), Outcome::FalseStart);
        assert_eq!(model.state(), State::Intro);
        assert_eq!(model.completed(), 0);
        assert!(model.latencies().is_empty());
        assert_eq!(model.target(), 4);
    }
}

#[test]
fn a_reaction_counts_one_trial_and_appends_one_latency() {
    let mut model = session(5);
    model.start();
    model.fade();
    let latencies = [150u128, 220, 180, 100];
    let mut recorded: Vec<u128> = Vec::new();
    for (done, latency) in latencies.iter().enumerate() {
        flash_after(&mut model, 0, 500);
        assert_eq!(model.react(*latency, 3), Outcome::Recorded);
        recorded.push(*latency);
        assert_eq!(model.completed() as usize, done + 1);
        assert_eq!(*model.latencies(), recorded);
        assert_eq!(model.target(), 5);
        assert_eq!(model.state(), State::Waiting);
    }
}

#[test]
fn react_means_nothing_where_no_reaction_is_timed() {
    let mut model = session(3);
    assert_eq!(model.react(500, 4), Outcome::Ignored);
    assert_eq!(model.state(), State::Intro);
    model.start();
    assert_eq!(model.react(500, 4), Outcome::Ignored);
    assert_eq!(model.state(), State::IntroFade);
    model.fade();
    assert_eq!(model.react(5, 4), Outcome::Ignored);
    assert_eq!(model.state(), State::Waiting);
    model.arm(0, 500);
    assert_eq!(model.react(500, 4), Outcome::Ignored);
    assert_eq!(model.pending_delay(), Some(500));
    assert_eq!(model.completed(), 0);
    assert_eq!(model.target(), 3);
    assert!(model.latencies().is_empty());
}

#[test]
fn scenario_react_at_50_ms_resets_to_intro() {
    let mut model = session(4);
    assert_eq!(model.handle(Input::Press, 0, 3), Ok(Outcome::Started));
    model.tick(1 * MS, 750, 0);
    assert_eq!(model.state(), State::Waiting);
    model.tick(2 * MS, 750, 0);
    assert_eq!(model.pending_delay(), Some(750));
    model.tick(400 * MS, 900, 0);
    assert_eq!(model.state(), State::Waiting);
    model.tick(753 * MS, 900, 1);
    assert_eq!(model.state(), State::Running);
    assert_eq!(model.color().index(), 2);
    assert_eq!(model.handle(Input::Press, 803 * MS, 5), Ok(Outcome::FalseStart));
    assert_eq!(model.state(), State::Intro);
    assert_eq!(model.completed(), 0);
    assert!(model.latencies().is_empty());
    assert_eq!(model.target(), 5);
}

#[test]
fn scenario_reacting_at_500_ms_every_trial_reaches_stats() {
    for target in 3..=5u32 {
        let mut model = session(target);
        assert_eq!(model.handle(Input::Press, 0, 3), Ok(Outcome::Started));
        let mut clock: u128 = 0;
        model.tick(clock, 1000, 0);
        for trial in 1..=target {
            assert_eq!(model.state(), State::Waiting);
            let shown = model.color().index();
            model.tick(clock, 1000, 0);
            assert_eq!(model.pending_delay(), Some(1000));
            clock += 1000 * MS + 1;
            model.tick(clock, 2000, 0);
            assert_eq!(model.state(), State::Running);
            assert_ne!(model.color().index(), shown);
            clock += 500 * MS;
            let outcome = model.handle(Input::Press, clock, 3);
            if trial < target {
                assert_eq!(outcome, Ok(Outcome::Recorded));
            } else {
                assert_eq!(outcome, Ok(Outcome::Finished));
            }
            assert_eq!(model.completed(), trial);
            assert_eq!(model.latencies().len(), trial as usize);
        }
        assert_eq!(model.state(), State::Stats);
        assert_eq!(model.latencies().len(), target as usize);
        assert_eq!(*model.latencies(), vec![500u128; target as usize]);
        assert_eq!(model.target(), target);
    }
}

#[test]
fn a_finished_session_leaves_only_by_a_restart() {
    let mut model = session(3);
    model.start();
    model.fade();
    for _ in 0..3 {
        flash_after(&mut model, 0, 500);
        model.react(300, 3);
    }
    assert_eq!(model.state(), State::Stats);
    assert_eq!(model.handle(Input::Press, 9_000 * MS, 3), Ok(Outcome::Ignored));
    assert_eq!(model.handle(Input::Other, 9_000 * MS, 3), Ok(Outcome::Ignored));
    model.tick(9_000 * MS, 500, 0);
    assert!(!model.start());
    assert!(!model.fade());
    assert!(!model.arm(0, 500));
    assert!(!model.flash(u128::MAX, 0));
    assert_eq!(model.react(300, 3), Outcome::Ignored);
    assert_eq!(model.state(), State::Stats);
    assert_eq!(*model.latencies(), vec![300u128, 300, 300]);
    assert_eq!(model.handle(Input::Restart, 9_000 * MS, 4), Ok(Outcome::Restarted));
    assert_eq!(model.state(), State::Intro);
}

#[test]
fn restart_from_every_state_returns_to_intro() {
    let mut models: Vec<Model> = Vec::new();
    // Intro
    models.push(session(3));
    // IntroFade
    let mut model = session(3);
    model.start();
    models.push(model);
    // Waiting, no delay drawn
    let mut model = session(3);
    model.start();
    model.fade();
    models.push(model);
    // Waiting, delay pending
    let mut model = session(3);
    model.start();
    model.fade();
    model.arm(7, 800);
    models.push(model);
    // Running, with one trial done
    let (mut model, _) = running(3);
    model.react(400, 3);
    flash_after(&mut model, 0, 500);
    models.push(model);
    // Stats
    let (mut model, _) = running(3);
    model.react(400, 3);
    flash_after(&mut model, 0, 500);
    model.react(400, 3);
    flash_after(&mut model, 0, 500);
    model.react(400, 3);
    assert_eq!(model.state(), State::Stats);
    models.push(model);

    let states = [
        State::Intro,
        State::IntroFade,
        State::Waiting,
        State::Waiting,
        State::Running,
        State::Stats,
    ];
    for (mut model, state) in models.into_iter().zip(states) {
        assert_eq!(model.state(), state);
        let shown = model.color().index();
        assert_eq!(model.handle(Input::Restart, 12, 4), Ok(Outcome::Restarted));
        assert_eq!(model.state(), State::Intro);
        assert_eq!(model.completed(), 0);
        assert!(model.latencies().is_empty());
        assert_eq!(model.target(), 4);
        assert_eq!(model.timer(), None);
        assert_eq!(model.pending_delay(), None);
        assert_eq!(model.color().index(), shown);
    }
}

#[test]
fn reset_to_begins_a_session_of_the_given_length() {
    let (mut model, _) = running(3);
    model.react(400, 3);
    model.reset_to(5);
    assert_eq!(model.state(), State::Intro);
    assert_eq!(model.target(), 5);
    assert_eq!(model.completed(), 0);
    assert!(model.latencies().is_empty());
    assert_eq!(model.timer(), None);
    assert_eq!(model.settings(), Settings::default());
}

#[test]
fn reset_draws_three_to_five_trials() {
    let (mut model, _) = running(3);
    let mut seen = [false; 6];
    for _ in 0..600 {
        model.reset();
        assert_eq!(model.state(), State::Intro);
        assert_eq!(model.completed(), 0);
        assert!(model.latencies().is_empty());
        assert!(3 <= model.target() && model.target() <= 5);
        seen[model.target() as usize] = true;
    }
    assert!(seen[3] && seen[4] && seen[5]);
}

#[test]
fn a_restart_forgets_a_pending_delay() {
    let mut model = session(3);
    model.start();
    model.fade();
    model.arm(0, 2_999);
    model.reset_to(3);
    model.start();
    model.fade();
    assert_eq!(model.pending_delay(), None);
    assert!(!model.is_due(u128::MAX));
    assert!(model.arm(50, 500));
    assert_eq!(model.pending_delay(), Some(500));
}

#[test]
fn a_press_with_the_clock_gone_back_is_an_error() {
    let (mut model, at) = running(3);
    let shown = model.color().index();
    assert_eq!(model.handle(Input::Press, at - 1, 3), Err(ClockError::WentBackwards));
    assert_eq!(model.state(), State::Running);
    assert_eq!(model.timer(), Some(at));
    assert_eq!(model.completed(), 0);
    assert_eq!(model.color().index(), shown);
    assert_eq!(model.handle(Input::Press, at + 100 * MS, 3), Ok(Outcome::Recorded));
}

#[test]
fn a_press_means_nothing_during_a_wait() {
    let mut model = session(3);
    model.start();
    assert_eq!(model.handle(Input::Press, 0, 3), Ok(Outcome::Ignored));
    assert_eq!(model.state(), State::IntroFade);
    model.fade();
    assert_eq!(model.handle(Input::Press, 0, 3), Ok(Outcome::Ignored));
    model.arm(10, 500);
    assert_eq!(model.handle(Input::Press, 0, 3), Ok(Outcome::Ignored));
    assert_eq!(model.state(), State::Waiting);
    assert_eq!(model.pending_delay(), Some(500));
}

#[test]
fn other_input_changes_nothing() {
    let (mut model, at) = running(4);
    assert_eq!(model.handle(Input::Other, at + 500 * MS, 3), Ok(Outcome::Ignored));
    assert_eq!(model.handle(Input::Other, 0, 3), Ok(Outcome::Ignored));
    assert_eq!(model.state(), State::Running);
    assert_eq!(model.timer(), Some(at));
    assert_eq!(model.target(), 4);
}

#[test]
fn a_tick_makes_one_transition_at_most() {
    let mut model = session(3);
    model.tick(u128::MAX, 0, 0);
    assert_eq!(model.state(), State::Intro);
    model.start();
    model.tick(100, 0, 0);
    assert_eq!(model.state(), State::Waiting);
    assert_eq!(model.pending_delay(), None);
    model.tick(100, 0, 0);
    assert_eq!(model.state(), State::Waiting);
    assert_eq!(model.pending_delay(), Some(0));
    assert_eq!(model.timer(), Some(100));
    model.tick(100, 0, 0);
    assert_eq!(model.state(), State::Waiting);
    model.tick(101, 0, 2);
    assert_eq!(model.state(), State::Running);
    assert_eq!(model.color().index(), 3);
    model.tick(u128::MAX, 0, 0);
    assert_eq!(model.state(), State::Running);
    assert_eq!(model.timer(), Some(101));
    assert_eq!(model.color().index(), 3);
}

#[test]
fn trials_done_and_latencies_recorded_agree_throughout() {
    let mut model = session(4);
    let inputs = [
        Input::Press,
        Input::Other,
        Input::Press,
        Input::Press,
        Input::Restart,
        Input::Press,
        Input::Press,
        Input::Press,
        Input::Press,
        Input::Press,
        Input::Press,
        Input::Press,
    ];
    let mut clock: u128 = 0;
    for input in inputs {
        for _ in 0..4 {
            clock += 1_500 * MS;
            model.tick(clock, 1000, 1);
            assert_eq!(model.completed() as usize, model.latencies().len());
            assert!(model.completed() <= model.target());
        }
        clock += 200 * MS;
        let result = model.handle(input, clock, 3);
        assert!(result.is_ok());
        assert_eq!(model.completed() as usize, model.latencies().len());
        assert!(model.completed() <= model.target());
        assert!(3 <= model.target() && model.target() <= 5);
        assert_eq!(model.state() == State::Stats, model.completed() == model.target());
        for latency in model.latencies().iter() {
            assert!(*latency >= model.settings().false_start_ms);
        }
    }
    assert_eq!(model.state(), State::Stats);
    assert_eq!(model.latencies().len(), 3);
}

#[test]
fn a_threshold_of_nothing_accepts_every_reaction() {
    let settings = Settings::new(0, 500, 3000).unwrap();
    let mut model = Model::with_trials(cycler(), settings, 3);
    model.start();
    model.fade();
    flash_after(&mut model, 0, 500);
    assert_eq!(model.react(0, 3), Outcome::Recorded);
    assert_eq!(*model.latencies(), vec![0u128]);
}

#[test]
fn a_higher_threshold_rejects_more() {
    let settings = Settings::new(250, 500, 3000).unwrap();
    let mut model = Model::with_trials(cycler(), settings, 3);
    model.start();
    model.fade();
    flash_after(&mut model, 0, 500);
    assert_eq!(model.react(249, 4), Outcome::FalseStart);
    assert_eq!(model.state(), State::Intro);
    assert_eq!(model.settings(), settings);
    model.start();
    model.fade();
    flash_after(&mut model, 0, 500);
    assert_eq!(model.react(250, 4), Outcome::Recorded);
}
