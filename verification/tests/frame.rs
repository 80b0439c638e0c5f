use tomato::action::Action;
use tomato::action::TimerId;
use tomato::action::TimerOp;
use tomato::frame::can_stop;
use tomato::frame::frame_actions;
use tomato::frame::toggle_op;
use tomato::frame::Clicks;
use tomato::state::State;
use tomato::timer::State as Phase;
use tomato::timer::Timer;
use tomato::Core;

const NONE: Clicks = Clicks { toggle: false, stop: false };
const TOGGLE: Clicks = Clicks { toggle: true, stop: false };
const STOP: Clicks = Clicks { toggle: false, stop: true };
const BOTH: Clicks = Clicks { toggle: true, stop: true };

fn command(id: usize, op: TimerOp) -> Action {
    Action::TimerAction { id: TimerId(id), op }
}

/// Four timers: idle, running, paused, expired.
fn one_of_each() -> State {
    let mut timers = vec![
        Timer::new("idle".to_owned(), 100),
        Timer::new("running".to_owned(), 100),
        Timer::new("paused".to_owned(), 100),
        Timer::new("expired".to_owned(), 100),
    ];
    timers[1].start(0);
    timers[2].start(0);
    timers[2].pause(10);
    timers[3].start(0);
    timers[3].tick(100);
    State { timers }
}

#[test]
fn toggle_button_starts_pauses_or_resumes() {
    assert_eq!(toggle_op(Phase::Reset), TimerOp::Start);
    assert_eq!(toggle_op(Phase::Started), TimerOp::Pause);
    assert_eq!(toggle_op(Phase::Paused), TimerOp::Resume);
    assert_eq!(toggle_op(Phase::Stopped), TimerOp::Start);
}

#[test]
fn stop_button_is_live_unless_the_timer_is_reset() {
    assert!(!can_stop(Phase::Reset));
    assert!(can_stop(Phase::Started));
    assert!(can_stop(Phase::Paused));
    assert!(can_stop(Phase::Stopped));
}

#[test]
fn frame_without_clicks_is_a_tick() {
    let state = one_of_each();
    assert_eq!(frame_actions(&state, &vec![NONE, NONE, NONE, NONE], false), vec![Action::Tick]);
    assert_eq!(frame_actions(&state, &Vec::new(), false), vec![Action::Tick]);
    let empty = State { timers: Vec::new() };
    assert_eq!(frame_actions(&empty, &Vec::new(), false), vec![Action::Tick]);
}

#[test]
fn toggle_clicks_follow_the_state_of_each_timer() {
    let state = one_of_each();
    assert_eq!(
        frame_actions(&state, &vec![TOGGLE, TOGGLE, TOGGLE, TOGGLE], false),
        vec![
            command(0, TimerOp::Start),
            command(1, TimerOp::Pause),
            command(2, TimerOp::Resume),
            command(3, TimerOp::Start),
            Action::Tick,
        ]
    );
}

#[test]
fn stop_clicks_count_only_where_the_button_is_live() {
    let state = one_of_each();
    assert_eq!(
        frame_actions(&state, &vec![STOP, STOP, STOP, STOP], false),
        vec![
            command(1, TimerOp::Stop),
            command(2, TimerOp::Stop),
            command(3, TimerOp::Stop),
            Action::Tick,
        ]
    );
}

#[test]
fn both_buttons_give_the_toggle_first() {
    let state = one_of_each();
    assert_eq!(
        frame_actions(&state, &vec![BOTH, NONE, BOTH, NONE], false),
        vec![
            command(0, TimerOp::Start),
            command(2, TimerOp::Resume),
            command(2, TimerOp::Stop),
            Action::Tick,
        ]
    );
}

#[test]
fn clicks_beyond_the_timers_are_dropped_and_missing_ones_are_none() {
    let state = one_of_each();
    assert_eq!(
        frame_actions(&state, &vec![NONE, TOGGLE], false),
        vec![command(1, TimerOp::Pause), Action::Tick]
    );
    assert_eq!(
        frame_actions(&state, &vec![NONE, NONE, NONE, STOP, BOTH, BOTH], false),
        vec![command(3, TimerOp::Stop), Action::Tick]
    );
}

#[test]
fn closing_the_window_is_a_quit_and_nothing_else() {
    let state = one_of_each();
    assert_eq!(frame_actions(&state, &vec![BOTH, BOTH, BOTH, BOTH], true), vec![Action::Quit]);
    assert_eq!(frame_actions(&state, &Vec::new(), true), vec![Action::Quit]);
}

#[test]
fn actions_of_a_frame_are_accepted_and_applied() {
    let mut core = Core::new(one_of_each());
    let actions = frame_actions(core.state(), &vec![TOGGLE, STOP, TOGGLE, NONE], false);
    for action in actions.iter() {
        assert!(core.state().accepts(action));
    }
    assert_eq!(core.handle_all(actions, 50), None);
    let phases: Vec<Phase> = core.state().timers.iter().map(|t| t.state()).collect();
    assert_eq!(phases, vec![Phase::Started, Phase::Reset, Phase::Started, Phase::Stopped]);
    let readings: Vec<u128> = core.state().timers.iter().map(|t| t.elapsed(60)).collect();
    assert_eq!(readings, vec![10, 0, 20, 100]);
}

#[test]
fn frame_without_close_ends_with_a_tick_and_leaves_no_timer_overdue() {
    let mut core = Core::new(one_of_each());
    // The running timer is overdue at 250, the resumed one has 10 on its clock.
    let now: u128 = 250;
    let actions = frame_actions(core.state(), &vec![TOGGLE, NONE, TOGGLE, TOGGLE], false);
    assert_eq!(actions.last(), Some(&Action::Tick));
    assert!(!actions.contains(&Action::Quit));
    assert_eq!(core.handle_all(actions, now), None);
    for t in core.state().timers.iter() {
        if t.state() == Phase::Started {
            assert!(t.elapsed(now) < t.duration());
        }
        let frac = t.elapsed_frac(now);
        assert!(frac.numer <= frac.denom);
    }
    let phases: Vec<Phase> = core.state().timers.iter().map(|t| t.state()).collect();
    assert_eq!(phases, vec![Phase::Started, Phase::Stopped, Phase::Started, Phase::Started]);
}
