use tomato::action::Action;
use tomato::action::TimerId;
use tomato::action::TimerOp;
use tomato::handle_action::handle_action;
use tomato::state::State;
use tomato::timer::State as Phase;
use tomato::timer::Timer;
use tomato::Core;

fn three_timers() -> State {
    State {
        timers: vec![
            Timer::new("Work".to_owned(), 100),
            Timer::new("Br".to_owned(), 20),
            Timer::new("Break".to_owned(), 60),
        ],
    }
}

fn command(id: usize, op: TimerOp) -> Action {
    Action::TimerAction { id: TimerId(id), op }
}

fn phases(state: &State) -> Vec<Phase> {
    state.timers.iter().map(|t| t.state()).collect()
}

fn readings(state: &State, now: u128) -> Vec<u128> {
    state.timers.iter().map(|t| t.elapsed(now)).collect()
}

#[test]
fn start_command_touches_only_its_timer() {
    let mut state = three_timers();
    let signal = handle_action(command(1, TimerOp::Start), &mut state, 500);
    assert_eq!(signal, None);
    assert_eq!(phases(&state), vec![Phase::Reset, Phase::Started, Phase::Reset]);
    assert_eq!(readings(&state, 510), vec![0, 10, 0]);
    assert_eq!(state.timers.len(), 3);
    assert_eq!(state.timers[1].label(), "Br");
    assert_eq!(state.timers[1].duration(), 20);
}

#[test]
fn each_command_applies_its_operation_at_the_given_instant() {
    let mut state = three_timers();
    assert_eq!(handle_action(command(0, TimerOp::Start), &mut state, 1000), None);
    assert_eq!(readings(&state, 1030), vec![30, 0, 0]);

    assert_eq!(handle_action(command(0, TimerOp::Pause), &mut state, 1040), None);
    assert_eq!(phases(&state), vec![Phase::Paused, Phase::Reset, Phase::Reset]);
    assert_eq!(readings(&state, 5000), vec![40, 0, 0]);

    assert_eq!(handle_action(command(0, TimerOp::Resume), &mut state, 2000), None);
    assert_eq!(phases(&state), vec![Phase::Started, Phase::Reset, Phase::Reset]);
    assert_eq!(readings(&state, 2000), vec![40, 0, 0]);
    assert_eq!(readings(&state, 2015), vec![55, 0, 0]);

    assert_eq!(handle_action(command(0, TimerOp::Stop), &mut state, 2020), None);
    assert_eq!(phases(&state), vec![Phase::Reset, Phase::Reset, Phase::Reset]);
    assert_eq!(readings(&state, 2020), vec![0, 0, 0]);
}

#[test]
fn tick_reaches_every_timer_with_the_same_instant() {
    let mut state = three_timers();
    handle_action(command(0, TimerOp::Start), &mut state, 0);
    handle_action(command(1, TimerOp::Start), &mut state, 0);
    handle_action(command(2, TimerOp::Start), &mut state, 0);

    assert_eq!(handle_action(Action::Tick, &mut state, 19), None);
    assert_eq!(phases(&state), vec![Phase::Started, Phase::Started, Phase::Started]);

    assert_eq!(handle_action(Action::Tick, &mut state, 60), None);
    assert_eq!(phases(&state), vec![Phase::Started, Phase::Stopped, Phase::Stopped]);
    assert_eq!(readings(&state, 60), vec![60, 20, 60]);

    assert_eq!(handle_action(Action::Tick, &mut state, 100), None);
    assert_eq!(phases(&state), vec![Phase::Stopped, Phase::Stopped, Phase::Stopped]);
}

#[test]
fn tick_leaves_idle_and_paused_timers_alone() {
    let mut state = three_timers();
    handle_action(command(1, TimerOp::Start), &mut state, 0);
    handle_action(command(1, TimerOp::Pause), &mut state, 5);
    handle_action(Action::Tick, &mut state, 1_000_000);
    assert_eq!(phases(&state), vec![Phase::Reset, Phase::Paused, Phase::Reset]);
    assert_eq!(readings(&state, 1_000_000), vec![0, 5, 0]);
}

#[test]
fn tick_on_no_timers_does_nothing() {
    let mut state = State { timers: Vec::new() };
    assert_eq!(handle_action(Action::Tick, &mut state, 7), None);
    assert!(state.timers.is_empty());
}

#[test]
fn quit_is_handed_back_and_changes_nothing() {
    let mut state = three_timers();
    handle_action(command(2, TimerOp::Start), &mut state, 10);
    let signal = handle_action(Action::Quit, &mut state, 1_000_000);
    assert_eq!(signal, Some(Action::Quit));
    assert_eq!(phases(&state), vec![Phase::Reset, Phase::Reset, Phase::Started]);
    assert_eq!(readings(&state, 30), vec![0, 0, 20]);
}

#[test]
fn timer_commands_and_ticks_give_no_signal() {
    let mut state = three_timers();
    for op in [TimerOp::Start, TimerOp::Pause, TimerOp::Resume, TimerOp::Stop] {
        assert_eq!(handle_action(command(0, op), &mut state, 1), None);
    }
    assert_eq!(handle_action(Action::Tick, &mut state, 2), None);
}

#[test]
fn state_accepts_commands_for_timers_that_are_there() {
    let state = three_timers();
    assert!(state.accepts(&command(0, TimerOp::Start)));
    assert!(state.accepts(&command(2, TimerOp::Stop)));
    assert!(!state.accepts(&command(3, TimerOp::Start)));
    assert!(!state.accepts(&command(usize::MAX, TimerOp::Pause)));
    assert!(state.accepts(&Action::Tick));
    assert!(state.accepts(&Action::Quit));
    let empty = State { timers: Vec::new() };
    assert!(!empty.accepts(&command(0, TimerOp::Start)));
    assert!(empty.accepts(&Action::Tick));
}

#[test]
fn core_hands_actions_to_the_dispatcher() {
    let mut core = Core::new(three_timers());
    assert_eq!(core.state().timers.len(), 3);
    assert_eq!(core.handle(command(1, TimerOp::Start), 100), None);
    assert_eq!(phases(core.state()), vec![Phase::Reset, Phase::Started, Phase::Reset]);
    assert_eq!(core.handle(Action::Tick, 119), None);
    assert_eq!(phases(core.state()), vec![Phase::Reset, Phase::Started, Phase::Reset]);
    assert_eq!(core.handle(Action::Tick, 120), None);
    assert_eq!(phases(core.state()), vec![Phase::Reset, Phase::Stopped, Phase::Reset]);
    assert_eq!(core.handle(Action::Quit, 121), Some(Action::Quit));
    assert_eq!(phases(core.state()), vec![Phase::Reset, Phase::Stopped, Phase::Reset]);
}

#[test]
fn handle_all_applies_the_actions_in_order() {
    let mut core = Core::new(three_timers());
    let signal = core.handle_all(
        vec![
            command(0, TimerOp::Start),
            command(1, TimerOp::Start),
            command(1, TimerOp::Pause),
            command(0, TimerOp::Stop),
            command(2, TimerOp::Resume),
            Action::Tick,
        ],
        50,
    );
    assert_eq!(signal, None);
    assert_eq!(phases(core.state()), vec![Phase::Reset, Phase::Paused, Phase::Started]);
    assert_eq!(readings(core.state(), 70), vec![0, 0, 20]);
}

#[test]
fn handle_all_stops_at_the_first_quit() {
    let mut core = Core::new(three_timers());
    let signal = core.handle_all(
        vec![
            command(0, TimerOp::Start),
            Action::Quit,
            command(1, TimerOp::Start),
            Action::Quit,
        ],
        50,
    );
    assert_eq!(signal, Some(Action::Quit));
    assert_eq!(phases(core.state()), vec![Phase::Started, Phase::Reset, Phase::Reset]);
}

#[test]
fn handle_all_of_nothing_does_nothing() {
    let mut core = Core::new(three_timers());
    assert_eq!(core.handle_all(Vec::new(), 50), None);
    assert_eq!(phases(core.state()), vec![Phase::Reset, Phase::Reset, Phase::Reset]);
}
