use reset_trampoline::machine::Action;
use reset_trampoline::machine::Event;
use reset_trampoline::machine::LogEvent;
use reset_trampoline::machine::Phase;
use reset_trampoline::machine::Trampoline;
use reset_trampoline::runner::BootEnv;
use reset_trampoline::runner::Collaborators;
use reset_trampoline::runner::run_from_reset;

struct CountingStubs {
    init_calls: u32,
    app_calls: u32,
}

impl Collaborators for CountingStubs {
    fn system_init(&mut self) {
        self.init_calls += 1;
    }

    fn app_main(&mut self) {
        self.app_calls += 1;
    }
}

#[test]
fn fresh_machine_starts_in_reset_with_empty_log() {
    let t = Trampoline::new();
    assert_eq!(t.phase, Phase::Reset);
    assert_eq!(t.init_requests, 0);
    assert_eq!(t.app_requests, 0);
    assert!(t.log.is_empty());
}

#[test]
fn happy_sequence_emits_the_three_actions_in_order() {
    let mut t = Trampoline::new();
    assert_eq!(t.step(Event::PowerOn), Some(Action::CallInit));
    assert_eq!(t.phase, Phase::RuntimeInit);
    assert_eq!(t.step(Event::InitReturned), Some(Action::CallApp));
    assert_eq!(t.phase, Phase::AppRunning);
    assert_eq!(t.step(Event::AppReturned), Some(Action::Spin));
    assert_eq!(t.phase, Phase::Trap);
}

#[test]
fn log_shows_init_done_strictly_before_app_start() {
    let mut t = Trampoline::new();
    t.step(Event::PowerOn);
    t.step(Event::InitReturned);
    let done = t
        .log
        .iter()
        .position(|e| *e == LogEvent::InitDone)
        .expect("initializer completion must be logged");
    let started = t
        .log
        .iter()
        .position(|e| *e == LogEvent::AppCalled)
        .expect("application start must be logged");
    assert!(done < started);
}

#[test]
fn each_collaborator_is_invoked_exactly_once() {
    let mut t = Trampoline::new();
    let mut env = BootEnv { stack_valid: true, static_region: vec![0, 0, 0, 0] };
    let mut stubs = CountingStubs { init_calls: 0, app_calls: 0 };
    run_from_reset(&mut t, &mut env, &mut stubs, 3);
    assert_eq!(stubs.init_calls, 1);
    assert_eq!(stubs.app_calls, 1);
    assert_eq!(t.init_requests, 1);
    assert_eq!(t.app_requests, 1);
}

#[test]
fn app_return_enters_trap_and_nothing_runs_after_it() {
    let mut t = Trampoline::new();
    t.step(Event::PowerOn);
    t.step(Event::InitReturned);
    assert_eq!(t.step(Event::AppReturned), Some(Action::Spin));
    assert_eq!(t.phase, Phase::Trap);
    assert_eq!(*t.log.last().unwrap(), LogEvent::TrapEntered);
    let frozen_log = t.log.clone();
    for _ in 0..64 {
        assert_eq!(t.step(Event::Tick), Some(Action::Spin));
        assert_eq!(t.phase, Phase::Trap);
        assert_eq!(t.log, frozen_log);
    }
}

#[test]
fn precondition_region_is_left_untouched() {
    let sentinel: Vec<u8> = vec![0x5a, 0xa5, 0x00, 0xff, 0x42];
    let mut t = Trampoline::new();
    let mut env = BootEnv { stack_valid: true, static_region: sentinel.clone() };
    let mut stubs = CountingStubs { init_calls: 0, app_calls: 0 };
    run_from_reset(&mut t, &mut env, &mut stubs, 8);
    assert_eq!(env.static_region, sentinel);
    assert!(env.stack_valid);
}

#[test]
fn trap_tick_is_a_fixed_point_of_the_whole_state() {
    let mut t = Trampoline::new();
    t.step(Event::PowerOn);
    t.step(Event::InitReturned);
    t.step(Event::AppReturned);
    let snapshot = t.clone();
    for _ in 0..32 {
        t.step(Event::Tick);
        assert_eq!(t, snapshot);
    }
}

#[test]
fn unexpected_events_are_ignored_without_state_change() {
    let mut t = Trampoline::new();
    assert_eq!(t.step(Event::Tick), None);
    assert_eq!(t.step(Event::InitReturned), None);
    assert_eq!(t.step(Event::AppReturned), None);
    assert_eq!(t.phase, Phase::Reset);
    assert!(t.log.is_empty());

    t.step(Event::PowerOn);
    assert_eq!(t.step(Event::PowerOn), None);
    assert_eq!(t.step(Event::AppReturned), None);
    assert_eq!(t.phase, Phase::RuntimeInit);
    assert_eq!(t.log.len(), 1);
}

#[test]
fn full_log_after_violation_is_the_five_event_history() {
    let mut t = Trampoline::new();
    let mut env = BootEnv { stack_valid: true, static_region: Vec::new() };
    let mut stubs = CountingStubs { init_calls: 0, app_calls: 0 };
    run_from_reset(&mut t, &mut env, &mut stubs, 0);
    assert_eq!(
        t.log,
        vec![
            LogEvent::InitCalled,
            LogEvent::InitDone,
            LogEvent::AppCalled,
            LogEvent::AppReturned,
            LogEvent::TrapEntered,
        ]
    );
}
