use macro_engine::{
    control_state, finish_macro, pause_macro, publish_progress, resume_macro, start_macro,
    stop_macro, AppState, ControlError, KeyCombo, Macro, MacroAction, MacroEvent, MacroProgress,
    MacroRunner, ModifierKey, Next, OsInfo, RunnerInput, Support, SysInfo,
};

const SCALE: u32 = 1_000_000;

fn sys() -> SysInfo {
    SysInfo { os_info: OsInfo::Other, support: Support::Unknown }
}

#[derive(Clone, Copy)]
enum Op {
    Pause(u32),
    Resume(u32),
    Stop(u32),
}

/// A host on a simulated clock: control requests fire at their times, the
/// dispatcher answers with `dispatcher_output`.
struct Sim {
    now: u64,
    app: AppState,
    ops: Vec<(u64, Op)>,
    events: Vec<(u64, MacroEvent)>,
    dispatched: Vec<String>,
    dispatcher_output: String,
}

impl Sim {
    fn new(ops: Vec<(u64, Op)>) -> Sim {
        Sim {
            now: 0,
            app: AppState::new(sys()),
            ops,
            events: Vec::new(),
            dispatched: Vec::new(),
            dispatcher_output: "ok\n".to_string(),
        }
    }

    fn apply_due(&mut self) {
        let now = self.now;
        let (due, later): (Vec<(u64, Op)>, Vec<(u64, Op)>) =
            self.ops.iter().partition(|(t, _)| *t <= now);
        self.ops = later;
        for (_, op) in due {
            let _ = match op {
                Op::Pause(id) => pause_macro(&mut self.app, id),
                Op::Resume(id) => resume_macro(&mut self.app, id),
                Op::Stop(id) => stop_macro(&mut self.app, id),
            };
        }
    }

    fn run(&mut self, macr: Macro) {
        let id = macr.id;
        start_macro(&mut self.app, &macr).unwrap();
        let mut runner = MacroRunner::new(macr);
        let mut input = RunnerInput::Go;
        for _ in 0..100_000 {
            self.apply_due();
            let step = runner.step(self.now, input.clone());
            if let Some(p) = step.progress {
                assert!(publish_progress(&mut self.app, id, p));
            }
            if let Some(ev) = step.event {
                self.events.push((self.now, ev));
            }
            input = match step.next {
                Next::Check { poll_ms } => {
                    let st = control_state(&self.app, id).unwrap();
                    if st.must_wait() {
                        let start = self.now;
                        loop {
                            self.now += poll_ms;
                            self.apply_due();
                            if !control_state(&self.app, id).unwrap().must_wait() {
                                break;
                            }
                        }
                        let st = control_state(&self.app, id).unwrap();
                        st.check_result(Some(self.now - start))
                    } else {
                        st.check_result(None)
                    }
                }
                Next::SleepUntil { at_ms } => {
                    self.now = self.now.max(at_ms);
                    RunnerInput::Go
                }
                Next::Dispatch { argument } => {
                    self.dispatched.push(argument);
                    RunnerInput::Dispatched { output: self.dispatcher_output.clone() }
                }
                Next::Exit => {
                    self.events.push((self.now, runner.stopped_event()));
                    finish_macro(&mut self.app, id);
                    return;
                }
            };
        }
        panic!("run did not end");
    }
}

fn updates(events: &[(u64, MacroEvent)]) -> Vec<(u64, MacroProgress)> {
    events
        .iter()
        .filter_map(|(t, e)| match e {
            MacroEvent::Update { progress, .. } => Some((*t, *progress)),
            _ => None,
        })
        .collect()
}

fn stopped_count(events: &[(u64, MacroEvent)]) -> usize {
    events.iter().filter(|(_, e)| matches!(e, MacroEvent::Stopped { .. })).count()
}

#[test]
fn key_mods_join_in_order() {
    let mods = vec![ModifierKey::Shift, ModifierKey::Ctrl, ModifierKey::Alt, ModifierKey::Super];
    assert_eq!(macro_engine::hyprland_key_mods(&mods), "SHIFT_CTRL_ALT_SUPER");
    assert_eq!(macro_engine::hyprland_key_mods(&vec![ModifierKey::Super]), "SUPER");
    assert_eq!(macro_engine::hyprland_key_mods(&vec![]), "");
}

#[test]
fn dispatch_argument_format() {
    let k = KeyCombo { modifiers: vec![ModifierKey::Ctrl, ModifierKey::Alt], key: "T".to_string() };
    assert_eq!(macro_engine::dispatch_argument(&k), "CTRL_ALT,T,");
    let k = KeyCombo { modifiers: vec![], key: "a".to_string() };
    assert_eq!(macro_engine::dispatch_argument(&k), ",a,");
}

#[test]
fn dispatcher_answer() {
    assert!(macro_engine::dispatch_succeeded(" ok \n"));
    assert!(!macro_engine::dispatch_succeeded("OK"));
    assert!(!macro_engine::dispatch_succeeded("error: no such window"));
    assert_eq!(macro_engine::dispatch_error("  bad\n"), "Hyprland dispatcher error: bad");
}

#[test]
fn plain_run_visits_every_action_once_and_stops_once() {
    let macr = Macro {
        id: 3,
        actions: vec![
            MacroAction::Sleep { duration_ms: 60 },
            MacroAction::Craft,
            MacroAction::Key { key: None },
            MacroAction::Sleep { duration_ms: 30 },
        ],
        loops: 1,
    };
    let mut sim = Sim::new(vec![]);
    sim.run(macr);
    assert_eq!(stopped_count(&sim.events), 1);
    assert!(matches!(sim.events.last().unwrap().1, MacroEvent::Stopped { id: 3 }));
    let ups = updates(&sim.events);
    let idx: Vec<u32> = ups.iter().map(|(_, p)| p.action_index).collect();
    assert!(idx.windows(2).all(|w| w[0] <= w[1]));
    for i in 0..4 {
        assert!(idx.contains(&i));
    }
    assert!(idx.iter().all(|i| *i < 4));
    assert_eq!(sim.now, 90);
    assert!(control_state(&sim.app, 3).is_none());
}

#[test]
fn empty_macro_only_stops() {
    let mut sim = Sim::new(vec![]);
    sim.run(Macro { id: 9, actions: vec![], loops: 0 });
    assert_eq!(sim.events.len(), 1);
    assert!(matches!(sim.events[0].1, MacroEvent::Stopped { id: 9 }));
}

#[test]
fn sleep_progress_values() {
    let mut sim = Sim::new(vec![]);
    sim.run(Macro { id: 1, actions: vec![MacroAction::Sleep { duration_ms: 500 }], loops: 1 });
    let ups = updates(&sim.events);
    assert_eq!(ups[0], (0, MacroProgress { action_index: 0, action_progress: 0, loop_count: 0 }));
    let at_250 = ups.iter().find(|(t, _)| *t == 250).unwrap().1;
    assert_eq!(at_250.action_progress, 500_000);
    let at_100 = ups.iter().find(|(t, _)| *t == 100).unwrap().1;
    assert_eq!(at_100.action_progress, 200_000);
    assert!(ups.iter().all(|(_, p)| p.action_progress < SCALE));
    // throttled to one event per 25 ms
    assert!(ups.windows(2).all(|w| w[1].0 >= w[0].0 + 25));
    assert_eq!(sim.events.last().unwrap().0, 500);
}

#[test]
fn pause_during_sleep_delays_completion() {
    let macr = Macro {
        id: 1,
        actions: vec![MacroAction::Sleep { duration_ms: 500 }, MacroAction::Key { key: None }],
        loops: 1,
    };
    let mut sim = Sim::new(vec![(100, Op::Pause(1)), (600, Op::Resume(1))]);
    sim.run(macr);
    let ups = updates(&sim.events);
    let sleep_ups: Vec<_> = ups.iter().filter(|(_, p)| p.action_index == 0).collect();
    assert!(sleep_ups.iter().all(|(t, _)| *t < 1000));
    assert!(sleep_ups.windows(2).all(|w| w[0].1.action_progress <= w[1].1.action_progress));
    // no progress while paused
    assert!(!sleep_ups.iter().any(|(t, _)| *t > 100 && *t < 600));
    let key_up = ups.iter().find(|(_, p)| p.action_index == 1).unwrap();
    assert!(key_up.0 >= 1000);
    assert_eq!(key_up.1.action_progress, 0);
    let n = sim.events.len();
    assert!(matches!(sim.events[n - 2].1, MacroEvent::Update { id: 1, .. }));
    assert!(matches!(sim.events[n - 1].1, MacroEvent::Stopped { id: 1 }));
    assert_eq!(sim.events[n - 1].0, key_up.0);
}

#[test]
fn stop_mid_sleep_ends_run() {
    let macr = Macro {
        id: 1,
        actions: vec![MacroAction::Sleep { duration_ms: 500 }, MacroAction::Key { key: None }],
        loops: 1,
    };
    let mut sim = Sim::new(vec![(210, Op::Stop(1))]);
    sim.run(macr);
    let after: Vec<_> = sim.events.iter().filter(|(t, _)| *t >= 210).collect();
    assert_eq!(after.len(), 1);
    assert!(matches!(after[0].1, MacroEvent::Stopped { id: 1 }));
    assert!(after[0].0 <= 210 + 50);
    assert_eq!(stopped_count(&sim.events), 1);
}

#[test]
fn stop_while_paused_is_not_blocked() {
    let macr = Macro { id: 4, actions: vec![MacroAction::Sleep { duration_ms: 500 }], loops: 1 };
    let mut sim = Sim::new(vec![(100, Op::Pause(4)), (300, Op::Stop(4))]);
    sim.run(macr);
    let last = sim.events.last().unwrap();
    assert!(matches!(last.1, MacroEvent::Stopped { id: 4 }));
    assert!(last.0 <= 300 + 50);
}

#[test]
fn dispatch_failure_reports_error_then_stops() {
    let macr = Macro {
        id: 7,
        actions: vec![
            MacroAction::Key {
                key: Some(KeyCombo { modifiers: vec![ModifierKey::Shift], key: "a".to_string() }),
            },
            MacroAction::Craft,
        ],
        loops: 1,
    };
    let mut sim = Sim::new(vec![]);
    sim.dispatcher_output = "no window\n".to_string();
    sim.run(macr);
    assert_eq!(sim.dispatched, vec!["SHIFT,a,".to_string()]);
    let n = sim.events.len();
    assert_eq!(
        sim.events[n - 2].1,
        MacroEvent::Error {
            id: 7,
            progress: MacroProgress { action_index: 0, action_progress: SCALE, loop_count: 0 },
            error: "Hyprland dispatcher error: no window".to_string(),
        }
    );
    assert_eq!(sim.events[n - 1].1, MacroEvent::Stopped { id: 7 });
    assert!(updates(&sim.events).iter().all(|(_, p)| p.action_index == 0));
}

#[test]
fn dispatch_success_moves_on() {
    let macr = Macro {
        id: 8,
        actions: vec![
            MacroAction::Key { key: Some(KeyCombo { modifiers: vec![], key: "b".to_string() }) },
            MacroAction::Craft,
        ],
        loops: 1,
    };
    let mut sim = Sim::new(vec![]);
    sim.run(macr);
    let idx: Vec<u32> = updates(&sim.events).iter().map(|(_, p)| p.action_index).collect();
    assert_eq!(idx, vec![0, 1]);
    assert_eq!(stopped_count(&sim.events), 1);
}

#[test]
fn control_of_unknown_id_is_not_found() {
    let mut app = AppState::new(sys());
    let m = Macro { id: 1, actions: vec![], loops: 1 };
    start_macro(&mut app, &m).unwrap();
    pause_macro(&mut app, 1).unwrap();
    assert_eq!(pause_macro(&mut app, 2), Err(ControlError::NotFound { id: 2 }));
    assert_eq!(resume_macro(&mut app, 2), Err(ControlError::NotFound { id: 2 }));
    assert_eq!(stop_macro(&mut app, 2), Err(ControlError::NotFound { id: 2 }));
    let st = control_state(&app, 1).unwrap();
    assert!(st.paused);
    assert!(!st.should_stop);
    finish_macro(&mut app, 1);
    assert_eq!(stop_macro(&mut app, 1), Err(ControlError::NotFound { id: 1 }));
}

#[test]
fn control_requests_report_progress() {
    let mut app = AppState::new(sys());
    let m = Macro { id: 5, actions: vec![MacroAction::Craft], loops: 1 };
    let zero = MacroProgress { action_index: 0, action_progress: 0, loop_count: 0 };
    assert_eq!(start_macro(&mut app, &m), Ok(MacroEvent::Running { id: 5, progress: zero }));
    assert_eq!(start_macro(&mut app, &m), Err(ControlError::AlreadyRunning { id: 5 }));
    let p = MacroProgress { action_index: 2, action_progress: 300, loop_count: 0 };
    assert!(publish_progress(&mut app, 5, p));
    assert_eq!(pause_macro(&mut app, 5), Ok(MacroEvent::Paused { id: 5, progress: p }));
    assert_eq!(resume_macro(&mut app, 5), Ok(MacroEvent::Running { id: 5, progress: p }));
    pause_macro(&mut app, 5).unwrap();
    assert_eq!(stop_macro(&mut app, 5), Ok(MacroEvent::Stopped { id: 5 }));
    let st = control_state(&app, 5).unwrap();
    assert!(st.should_stop);
    assert!(!st.paused);
}

#[test]
fn pausing_one_run_leaves_another_running() {
    let mut sim = Sim::new(vec![]);
    let other = Macro { id: 1, actions: vec![MacroAction::Sleep { duration_ms: 500 }], loops: 1 };
    start_macro(&mut sim.app, &other).unwrap();
    pause_macro(&mut sim.app, 1).unwrap();
    let before = control_state(&sim.app, 1).unwrap();
    sim.run(Macro { id: 2, actions: vec![MacroAction::Sleep { duration_ms: 100 }], loops: 1 });
    assert_eq!(sim.events.last().unwrap(), &(100, MacroEvent::Stopped { id: 2 }));
    assert_eq!(control_state(&sim.app, 1).unwrap(), before);
}

#[test]
fn counter_counts() {
    let mut app = AppState::new(sys());
    assert_eq!(macro_engine::check_count(&app), 0);
    assert_eq!(macro_engine::increment_count(&mut app), 1);
    assert_eq!(macro_engine::increment_count(&mut app), 2);
    assert_eq!(macro_engine::check_count(&app), 2);
}
