use vstd::prelude::*;
use crate::keys::{
    dispatch_argument, dispatch_argument_text, dispatch_error, dispatch_error_text,
    dispatch_ok_text, dispatch_succeeded,
};
use crate::model::{Macro, MacroAction, MacroEvent, MacroProgress, PROGRESS_SCALE};

verus! {

/// Poll interval while waiting between actions, in milliseconds.
pub const COARSE_POLL_MS: u64 = 500;

/// Poll interval while a sleep action runs, in milliseconds.
pub const FINE_POLL_MS: u64 = 50;

/// Least spacing between two progress events of a sleep, in milliseconds.
pub const UPDATE_INTERVAL_MS: u64 = 25;

/// Where a run stands within its current action.
#[derive(Clone, Copy, Debug, PartialEq, Eq, Structural)]
pub enum Phase {
    /// About to begin the current action.
    Starting,
    /// Waiting for the pause/stop check made before the current action.
    AwaitStartCheck,
    /// Inside a sleep action, woken at a given time.
    Sleeping { duration_ms: u64, deadline_ms: u64 },
    /// Inside a sleep action, waiting for the pause/stop check; the progress
    /// event to emit once the check has seen no stop, if one is due.
    AwaitSleepCheck { duration_ms: u64, deadline_ms: u64, pending: Option<MacroProgress> },
    /// Waiting for the key dispatcher's answer.
    AwaitDispatch,
    /// The run is over.
    Finished,
}

/// What the host reports back after doing what the last step asked.
#[derive(Clone, Debug, PartialEq, Eq)]
pub enum RunnerInput {
    /// Nothing to report: the run was just created, or a sleep ended.
    Go,
    /// The pause/stop check ended: whether a stop was requested, and how long
    /// the run stayed paused, if it was.
    Checked { should_stop: bool, paused_ms: Option<u64> },
    /// The key dispatcher answered with this output.
    Dispatched { output: String },
}

/// What the host is to do after a step.
#[derive(Clone, Debug, PartialEq, Eq)]
pub enum Next {
    /// Wait while the run is paused, polling at this interval, then report
    /// `Checked`.
    Check { poll_ms: u64 },
    /// Sleep until this time, then report `Go`.
    SleepUntil { at_ms: u64 },
    /// Invoke the key dispatcher with this argument, then report `Dispatched`.
    Dispatch { argument: String },
    /// Emit the terminal `Stopped` event; the run is over.
    Exit,
}

/// The effects of one step: the progress to store in the run's control
/// state, the event to emit, and what to do next, in that order.
#[derive(Clone, Debug, PartialEq, Eq)]
pub struct Step {
    pub progress: Option<MacroProgress>,
    pub event: Option<MacroEvent>,
    pub next: Next,
}

/// The changing part of a run.
#[derive(Clone, Copy, Debug, PartialEq, Eq, Structural)]
pub struct RunnerState {
    /// Index of the current action.
    pub index: usize,
    pub phase: Phase,
    /// Earliest time at which the next sleep progress event may be emitted.
    pub next_update_ms: u64,
}

/// The decisions of one run of a macro, driven by the host one step at a
/// time.
pub struct MacroRunner {
    pub id: u32,
    pub actions: Vec<MacroAction>,
    pub state: RunnerState,
}

pub open spec fn sat_add(a: int, b: int) -> int {
    if a + b > u64::MAX {
        u64::MAX as int
    } else {
        a + b
    }
}

/// Progress of a sleep of `duration` ms with `remaining` ms left, in
/// millionths, clamped to the whole.
pub open spec fn sleep_progress(duration: int, remaining: int) -> int {
    if duration <= 0 || remaining >= duration {
        0
    } else if remaining <= 0 {
        PROGRESS_SCALE as int
    } else {
        (duration - remaining) * (PROGRESS_SCALE as int) / duration
    }
}

pub open spec fn input_stop(input: RunnerInput) -> bool {
    match input {
        RunnerInput::Checked { should_stop, .. } => should_stop,
        _ => false,
    }
}

/// How long the run was paused, as reported by a check.
pub open spec fn input_paused(input: RunnerInput) -> int {
    match input {
        RunnerInput::Checked { paused_ms: Some(p), .. } => p as int,
        _ => 0,
    }
}

/// The dispatcher's output; an input of another kind counts as no output.
pub open spec fn input_output(input: RunnerInput) -> Seq<char> {
    match input {
        RunnerInput::Dispatched { output } => output@,
        _ => Seq::empty(),
    }
}

/// The step ends the run, with no event of its own.
pub open spec fn ends(pre: RunnerState, post: RunnerState, r: Step) -> bool {
    &&& post == RunnerState { phase: Phase::Finished, ..pre }
    &&& r == Step { progress: None, event: None, next: Next::Exit }
}

/// The step begins action `i` (or ends the run when none is left), after
/// emitting `ev`.
pub open spec fn begins(
    actions: Seq<MacroAction>,
    i: int,
    ev: Option<MacroEvent>,
    pre: RunnerState,
    post: RunnerState,
    r: Step,
) -> bool {
    &&& post.index == i
    &&& post.next_update_ms == pre.next_update_ms
    &&& r.event == ev
    &&& if i < actions.len() {
        &&& post.phase == Phase::AwaitStartCheck
        &&& r.progress == Some(MacroProgress::at_start(i))
        &&& r.next == Next::Check { poll_ms: COARSE_POLL_MS }
    } else {
        &&& post.phase == Phase::Finished
        &&& r.progress.is_none()
        &&& r.next == Next::Exit
    }
}

/// The step of a sleep action of `duration` ms ending at `deadline`, at
/// time `now`.
pub open spec fn sleep_tick(
    id: u32,
    actions: Seq<MacroAction>,
    duration: u64,
    deadline: u64,
    now: u64,
    pre: RunnerState,
    post: RunnerState,
    r: Step,
) -> bool {
    if now >= deadline {
        begins(actions, pre.index + 1, None, pre, post, r)
    } else {
        let p = MacroProgress {
            action_index: pre.index as u32,
            action_progress: sleep_progress(duration as int, deadline - now) as u32,
            loop_count: 0,
        };
        let emit = pre.next_update_ms <= now;
        &&& post.index == pre.index
        &&& post.phase == Phase::AwaitSleepCheck {
            duration_ms: duration,
            deadline_ms: deadline,
            pending: if emit {
                Some(p)
            } else {
                None
            },
        }
        &&& post.next_update_ms == if emit {
            sat_add(now as int, UPDATE_INTERVAL_MS as int) as u64
        } else {
            pre.next_update_ms
        }
        &&& r.progress == Some(p)
        &&& r.event.is_none()
        &&& r.next == Next::Check { poll_ms: FINE_POLL_MS }
    }
}

/// One step of a run of macro `id` over `actions`: from state `pre`, at time
/// `now`, with `input` reported by the host, to state `post`, doing `r`.
pub open spec fn steps_to(
    id: u32,
    actions: Seq<MacroAction>,
    pre: RunnerState,
    now: u64,
    input: RunnerInput,
    post: RunnerState,
    r: Step,
) -> bool {
    match pre.phase {
        Phase::Starting => begins(actions, pre.index as int, None, pre, post, r),
        Phase::AwaitStartCheck => if input_stop(input) {
            ends(pre, post, r)
        } else {
            match actions[pre.index as int] {
                MacroAction::Sleep { duration_ms } => sleep_tick(
                    id,
                    actions,
                    duration_ms,
                    sat_add(now as int, duration_ms as int) as u64,
                    now,
                    pre,
                    post,
                    r,
                ),
                MacroAction::Key { key: Some(k) } => {
                    &&& post == RunnerState { phase: Phase::AwaitDispatch, ..pre }
                    &&& r.progress == Some(MacroProgress::at_start(pre.index as int))
                    &&& r.event == Some(
                        MacroEvent::Update {
                            id,
                            progress: MacroProgress::at_start(pre.index as int),
                        },
                    )
                    &&& r.next matches Next::Dispatch { argument }
                    &&& argument@ == dispatch_argument_text(k)
                },
                _ => begins(
                    actions,
                    pre.index + 1,
                    Some(
                        MacroEvent::Update {
                            id,
                            progress: MacroProgress::at_start(pre.index as int),
                        },
                    ),
                    pre,
                    post,
                    r,
                ),
            }
        },
        Phase::Sleeping { duration_ms, deadline_ms } => sleep_tick(
            id,
            actions,
            duration_ms,
            deadline_ms,
            now,
            pre,
            post,
            r,
        ),
        Phase::AwaitSleepCheck { duration_ms, deadline_ms, pending } => if input_stop(input) {
            ends(pre, post, r)
        } else {
            let dl = sat_add(deadline_ms as int, input_paused(input)) as u64;
            &&& post == RunnerState {
                phase: Phase::Sleeping { duration_ms, deadline_ms: dl },
                ..pre
            }
            &&& r.progress.is_none()
            &&& r.event == match pending {
                Some(p) => Some(MacroEvent::Update { id, progress: p }),
                None => None,
            }
            &&& r.next == Next::SleepUntil {
                at_ms: if dl <= pre.next_update_ms {
                    dl
                } else {
                    pre.next_update_ms
                },
            }
        },
        Phase::AwaitDispatch => if input matches RunnerInput::Dispatched { output }
            && dispatch_ok_text(output@) {
            begins(actions, pre.index + 1, None, pre, post, r)
        } else {
            &&& post == RunnerState { phase: Phase::Finished, ..pre }
            &&& r.progress.is_none()
            &&& r.next == Next::Exit
            &&& r.event matches Some(MacroEvent::Error { id: e, progress, error })
            &&& e == id
            &&& progress == MacroProgress::at_end(pre.index as int)
            &&& error@ == dispatch_error_text(input_output(input))
        },
        Phase::Finished => ends(pre, post, r),
    }
}

impl RunnerState {
    /// The state is consistent with a macro of `n` actions.
    pub open spec fn wf(self, n: int) -> bool {
        &&& n <= u32::MAX
        &&& self.index <= n
        &&& match self.phase {
            Phase::Starting | Phase::Finished => true,
            _ => self.index < n,
        }
        &&& self.phase matches Phase::AwaitSleepCheck { pending: Some(p), .. } ==> p.action_index
            == self.index
    }
}

impl MacroRunner {
    pub open spec fn wf(&self) -> bool {
        self.state.wf(self.actions@.len() as int)
    }

    /// A run of `macr`, about to begin its first action.
    pub fn new(macr: Macro) -> (r: MacroRunner)
        requires
            macr.actions@.len() <= u32::MAX,
        ensures
            r.wf(),
            r.id == macr.id,
            r.actions@ == macr.actions@,
            r.state == (RunnerState { index: 0, phase: Phase::Starting, next_update_ms: 0 }),
    {
        MacroRunner {
            id: macr.id,
            actions: macr.actions,
            state: RunnerState { index: 0, phase: Phase::Starting, next_update_ms: 0 },
        }
    }

    /// The terminal event of this run.
    pub fn stopped_event(&self) -> (r: MacroEvent)
        ensures
            r == (MacroEvent::Stopped { id: self.id }),
    {
        MacroEvent::Stopped { id: self.id }
    }

    /// Whether the run is over.
    pub fn is_finished(&self) -> (r: bool)
        ensures
            r == (self.state.phase == Phase::Finished),
    {
        match self.state.phase {
            Phase::Finished => true,
            _ => false,
        }
    }

    fn finish(&mut self) -> (r: Step)
        ensures
            final(self).id == old(self).id,
            final(self).actions == old(self).actions,
            ends(old(self).state, final(self).state, r),
    {
        self.state.phase = Phase::Finished;
        Step { progress: None, event: None, next: Next::Exit }
    }

    fn begin(&mut self, i: usize, ev: Option<MacroEvent>) -> (r: Step)
        requires
            i <= old(self).actions@.len() <= u32::MAX,
        ensures
            final(self).id == old(self).id,
            final(self).actions == old(self).actions,
            begins(old(self).actions@, i as int, ev, old(self).state, final(self).state, r),
    {
        self.state.index = i;
        if i < self.actions.len() {
            self.state.phase = Phase::AwaitStartCheck;
            Step {
                progress: Some(MacroProgress::start_of(i as u32)),
                event: ev,
                next: Next::Check { poll_ms: COARSE_POLL_MS },
            }
        } else {
            self.state.phase = Phase::Finished;
            Step { progress: None, event: ev, next: Next::Exit }
        }
    }

    fn sleep_step(&mut self, duration: u64, deadline: u64, now: u64) -> (r: Step)
        requires
            old(self).wf(),
            old(self).state.index < old(self).actions@.len(),
        ensures
            final(self).id == old(self).id,
            final(self).actions == old(self).actions,
            sleep_tick(
                old(self).id,
                old(self).actions@,
                duration,
                deadline,
                now,
                old(self).state,
                final(self).state,
                r,
            ),
    {
        let i = self.state.index;
        if now >= deadline {
            return self.begin(i + 1, None);
        }
        let remaining = deadline - now;
        let done: u32 = if duration == 0 || remaining >= duration {
            0
        } else {
            let diff: u64 = duration - remaining;
            assert((diff as u128) * (PROGRESS_SCALE as u128) <= u128::MAX) by (nonlinear_arith)
                requires
                    diff <= u64::MAX,
            ;
            let scaled: u128 = (diff as u128) * (PROGRESS_SCALE as u128);
            let q: u128 = scaled / (duration as u128);
            assert(q <= PROGRESS_SCALE) by (nonlinear_arith)
                requires
                    q == scaled / (duration as u128),
                    scaled == (diff as u128) * (PROGRESS_SCALE as u128),
                    diff == duration - remaining,
                    0 < remaining < duration,
            ;
            q as u32
        };
        let p = MacroProgress { action_index: i as u32, action_progress: done, loop_count: 0 };
        let emit = self.state.next_update_ms <= now;
        let pending = if emit {
            self.state.next_update_ms = now.saturating_add(UPDATE_INTERVAL_MS);
            Some(p)
        } else {
            None
        };
        self.state.phase = Phase::AwaitSleepCheck {
            duration_ms: duration,
            deadline_ms: deadline,
            pending,
        };
        Step { progress: Some(p), event: None, next: Next::Check { poll_ms: FINE_POLL_MS } }
    }

    /// One step of the run: given what the host reports and the time `now`
    /// in milliseconds, the effects to carry out and the new state.
    pub fn step(&mut self, now: u64, input: RunnerInput) -> (r: Step)
        requires
            old(self).wf(),
        ensures
            final(self).wf(),
            final(self).id == old(self).id,
            final(self).actions == old(self).actions,
            steps_to(
                old(self).id,
                old(self).actions@,
                old(self).state,
                now,
                input,
                final(self).state,
                r,
            ),
    {
        let stop = match &input {
            RunnerInput::Checked { should_stop, .. } => *should_stop,
            _ => false,
        };
        match self.state.phase {
            Phase::Starting => {
                let i = self.state.index;
                self.begin(i, None)
            },
            Phase::AwaitStartCheck => {
                if stop {
                    return self.finish();
                }
                let i = self.state.index;
                match &self.actions[i] {
                    MacroAction::Sleep { duration_ms } => {
                        let d = *duration_ms;
                        self.sleep_step(d, now.saturating_add(d), now)
                    },
                    MacroAction::Key { key: Some(k) } => {
                        let argument = dispatch_argument(k);
                        let p = MacroProgress::start_of(i as u32);
                        self.state.phase = Phase::AwaitDispatch;
                        Step {
                            progress: Some(p),
                            event: Some(MacroEvent::Update { id: self.id, progress: p }),
                            next: Next::Dispatch { argument },
                        }
                    },
                    _ => {
                        let ev = MacroEvent::Update {
                            id: self.id,
                            progress: MacroProgress::start_of(i as u32),
                        };
                        self.begin(i + 1, Some(ev))
                    },
                }
            },
            Phase::Sleeping { duration_ms, deadline_ms } => {
                self.sleep_step(duration_ms, deadline_ms, now)
            },
            Phase::AwaitSleepCheck { duration_ms, deadline_ms, pending } => {
                if stop {
                    return self.finish();
                }
                let paused: u64 = match &input {
                    RunnerInput::Checked { paused_ms: Some(p), .. } => *p,
                    _ => 0,
                };
                let dl = deadline_ms.saturating_add(paused);
                self.state.phase = Phase::Sleeping { duration_ms, deadline_ms: dl };
                let at = if dl <= self.state.next_update_ms {
                    dl
                } else {
                    self.state.next_update_ms
                };
                let event = match pending {
                    Some(p) => Some(MacroEvent::Update { id: self.id, progress: p }),
                    None => None,
                };
                Step { progress: None, event, next: Next::SleepUntil { at_ms: at } }
            },
            Phase::AwaitDispatch => {
                let i = self.state.index;
                match &input {
                    RunnerInput::Dispatched { output } => {
                        if dispatch_succeeded(output.as_str()) {
                            return self.begin(i + 1, None);
                        }
                        let error = dispatch_error(output.as_str());
                        self.state.phase = Phase::Finished;
                        Step {
                            progress: None,
                            event: Some(
                                MacroEvent::Error {
                                    id: self.id,
                                    progress: MacroProgress::end_of(i as u32),
                                    error,
                                },
                            ),
                            next: Next::Exit,
                        }
                    },
                    _ => {
                        let none = String::new();
                        let error = dispatch_error(none.as_str());
                        self.state.phase = Phase::Finished;
                        Step {
                            progress: None,
                            event: Some(
                                MacroEvent::Error {
                                    id: self.id,
                                    progress: MacroProgress::end_of(i as u32),
                                    error,
                                },
                            ),
                            next: Next::Exit,
                        }
                    },
                }
            },
            Phase::Finished => self.finish(),
        }
    }
}

/// A run never returns to an earlier action and moves on by at most one
/// action per step; every progress event names the action it was emitted
/// in, which is one of the macro's actions, and every stored snapshot names
/// the action the run is now at.
pub proof fn lemma_progress_in_order(
    id: u32,
    actions: Seq<MacroAction>,
    pre: RunnerState,
    now: u64,
    input: RunnerInput,
    post: RunnerState,
    r: Step,
)
    requires
        pre.wf(actions.len() as int),
        steps_to(id, actions, pre, now, input, post, r),
    ensures
        pre.index <= post.index <= pre.index + 1,
        post.index <= actions.len(),
        r.event matches Some(MacroEvent::Update { id: e, progress }) ==> e == id
            && progress.action_index == pre.index && pre.index < actions.len(),
        r.progress matches Some(p) ==> p.action_index == post.index && post.index
            < actions.len(),
{
}

/// A step asks the host to exit exactly when it leaves the run finished,
/// and a finished run stays finished: every later step only asks to exit
/// again, with no progress and no event.
pub proof fn lemma_exit_is_terminal(
    id: u32,
    actions: Seq<MacroAction>,
    pre: RunnerState,
    now: u64,
    input: RunnerInput,
    post: RunnerState,
    r: Step,
)
    requires
        pre.wf(actions.len() as int),
        steps_to(id, actions, pre, now, input, post, r),
    ensures
        (r.next == Next::Exit) == (post.phase == Phase::Finished),
        pre.phase == Phase::Finished ==> post.phase == Phase::Finished && r.next == Next::Exit
            && r.event.is_none() && r.progress.is_none(),
{
}

/// A stop request seen by a check ends the run at that step, with no
/// further progress and no event before the terminal one; a progress event
/// is emitted only by the step that receives a check which saw no stop; and
/// every check polls at the coarse interval at most, at the fine one inside
/// a sleep.
pub proof fn lemma_stop_ends_run(
    id: u32,
    actions: Seq<MacroAction>,
    pre: RunnerState,
    now: u64,
    input: RunnerInput,
    post: RunnerState,
    r: Step,
)
    requires
        pre.wf(actions.len() as int),
        steps_to(id, actions, pre, now, input, post, r),
    ensures
        (pre.phase == Phase::AwaitStartCheck || pre.phase is AwaitSleepCheck) && input_stop(
            input,
        ) ==> post.phase == Phase::Finished && r == (Step {
            progress: None,
            event: None,
            next: Next::Exit,
        }),
        r.event matches Some(MacroEvent::Update { .. }) ==> (pre.phase == Phase::AwaitStartCheck
            || pre.phase is AwaitSleepCheck) && !input_stop(input),
        r.next matches Next::Check { poll_ms } ==> poll_ms <= COARSE_POLL_MS && (
        post.phase is AwaitSleepCheck ==> poll_ms == FINE_POLL_MS),
{
}

/// A sleep of `d` ms (`d > 0`) that begins at `now` is due at `now + d`.
pub proof fn lemma_sleep_deadline_set(
    id: u32,
    actions: Seq<MacroAction>,
    pre: RunnerState,
    now: u64,
    input: RunnerInput,
    post: RunnerState,
    r: Step,
    d: u64,
)
    requires
        pre.wf(actions.len() as int),
        steps_to(id, actions, pre, now, input, post, r),
        pre.phase == Phase::AwaitStartCheck,
        !input_stop(input),
        actions[pre.index as int] == (MacroAction::Sleep { duration_ms: d }),
        d > 0,
        now + d <= u64::MAX,
    ensures
        post.phase matches Phase::AwaitSleepCheck { duration_ms, deadline_ms, .. } && duration_ms
            == d && deadline_ms == now + d,
{
}

/// A pause reported inside a sleep pushes its deadline back by the paused
/// time, so paused time does not count towards the sleep; the run then
/// sleeps no later than that deadline, nor than the time its next progress
/// event is due.
pub proof fn lemma_pause_extends_sleep(
    id: u32,
    actions: Seq<MacroAction>,
    pre: RunnerState,
    now: u64,
    input: RunnerInput,
    post: RunnerState,
    r: Step,
    d: u64,
    deadline: u64,
)
    requires
        pre.wf(actions.len() as int),
        steps_to(id, actions, pre, now, input, post, r),
        pre.phase matches Phase::AwaitSleepCheck { duration_ms, deadline_ms, .. } && duration_ms
            == d && deadline_ms == deadline,
        !input_stop(input),
        deadline + input_paused(input) <= u64::MAX,
    ensures
        post.phase == (Phase::Sleeping {
            duration_ms: d,
            deadline_ms: (deadline + input_paused(input)) as u64,
        }),
        post.index == pre.index,
        r.next matches Next::SleepUntil { at_ms } && at_ms <= deadline + input_paused(input)
            && at_ms <= pre.next_update_ms,
{
}

/// A run leaves a sleep only once its deadline has passed; before that it
/// stays on the sleep, and its snapshot never reports the sleep complete.
pub proof fn lemma_sleep_ends_at_deadline(
    id: u32,
    actions: Seq<MacroAction>,
    pre: RunnerState,
    now: u64,
    input: RunnerInput,
    post: RunnerState,
    r: Step,
    d: u64,
    deadline: u64,
)
    requires
        pre.wf(actions.len() as int),
        steps_to(id, actions, pre, now, input, post, r),
        pre.phase == (Phase::Sleeping { duration_ms: d, deadline_ms: deadline }),
    ensures
        post.index > pre.index ==> now >= deadline,
        now < deadline ==> post.index == pre.index && (r.progress matches Some(p)
            && p.action_progress < PROGRESS_SCALE),
{
    if now < deadline {
        let rem = deadline - now;
        if d > 0 && rem < d {
            assert((d - rem) * (PROGRESS_SCALE as int) / (d as int) < PROGRESS_SCALE) by (nonlinear_arith)
                requires
                    0 < rem < d,
            ;
        }
    }
}

} // verus!
