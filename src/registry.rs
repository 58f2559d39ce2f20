use vstd::prelude::*;
use std::collections::HashMap;
use crate::model::{Macro, MacroEvent, MacroProgress, SysInfo};
use crate::runner::RunnerInput;

verus! {

broadcast use vstd::std_specs::hash::group_hash_axioms;

/// The live control state of one run.
#[derive(Clone, Copy, Debug, PartialEq, Eq, Structural)]
pub struct MacroState {
    pub paused: bool,
    pub should_stop: bool,
    pub progress: MacroProgress,
}

/// Why a control request was refused.
#[derive(Clone, Copy, Debug, PartialEq, Eq, Structural)]
pub enum ControlError {
    /// No run with this id is active.
    NotFound { id: u32 },
    /// A run with this id is already active.
    AlreadyRunning { id: u32 },
}

impl MacroState {
    /// The control state of a run that has just been started.
    pub open spec fn fresh() -> MacroState {
        MacroState { paused: false, should_stop: false, progress: MacroProgress::at_start(0) }
    }

    /// Whether a pause/stop check has to keep waiting.
    pub fn must_wait(&self) -> (r: bool)
        ensures
            r == self.paused,
    {
        self.paused
    }

    /// What a pause/stop check reports, once it has stopped waiting, after a
    /// pause of `paused_ms` (`None` when the run was not paused).
    pub fn check_result(&self, paused_ms: Option<u64>) -> (r: RunnerInput)
        ensures
            r == (RunnerInput::Checked { should_stop: self.should_stop, paused_ms }),
    {
        RunnerInput::Checked { should_stop: self.should_stop, paused_ms }
    }
}

/// The active runs, by id.
pub struct Registry {
    runs: HashMap<u32, MacroState>,
}

impl View for Registry {
    type V = Map<u32, MacroState>;

    closed spec fn view(&self) -> Map<u32, MacroState> {
        self.runs@
    }
}

impl Registry {
    /// A registry with no runs.
    pub fn new() -> (r: Registry)
        ensures
            r@ == Map::<u32, MacroState>::empty(),
    {
        Registry { runs: HashMap::new() }
    }

    /// The control state of run `id`, if it is active.
    pub fn get(&self, id: u32) -> (r: Option<MacroState>)
        ensures
            r == if self@.contains_key(id) {
                Some(self@[id])
            } else {
                None
            },
    {
        match self.runs.get(&id) {
            Some(s) => Some(*s),
            None => None,
        }
    }

    /// Adds run `id` with control state `s`, unless a run with that id is
    /// already active; says whether it was added.
    pub fn insert(&mut self, id: u32, s: MacroState) -> (r: bool)
        ensures
            r == !old(self)@.contains_key(id),
            final(self)@ == if r {
                old(self)@.insert(id, s)
            } else {
                old(self)@
            },
    {
        if self.runs.contains_key(&id) {
            false
        } else {
            self.runs.insert(id, s);
            true
        }
    }

    /// Replaces the control state of an active run `id`.
    fn replace(&mut self, id: u32, s: MacroState)
        requires
            old(self)@.contains_key(id),
        ensures
            final(self)@ == old(self)@.insert(id, s),
    {
        self.runs.insert(id, s);
    }

    /// Removes run `id`, if it is active.
    pub fn remove(&mut self, id: u32)
        ensures
            final(self)@ == old(self)@.remove(id),
    {
        self.runs.remove(&id);
    }
}

/// The engine's shared state: a demonstration counter, what the host is, and
/// the active runs.
pub struct AppState {
    pub counter: i32,
    pub sys_info: SysInfo,
    pub running_macros: Registry,
}

impl AppState {
    /// A state with the counter at 0 and no active runs.
    pub fn new(sys_info: SysInfo) -> (r: AppState)
        ensures
            r.counter == 0,
            r.sys_info == sys_info,
            r.running_macros@ == Map::<u32, MacroState>::empty(),
    {
        AppState { counter: 0, sys_info, running_macros: Registry::new() }
    }

    /// What the host is.
    pub fn sys_info(&self) -> (r: &SysInfo)
        ensures
            *r == self.sys_info,
    {
        &self.sys_info
    }
}

/// The counter's value.
pub fn check_count(state: &AppState) -> (r: i32)
    ensures
        r == state.counter,
{
    state.counter
}

/// Adds one to the counter and returns the new value.
pub fn increment_count(state: &mut AppState) -> (r: i32)
    requires
        old(state).counter < i32::MAX,
    ensures
        r == old(state).counter + 1,
        final(state).counter == r,
        final(state).sys_info == old(state).sys_info,
        final(state).running_macros@ == old(state).running_macros@,
{
    state.counter = state.counter + 1;
    state.counter
}

/// Registers a run of `macr` with fresh control state and reports it
/// running at the start of its first action. A run whose id is already
/// active is refused and the registry is left as it was.
pub fn start_macro(state: &mut AppState, macr: &Macro) -> (r: Result<MacroEvent, ControlError>)
    ensures
        final(state).counter == old(state).counter,
        final(state).sys_info == old(state).sys_info,
        old(state).running_macros@.contains_key(macr.id) ==> r == Err::<MacroEvent, ControlError>(
            ControlError::AlreadyRunning { id: macr.id },
        ) && final(state).running_macros@ == old(state).running_macros@,
        !old(state).running_macros@.contains_key(macr.id) ==> r == Ok::<MacroEvent, ControlError>(
            MacroEvent::Running { id: macr.id, progress: MacroProgress::at_start(0) },
        ) && final(state).running_macros@ == old(state).running_macros@.insert(
            macr.id,
            MacroState::fresh(),
        ),
{
    let progress = MacroProgress::start_of(0);
    let fresh = MacroState { paused: false, should_stop: false, progress };
    if state.running_macros.insert(macr.id, fresh) {
        Ok(MacroEvent::Running { id: macr.id, progress })
    } else {
        Err(ControlError::AlreadyRunning { id: macr.id })
    }
}

/// Pauses run `id` and reports its progress as paused. An id that is not
/// active gives `NotFound` and changes nothing. No other run is touched.
pub fn pause_macro(state: &mut AppState, id: u32) -> (r: Result<MacroEvent, ControlError>)
    ensures
        final(state).counter == old(state).counter,
        final(state).sys_info == old(state).sys_info,
        final(state).running_macros@.remove(id) == old(state).running_macros@.remove(id),
        !old(state).running_macros@.contains_key(id) ==> r == Err::<MacroEvent, ControlError>(
            ControlError::NotFound { id },
        ) && final(state).running_macros@ == old(state).running_macros@,
        old(state).running_macros@.contains_key(id) ==> {
            let s = old(state).running_macros@[id];
            &&& r == Ok::<MacroEvent, ControlError>(
                MacroEvent::Paused { id, progress: s.progress },
            )
            &&& final(state).running_macros@ == old(state).running_macros@.insert(
                id,
                MacroState { paused: true, ..s },
            )
        },
{
    match state.running_macros.get(id) {
        Some(s) => {
            state.running_macros.replace(id, MacroState { paused: true, ..s });
            assert(state.running_macros@.remove(id) =~= old(state).running_macros@.remove(id));
            Ok(MacroEvent::Paused { id, progress: s.progress })
        },
        None => Err(ControlError::NotFound { id }),
    }
}

/// Resumes run `id` and reports its progress as running. An id that is not
/// active gives `NotFound` and changes nothing. No other run is touched.
pub fn resume_macro(state: &mut AppState, id: u32) -> (r: Result<MacroEvent, ControlError>)
    ensures
        final(state).counter == old(state).counter,
        final(state).sys_info == old(state).sys_info,
        final(state).running_macros@.remove(id) == old(state).running_macros@.remove(id),
        !old(state).running_macros@.contains_key(id) ==> r == Err::<MacroEvent, ControlError>(
            ControlError::NotFound { id },
        ) && final(state).running_macros@ == old(state).running_macros@,
        old(state).running_macros@.contains_key(id) ==> {
            let s = old(state).running_macros@[id];
            &&& r == Ok::<MacroEvent, ControlError>(
                MacroEvent::Running { id, progress: s.progress },
            )
            &&& final(state).running_macros@ == old(state).running_macros@.insert(
                id,
                MacroState { paused: false, ..s },
            )
        },
{
    match state.running_macros.get(id) {
        Some(s) => {
            state.running_macros.replace(id, MacroState { paused: false, ..s });
            assert(state.running_macros@.remove(id) =~= old(state).running_macros@.remove(id));
            Ok(MacroEvent::Running { id, progress: s.progress })
        },
        None => Err(ControlError::NotFound { id }),
    }
}

/// Asks run `id` to stop, lifting any pause so that the stop is seen, and
/// acknowledges the request. An id that is not active gives `NotFound` and
/// changes nothing. No other run is touched.
pub fn stop_macro(state: &mut AppState, id: u32) -> (r: Result<MacroEvent, ControlError>)
    ensures
        final(state).counter == old(state).counter,
        final(state).sys_info == old(state).sys_info,
        final(state).running_macros@.remove(id) == old(state).running_macros@.remove(id),
        !old(state).running_macros@.contains_key(id) ==> r == Err::<MacroEvent, ControlError>(
            ControlError::NotFound { id },
        ) && final(state).running_macros@ == old(state).running_macros@,
        old(state).running_macros@.contains_key(id) ==> {
            let s = old(state).running_macros@[id];
            &&& r == Ok::<MacroEvent, ControlError>(MacroEvent::Stopped { id })
            &&& final(state).running_macros@ == old(state).running_macros@.insert(
                id,
                MacroState { should_stop: true, paused: false, ..s },
            )
        },
{
    match state.running_macros.get(id) {
        Some(s) => {
            state.running_macros.replace(id, MacroState { should_stop: true, paused: false, ..s });
            assert(state.running_macros@.remove(id) =~= old(state).running_macros@.remove(id));
            Ok(MacroEvent::Stopped { id })
        },
        None => Err(ControlError::NotFound { id }),
    }
}

/// Stores `progress` as the current snapshot of run `id`, if it is active;
/// says whether it was. No other run is touched.
pub fn publish_progress(state: &mut AppState, id: u32, progress: MacroProgress) -> (r: bool)
    ensures
        r == old(state).running_macros@.contains_key(id),
        final(state).counter == old(state).counter,
        final(state).sys_info == old(state).sys_info,
        final(state).running_macros@ == if r {
            old(state).running_macros@.insert(
                id,
                MacroState { progress, ..old(state).running_macros@[id] },
            )
        } else {
            old(state).running_macros@
        },
{
    match state.running_macros.get(id) {
        Some(s) => {
            state.running_macros.replace(id, MacroState { progress, ..s });
            true
        },
        None => false,
    }
}

/// The control state of run `id`, if it is active.
pub fn control_state(state: &AppState, id: u32) -> (r: Option<MacroState>)
    ensures
        r == if state.running_macros@.contains_key(id) {
            Some(state.running_macros@[id])
        } else {
            None
        },
{
    state.running_macros.get(id)
}

/// Removes run `id` once its runner has emitted its terminal event; a later
/// control request for it then finds nothing.
pub fn finish_macro(state: &mut AppState, id: u32)
    ensures
        final(state).counter == old(state).counter,
        final(state).sys_info == old(state).sys_info,
        final(state).running_macros@ == old(state).running_macros@.remove(id),
        !final(state).running_macros@.contains_key(id),
{
    state.running_macros.remove(id);
}

} // verus!
