//! A macro execution engine: timed and keyed actions run step by step, with
//! live pause, resume and stop of each run by its identifier.
//!
//! The decisions of the engine (what a run does next, how control requests
//! change the registry of runs, how key combinations are spelled for the
//! dispatcher) are verified here; waiting, clocks, processes and event
//! delivery belong to the host that drives it.
//!
//! Policies: starting a run whose id is already active is refused; pause and
//! resume acknowledgements go back to the caller only, so a run's own event
//! stream holds `Update`, at most one `Error`, and one terminal `Stopped`; a
//! macro's loop count is carried but its actions run once.

mod model;
mod keys;
mod runner;
mod registry;
mod system;
mod command;

pub use model::{
    PROGRESS_SCALE, DEInfo, KeyCombo, Macro, MacroAction, MacroEvent, MacroProgress, ModifierKey, OsInfo,
    SessionType, Support, SysInfo,
};
pub use keys::{dispatch_argument, dispatch_error, dispatch_succeeded, hyprland_key_mods};
pub use runner::{
    MacroRunner, Next, Phase, RunnerInput, RunnerState, Step, COARSE_POLL_MS, FINE_POLL_MS,
    UPDATE_INTERVAL_MS,
};
pub use registry::{
    check_count, control_state, finish_macro, increment_count, pause_macro, publish_progress,
    resume_macro, start_macro, stop_macro, AppState, ControlError, MacroState, Registry,
};
pub use system::{
    desktop_environment_from, distro_name_from_lines, get_system_info, os_info_for, session_type_from,
    support_for,
};
pub use command::{split_command, CommandResult};
