use vstd::prelude::*;

verus! {

/// Kind of graphical session the host runs in.
#[derive(Clone, Debug, PartialEq, Eq)]
pub enum SessionType {
    Wayland,
    X11,
    Tty,
    Other(String),
}

/// Desktop environment of the host.
#[derive(Clone, Debug, PartialEq, Eq)]
pub enum DEInfo {
    KDE,
    Gnome,
    Hyprland,
    Other(String),
    Unknown,
}

/// Operating system of the host; on Linux with the details that decide
/// whether key dispatch is expected to work.
#[derive(Clone, Debug, PartialEq, Eq)]
pub enum OsInfo {
    Linux { distro_name: String, desktop_environment: DEInfo, session_type: SessionType },
    Windows,
    MacOS,
    Other,
}

/// Whether key dispatch is expected to work on the host.
#[derive(Clone, Copy, Debug, PartialEq, Eq, Structural)]
pub enum Support {
    Supported,
    Unsupported,
    Unknown,
}

/// What the host is, and what that means for key dispatch.
#[derive(Clone, Debug, PartialEq, Eq)]
pub struct SysInfo {
    pub os_info: OsInfo,
    pub support: Support,
}

/// A modifier key held while a key is sent.
#[derive(Clone, Copy, Debug, PartialEq, Eq, Structural)]
pub enum ModifierKey {
    Shift,
    Ctrl,
    Alt,
    Super,
}

/// A key together with the modifiers held while it is sent.
#[derive(Clone, Debug, PartialEq, Eq)]
pub struct KeyCombo {
    pub modifiers: Vec<ModifierKey>,
    pub key: String,
}

/// One step of a macro.
#[derive(Clone, Debug, PartialEq, Eq)]
pub enum MacroAction {
    /// Wait for this many milliseconds of active (unpaused) time.
    Sleep { duration_ms: u64 },
    /// Send a key combination; `None` is a no-op placeholder.
    Key { key: Option<KeyCombo> },
    /// Reserved for a future action kind; runs as an instantaneous no-op.
    Craft,
}

/// A user-defined macro: its run identifier, its actions in order, and a
/// loop count.
///
/// The loop count is carried but not acted upon: a run walks the actions
/// once, and every progress snapshot reports loop 0.
#[derive(Clone, Debug, PartialEq, Eq)]
pub struct Macro {
    pub id: u32,
    pub actions: Vec<MacroAction>,
    pub loops: u32,
}

/// The number of progress units that make a whole action.
pub const PROGRESS_SCALE: u32 = 1000000;

/// A snapshot of where a run stands.
///
/// `action_progress` is the fraction of the current action that is done, in
/// millionths: 0 is just begun and `PROGRESS_SCALE` is complete.
#[derive(Clone, Copy, Debug, PartialEq, Eq, Structural)]
pub struct MacroProgress {
    pub action_index: u32,
    pub action_progress: u32,
    pub loop_count: u32,
}

/// What the engine reports about a run.
#[derive(Clone, Debug, PartialEq, Eq)]
pub enum MacroEvent {
    Update { id: u32, progress: MacroProgress },
    Running { id: u32, progress: MacroProgress },
    Paused { id: u32, progress: MacroProgress },
    Stopped { id: u32 },
    Error { id: u32, progress: MacroProgress, error: String },
}

impl MacroProgress {
    /// The snapshot at the beginning of action `index`.
    pub open spec fn at_start(index: int) -> MacroProgress {
        MacroProgress { action_index: index as u32, action_progress: 0, loop_count: 0 }
    }

    /// The snapshot of a finished action `index`.
    pub open spec fn at_end(index: int) -> MacroProgress {
        MacroProgress { action_index: index as u32, action_progress: PROGRESS_SCALE, loop_count: 0 }
    }

    /// The snapshot at the beginning of action `index`.
    pub fn start_of(index: u32) -> (r: MacroProgress)
        ensures
            r == MacroProgress::at_start(index as int),
    {
        MacroProgress { action_index: index, action_progress: 0, loop_count: 0 }
    }

    /// The snapshot of a finished action `index`.
    pub fn end_of(index: u32) -> (r: MacroProgress)
        ensures
            r == MacroProgress::at_end(index as int),
    {
        MacroProgress { action_index: index, action_progress: PROGRESS_SCALE, loop_count: 0 }
    }
}

} // verus!
