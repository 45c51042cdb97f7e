//! The script machine as the simulation sees it: which event is running.

use vstd::prelude::*;

verus! {

#[derive(Clone, Copy, Debug, PartialEq, Eq, Structural)]
pub enum TextScriptExecutionState {
    Ended,
    /// The event that runs and the position reached in it.
    Running(u16, u32),
}

#[derive(Clone, Copy, Debug, PartialEq, Eq, Structural)]
pub enum ScriptMode {
    MapScript,
    Inventory,
    StageSelect,
}

#[derive(Clone, Copy, Debug, PartialEq, Eq, Structural)]
pub struct TextScriptVM {
    pub state: TextScriptExecutionState,
    pub mode: ScriptMode,
    pub suspend: bool,
}

impl TextScriptVM {
    pub fn new() -> (r: TextScriptVM)
        ensures
            r == (TextScriptVM {
                state: TextScriptExecutionState::Ended,
                mode: ScriptMode::MapScript,
                suspend: true,
            }),
    {
        TextScriptVM { state: TextScriptExecutionState::Ended, mode: ScriptMode::MapScript, suspend: true }
    }

    /// Starts the event `event_num` from its beginning.
    pub fn start_script(&mut self, event_num: u16)
        ensures
            *final(self) == (TextScriptVM {
                state: TextScriptExecutionState::Running(event_num, 0),
                ..*old(self)
            }),
    {
        self.state = TextScriptExecutionState::Running(event_num, 0);
    }

    pub fn set_mode(&mut self, mode: ScriptMode)
        ensures
            *final(self) == (TextScriptVM { mode, ..*old(self) }),
    {
        self.mode = mode;
    }
}

} // verus!
