//! The platform the watcher runs on, as far as the decisions depend on it.

use vstd::prelude::*;

verus! {

/// The kind of operating system the watcher runs on.
#[derive(Clone, Copy, Debug, PartialEq, Eq, Structural)]
pub enum Platform {
    /// Windows: the compiler must be told not to prompt, and failures are
    /// shown in a dialog.
    Windows,
    /// Any other system: failures go to standard error.
    Other,
}

impl Platform {
    /// Whether the compiler has to be told not to prompt.
    pub open spec fn suppresses_prompts(self) -> bool {
        self == Platform::Windows
    }

    /// Whether failures are shown in a modal dialog.
    pub open spec fn alerts_by_dialog(self) -> bool {
        self == Platform::Windows
    }

    /// Whether the compiler has to be told not to prompt.
    pub fn needs_no_prompt_flag(self) -> (b: bool)
        ensures
            b == self.suppresses_prompts(),
    {
        self == Platform::Windows
    }

    /// Whether failures are shown in a modal dialog.
    pub fn has_alert_dialog(self) -> (b: bool)
        ensures
            b == self.alerts_by_dialog(),
    {
        self == Platform::Windows
    }
}

} // verus!
