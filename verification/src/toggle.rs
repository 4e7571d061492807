//! The two-state toggle and the menu label derived from it.

use vstd::prelude::*;

verus! {

/// Whether the keep-awake process is running, as seen through the slot.
#[derive(Clone, Copy, Debug, PartialEq, Eq, Structural)]
pub enum ToggleState {
    /// No process is held.
    Disabled,
    /// A process is held.
    Enabled,
}

/// The text of the toggle entry in the menu: it names what a click would do.
#[derive(Clone, Copy, Debug, PartialEq, Eq, Structural)]
pub enum MenuLabel {
    /// Shown while nothing runs.
    Enable,
    /// Shown while the process runs.
    Disable,
}

/// The label that belongs to a toggle state.
pub open spec fn label_for(state: ToggleState) -> MenuLabel {
    match state {
        ToggleState::Enabled => MenuLabel::Disable,
        ToggleState::Disabled => MenuLabel::Enable,
    }
}

/// The characters a label is drawn with.
pub open spec fn text_of(label: MenuLabel) -> Seq<char> {
    match label {
        MenuLabel::Enable => "Enable"@,
        MenuLabel::Disable => "Disable"@,
    }
}

impl ToggleState {
    /// The label to show in this state.
    pub fn label(self) -> (label: MenuLabel)
        ensures
            label == label_for(self),
    {
        match self {
            ToggleState::Enabled => MenuLabel::Disable,
            ToggleState::Disabled => MenuLabel::Enable,
        }
    }
}

impl MenuLabel {
    /// The text to draw for this label.
    pub fn text(self) -> (text: &'static str)
        ensures
            text@ == text_of(self),
    {
        match self {
            MenuLabel::Enable => "Enable",
            MenuLabel::Disable => "Disable",
        }
    }
}

/// The two labels never read the same, so the label tells the state.
pub proof fn label_tells_state(a: ToggleState, b: ToggleState)
    ensures
        text_of(label_for(a)) == text_of(label_for(b)) <==> a == b,
{
    reveal_strlit("Enable");
    reveal_strlit("Disable");
    assert("Enable"@.len() != "Disable"@.len());
}

} // verus!
