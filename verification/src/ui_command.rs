use vstd::prelude::*;

verus! {

/// One intent from the UI thread to the editor. Each variant carries the
/// operands its RPC call needs. A command is created by the UI thread and
/// consumed exactly once by the command pump.
#[derive(Clone, Debug, PartialEq)]
pub enum UiCommand {
    /// New cell-grid dimensions, in cells.
    Resize { width: u64, height: u64 },
    /// A key string to inject into the editor.
    Input { keys: String },
    /// A mouse button action at a grid position.
    MouseButton { action: String, row: u64, column: u64 },
    /// A scroll in the given direction at a grid position.
    Scroll { direction: String, row: u64, column: u64 },
    /// A mouse drag to a grid position.
    Drag { row: u64, column: u64 },
}

impl UiCommand {
    /// Whether this command is a resize, the one kind the pump coalesces.
    pub open spec fn spec_is_resize(&self) -> bool {
        self is Resize
    }

    pub fn is_resize(&self) -> (r: bool)
        ensures
            r == self.spec_is_resize(),
    {
        match self {
            UiCommand::Resize { .. } => true,
            _ => false,
        }
    }
}

} // verus!
