//! The messages that the threads of a session send to one another.

use vstd::prelude::*;

use crate::file_path::FilePath;

verus! {

/// What the thread that owns the terminals can be asked to do.
#[derive(Clone, Debug, PartialEq, Eq)]
pub enum PtyInstruction {
    SpawnTerminal(Option<FilePath>),
    SpawnTerminalVertically(Option<FilePath>),
    SpawnTerminalHorizontally(Option<FilePath>),
    NewTab,
    ClosePane(i32),
    CloseTab(Vec<i32>),
    Quit,
}

/// What the thread that owns the screen can be asked to do. `V` is what a
/// terminal printed and `L` a layout; both are carried, never looked into.
#[derive(Clone, Debug, PartialEq, Eq)]
pub enum ScreenInstruction<V, L> {
    Pty(i32, V),
    Render,
    NewPane(i32),
    HorizontalSplit(i32),
    VerticalSplit(i32),
    WriteCharacter(Vec<u8>),
    ResizeLeft,
    ResizeRight,
    ResizeDown,
    ResizeUp,
    MoveFocus,
    MoveFocusLeft,
    MoveFocusDown,
    MoveFocusUp,
    MoveFocusRight,
    ScrollUp,
    ScrollDown,
    ClearScroll,
    CloseFocusedPane,
    ClosePane(i32),
    ToggleActiveTerminalFullscreen,
    NewTab(i32),
    SwitchTabNext,
    SwitchTabPrev,
    CloseTab,
    ApplyLayout(L, Vec<i32>),
    Quit,
}

/// How a session is asked to end.
#[derive(Clone, Debug, PartialEq, Eq)]
pub enum AppInstruction {
    Exit,
    Error(String),
}

/// What the reader of the keyboard is told when a task is done. It waits while a
/// pane opens or closes.
#[derive(Clone, Copy, Debug, PartialEq, Eq, Structural)]
pub enum Completion {
    Nothing,
    OpenedPane,
    ClosedPane,
}

} // verus!
