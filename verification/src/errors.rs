//! Where a message has been: the trail that travels with it from thread to thread.

use vstd::prelude::*;

use crate::instructions::{AppInstruction, PtyInstruction, ScreenInstruction};

verus! {

/// How many calls a trail keeps.
pub const MAX_THREAD_CALL_STACK: usize = 6;

/// The kind of an [`AppInstruction`].
#[derive(Clone, Copy, Debug, PartialEq, Eq, Structural)]
pub enum AppContext {
    Exit,
    Error,
}

/// The kind of a [`PtyInstruction`].
#[derive(Clone, Copy, Debug, PartialEq, Eq, Structural)]
pub enum PtyContext {
    SpawnTerminal,
    SpawnTerminalVertically,
    SpawnTerminalHorizontally,
    NewTab,
    ClosePane,
    CloseTab,
    Quit,
}

/// The kind of a [`ScreenInstruction`].
#[derive(Clone, Copy, Debug, PartialEq, Eq, Structural)]
pub enum ScreenContext {
    Pty,
    Render,
    NewPane,
    HorizontalSplit,
    VerticalSplit,
    WriteCharacter,
    ResizeLeft,
    ResizeRight,
    ResizeDown,
    ResizeUp,
    MoveFocus,
    MoveFocusLeft,
    MoveFocusDown,
    MoveFocusUp,
    MoveFocusRight,
    ScrollUp,
    ScrollDown,
    ClearScroll,
    CloseFocusedPane,
    ClosePane,
    ToggleActiveTerminalFullscreen,
    NewTab,
    SwitchTabNext,
    SwitchTabPrev,
    CloseTab,
    ApplyLayout,
    Quit,
}

/// One call on a trail: which thread handled a message, and of what kind it was.
#[derive(Clone, Copy, Debug, PartialEq, Eq, Structural)]
pub enum ContextType {
    Screen(ScreenContext),
    Pty(PtyContext),
    App(AppContext),
    IPCServer,
}

/// The kind of `instruction`.
pub open spec fn app_context(instruction: AppInstruction) -> AppContext {
    match instruction {
        AppInstruction::Exit => AppContext::Exit,
        AppInstruction::Error(_) => AppContext::Error,
    }
}

/// The kind of `instruction`.
pub open spec fn pty_context(instruction: PtyInstruction) -> PtyContext {
    match instruction {
        PtyInstruction::SpawnTerminal(_) => PtyContext::SpawnTerminal,
        PtyInstruction::SpawnTerminalVertically(_) => PtyContext::SpawnTerminalVertically,
        PtyInstruction::SpawnTerminalHorizontally(_) => PtyContext::SpawnTerminalHorizontally,
        PtyInstruction::NewTab => PtyContext::NewTab,
        PtyInstruction::ClosePane(_) => PtyContext::ClosePane,
        PtyInstruction::CloseTab(_) => PtyContext::CloseTab,
        PtyInstruction::Quit => PtyContext::Quit,
    }
}

/// The kind of `instruction`.
pub open spec fn screen_context<V, L>(instruction: ScreenInstruction<V, L>) -> ScreenContext {
    match instruction {
        ScreenInstruction::Pty(_, _) => ScreenContext::Pty,
        ScreenInstruction::Render => ScreenContext::Render,
        ScreenInstruction::NewPane(_) => ScreenContext::NewPane,
        ScreenInstruction::HorizontalSplit(_) => ScreenContext::HorizontalSplit,
        ScreenInstruction::VerticalSplit(_) => ScreenContext::VerticalSplit,
        ScreenInstruction::WriteCharacter(_) => ScreenContext::WriteCharacter,
        ScreenInstruction::ResizeLeft => ScreenContext::ResizeLeft,
        ScreenInstruction::ResizeRight => ScreenContext::ResizeRight,
        ScreenInstruction::ResizeDown => ScreenContext::ResizeDown,
        ScreenInstruction::ResizeUp => ScreenContext::ResizeUp,
        ScreenInstruction::MoveFocus => ScreenContext::MoveFocus,
        ScreenInstruction::MoveFocusLeft => ScreenContext::MoveFocusLeft,
        ScreenInstruction::MoveFocusDown => ScreenContext::MoveFocusDown,
        ScreenInstruction::MoveFocusUp => ScreenContext::MoveFocusUp,
        ScreenInstruction::MoveFocusRight => ScreenContext::MoveFocusRight,
        ScreenInstruction::ScrollUp => ScreenContext::ScrollUp,
        ScreenInstruction::ScrollDown => ScreenContext::ScrollDown,
        ScreenInstruction::ClearScroll => ScreenContext::ClearScroll,
        ScreenInstruction::CloseFocusedPane => ScreenContext::CloseFocusedPane,
        ScreenInstruction::ClosePane(_) => ScreenContext::ClosePane,
        ScreenInstruction::ToggleActiveTerminalFullscreen =>
            ScreenContext::ToggleActiveTerminalFullscreen,
        ScreenInstruction::NewTab(_) => ScreenContext::NewTab,
        ScreenInstruction::SwitchTabNext => ScreenContext::SwitchTabNext,
        ScreenInstruction::SwitchTabPrev => ScreenContext::SwitchTabPrev,
        ScreenInstruction::CloseTab => ScreenContext::CloseTab,
        ScreenInstruction::ApplyLayout(_, _) => ScreenContext::ApplyLayout,
        ScreenInstruction::Quit => ScreenContext::Quit,
    }
}

impl AppContext {
    /// The kind of `instruction`.
    pub fn from(instruction: &AppInstruction) -> (context: AppContext)
        ensures
            context == app_context(*instruction),
    {
        match instruction {
            AppInstruction::Exit => AppContext::Exit,
            AppInstruction::Error(_) => AppContext::Error,
        }
    }
}

impl PtyContext {
    /// The kind of `instruction`.
    pub fn from(instruction: &PtyInstruction) -> (context: PtyContext)
        ensures
            context == pty_context(*instruction),
    {
        match instruction {
            PtyInstruction::SpawnTerminal(_) => PtyContext::SpawnTerminal,
            PtyInstruction::SpawnTerminalVertically(_) => PtyContext::SpawnTerminalVertically,
            PtyInstruction::SpawnTerminalHorizontally(_) => PtyContext::SpawnTerminalHorizontally,
            PtyInstruction::NewTab => PtyContext::NewTab,
            PtyInstruction::ClosePane(_) => PtyContext::ClosePane,
            PtyInstruction::CloseTab(_) => PtyContext::CloseTab,
            PtyInstruction::Quit => PtyContext::Quit,
        }
    }
}

impl ScreenContext {
    /// The kind of `instruction`.
    pub fn from<V, L>(instruction: &ScreenInstruction<V, L>) -> (context: ScreenContext)
        ensures
            context == screen_context(*instruction),
    {
        match instruction {
            ScreenInstruction::Pty(_, _) => ScreenContext::Pty,
            ScreenInstruction::Render => ScreenContext::Render,
            ScreenInstruction::NewPane(_) => ScreenContext::NewPane,
            ScreenInstruction::HorizontalSplit(_) => ScreenContext::HorizontalSplit,
            ScreenInstruction::VerticalSplit(_) => ScreenContext::VerticalSplit,
            ScreenInstruction::WriteCharacter(_) => ScreenContext::WriteCharacter,
            ScreenInstruction::ResizeLeft => ScreenContext::ResizeLeft,
            ScreenInstruction::ResizeRight => ScreenContext::ResizeRight,
            ScreenInstruction::ResizeDown => ScreenContext::ResizeDown,
            ScreenInstruction::ResizeUp => ScreenContext::ResizeUp,
            ScreenInstruction::MoveFocus => ScreenContext::MoveFocus,
            ScreenInstruction::MoveFocusLeft => ScreenContext::MoveFocusLeft,
            ScreenInstruction::MoveFocusDown => ScreenContext::MoveFocusDown,
            ScreenInstruction::MoveFocusUp => ScreenContext::MoveFocusUp,
            ScreenInstruction::MoveFocusRight => ScreenContext::MoveFocusRight,
            ScreenInstruction::ScrollUp => ScreenContext::ScrollUp,
            ScreenInstruction::ScrollDown => ScreenContext::ScrollDown,
            ScreenInstruction::ClearScroll => ScreenContext::ClearScroll,
            ScreenInstruction::CloseFocusedPane => ScreenContext::CloseFocusedPane,
            ScreenInstruction::ClosePane(_) => ScreenContext::ClosePane,
            ScreenInstruction::ToggleActiveTerminalFullscreen =>
                ScreenContext::ToggleActiveTerminalFullscreen,
            ScreenInstruction::NewTab(_) => ScreenContext::NewTab,
            ScreenInstruction::SwitchTabNext => ScreenContext::SwitchTabNext,
            ScreenInstruction::SwitchTabPrev => ScreenContext::SwitchTabPrev,
            ScreenInstruction::CloseTab => ScreenContext::CloseTab,
            ScreenInstruction::ApplyLayout(_, _) => ScreenContext::ApplyLayout,
            ScreenInstruction::Quit => ScreenContext::Quit,
        }
    }
}

/// The trail of the calls that led to a message, oldest first. It keeps the
/// first [`MAX_THREAD_CALL_STACK`] of them.
#[derive(Clone, Copy, Debug)]
pub struct ErrorContext {
    calls: [ContextType; MAX_THREAD_CALL_STACK],
    len: usize,
}

/// `trail` after one more `call`: a full trail stays as it is.
pub open spec fn extended(trail: Seq<ContextType>, call: ContextType) -> Seq<ContextType> {
    if trail.len() < MAX_THREAD_CALL_STACK {
        trail.push(call)
    } else {
        trail
    }
}

impl View for ErrorContext {
    type V = Seq<ContextType>;

    closed spec fn view(&self) -> Seq<ContextType> {
        self.calls@.subrange(0, self.len as int)
    }
}

impl ErrorContext {
    #[verifier::type_invariant]
    spec fn within_capacity(self) -> bool {
        self.len <= MAX_THREAD_CALL_STACK
    }

    /// The empty trail.
    pub fn new() -> (context: ErrorContext)
        ensures
            context@ == Seq::<ContextType>::empty(),
    {
        let unused: ContextType = ContextType::IPCServer;
        ErrorContext { calls: [unused, unused, unused, unused, unused, unused], len: 0 }
    }

    /// Puts `call` at the end of the trail, where there is room for it.
    pub fn add_call(&mut self, call: ContextType)
        ensures
            final(self)@ == extended(old(self)@, call),
            final(self)@.len() <= MAX_THREAD_CALL_STACK,
    {
        proof {
            use_type_invariant(&*self);
        }
        if self.len < MAX_THREAD_CALL_STACK {
            let mut calls = self.calls;
            calls[self.len] = call;
            *self = ErrorContext { calls, len: self.len + 1 };
        }
    }

    /// The calls on the trail, oldest first.
    pub fn calls(&self) -> (calls: Vec<ContextType>)
        ensures
            calls@ == self@,
    {
        proof {
            use_type_invariant(self);
        }
        let mut calls: Vec<ContextType> = Vec::new();
        let mut next: usize = 0;
        while next < self.len
            invariant
                next <= self.len <= MAX_THREAD_CALL_STACK,
                calls@ == self.calls@.subrange(0, next as int),
            decreases self.len - next,
        {
            calls.push(self.calls[next]);
            next = next + 1;
        }
        calls
    }
}

} // verus!
