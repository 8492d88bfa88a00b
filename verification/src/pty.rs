//! The thread that owns the terminals: what it does with each instruction, and
//! what it tells the screen.

use vstd::prelude::*;

use crate::channels::{Outlet, SendError, Trailed};
use crate::errors::{ContextType, ErrorContext, PtyContext};
use crate::file_path::FilePath;
use crate::instructions::{Completion, PtyInstruction, ScreenInstruction};

verus! {

/// Where the screen puts a terminal that was spawned.
#[derive(Clone, Copy, Debug, PartialEq, Eq, Structural)]
pub enum Placement {
    NewPane,
    VerticalSplit,
    HorizontalSplit,
    NewTab,
}

/// What to do with the terminals.
#[derive(Debug, PartialEq, Eq)]
pub enum PtyTask {
    /// Spawn a terminal, on a file or with a shell, and report it with
    /// [`report_spawned`].
    Spawn { file_to_open: Option<FilePath>, placement: Placement },
    ClosePane(i32),
    CloseTab(Vec<i32>),
    Quit,
}

/// What to do with the terminals before the first instruction.
#[derive(Debug, PartialEq, Eq)]
pub enum FirstTask<L> {
    /// Spawn the terminals of a layout.
    SpawnForLayout(L),
    Task(PtyTask),
}

/// What `instruction` asks of the terminals.
pub open spec fn pty_task(instruction: PtyInstruction) -> PtyTask {
    match instruction {
        PtyInstruction::SpawnTerminal(file_to_open) => PtyTask::Spawn {
            file_to_open,
            placement: Placement::NewPane,
        },
        PtyInstruction::SpawnTerminalVertically(file_to_open) => PtyTask::Spawn {
            file_to_open,
            placement: Placement::VerticalSplit,
        },
        PtyInstruction::SpawnTerminalHorizontally(file_to_open) => PtyTask::Spawn {
            file_to_open,
            placement: Placement::HorizontalSplit,
        },
        PtyInstruction::NewTab => PtyTask::Spawn {
            file_to_open: None,
            placement: Placement::NewTab,
        },
        PtyInstruction::ClosePane(id) => PtyTask::ClosePane(id),
        PtyInstruction::CloseTab(ids) => PtyTask::CloseTab(ids),
        PtyInstruction::Quit => PtyTask::Quit,
    }
}

/// What is to be done first: a session without a layout begins with one tab.
pub open spec fn first_task_for<L>(layout: Option<L>) -> FirstTask<L> {
    match layout {
        Some(layout) => FirstTask::SpawnForLayout(layout),
        None => FirstTask::Task(pty_task(PtyInstruction::NewTab)),
    }
}

/// What the screen is told of the terminal `pid`.
pub open spec fn placed<V, L>(placement: Placement, pid: i32) -> ScreenInstruction<V, L> {
    match placement {
        Placement::NewPane => ScreenInstruction::NewPane(pid),
        Placement::VerticalSplit => ScreenInstruction::VerticalSplit(pid),
        Placement::HorizontalSplit => ScreenInstruction::HorizontalSplit(pid),
        Placement::NewTab => ScreenInstruction::NewTab(pid),
    }
}

/// What the reader of the keyboard is told when `task` is done. A terminal that
/// was spawned is not yet an open pane.
pub open spec fn pty_completion(task: PtyTask) -> Completion {
    match task {
        PtyTask::ClosePane(_) | PtyTask::CloseTab(_) => Completion::ClosedPane,
        PtyTask::Spawn { .. } | PtyTask::Quit => Completion::Nothing,
    }
}

/// What to do with the terminals before the first instruction.
pub fn first_task<L>(layout: Option<L>) -> (task: FirstTask<L>)
    ensures
        task == first_task_for(layout),
{
    match layout {
        Some(layout) => FirstTask::SpawnForLayout(layout),
        None => FirstTask::Task(
            PtyTask::Spawn { file_to_open: None, placement: Placement::NewTab },
        ),
    }
}

/// Takes an instruction in: notes it on the trail that it came with, lets what
/// the screen is told from now on carry that trail, and says what to do.
pub fn receive<S: Trailed>(
    send_screen_instructions: &mut S,
    event: PtyInstruction,
    err_ctx: ErrorContext,
) -> (task: PtyTask)
    ensures
        task == pty_task(event),
        final(send_screen_instructions).trail()@ == crate::errors::extended(
            err_ctx@,
            ContextType::Pty(crate::errors::pty_context(event)),
        ),
        final(send_screen_instructions).target() == old(send_screen_instructions).target(),
{
    let mut err_ctx = err_ctx;
    err_ctx.add_call(ContextType::Pty(PtyContext::from(&event)));
    send_screen_instructions.retrail(err_ctx);
    match event {
        PtyInstruction::SpawnTerminal(file_to_open) => {
            PtyTask::Spawn { file_to_open, placement: Placement::NewPane }
        },
        PtyInstruction::SpawnTerminalVertically(file_to_open) => {
            PtyTask::Spawn { file_to_open, placement: Placement::VerticalSplit }
        },
        PtyInstruction::SpawnTerminalHorizontally(file_to_open) => {
            PtyTask::Spawn { file_to_open, placement: Placement::HorizontalSplit }
        },
        PtyInstruction::NewTab => {
            PtyTask::Spawn { file_to_open: None, placement: Placement::NewTab }
        },
        PtyInstruction::ClosePane(id) => PtyTask::ClosePane(id),
        PtyInstruction::CloseTab(ids) => PtyTask::CloseTab(ids),
        PtyInstruction::Quit => PtyTask::Quit,
    }
}

/// Tells the screen, once, where to put the terminal `pid`.
pub fn report_spawned<V, L, S: Outlet<ScreenInstruction<V, L>>>(
    send_screen_instructions: S,
    placement: Placement,
    pid: i32,
) -> (outcome: Result<(), SendError<(ScreenInstruction<V, L>, ErrorContext)>>)
    ensures
        send_screen_instructions.put(placed(placement, pid), outcome),
{
    let instruction = match placement {
        Placement::NewPane => ScreenInstruction::NewPane(pid),
        Placement::VerticalSplit => ScreenInstruction::VerticalSplit(pid),
        Placement::HorizontalSplit => ScreenInstruction::HorizontalSplit(pid),
        Placement::NewTab => ScreenInstruction::NewTab(pid),
    };
    send_screen_instructions.deliver(instruction)
}

impl PtyTask {
    /// What the reader of the keyboard is told when this is done.
    pub fn completion(&self) -> (completion: Completion)
        ensures
            completion == pty_completion(*self),
    {
        match self {
            PtyTask::ClosePane(_) | PtyTask::CloseTab(_) => Completion::ClosedPane,
            PtyTask::Spawn { .. } | PtyTask::Quit => Completion::Nothing,
        }
    }
}

} // verus!
