//! The thread that owns the screen: what it does with each instruction.

use vstd::prelude::*;

use crate::channels::Trailed;
use crate::errors::{ContextType, ErrorContext, ScreenContext};
use crate::instructions::{Completion, ScreenInstruction};

verus! {

/// What to do with the tab that is shown.
#[derive(Debug, PartialEq, Eq)]
pub enum TabTask<V> {
    HandlePtyEvent(i32, V),
    NewPane(i32),
    HorizontalSplit(i32),
    VerticalSplit(i32),
    WriteToActiveTerminal(Vec<u8>),
    ResizeLeft,
    ResizeRight,
    ResizeDown,
    ResizeUp,
    MoveFocus,
    MoveFocusLeft,
    MoveFocusDown,
    MoveFocusUp,
    MoveFocusRight,
    ScrollActiveTerminalUp,
    ScrollActiveTerminalDown,
    ClearActiveTerminalScroll,
    CloseFocusedPane,
    ClosePane(i32),
    ToggleActiveTerminalFullscreen,
}

/// What to do with the screen.
#[derive(Debug, PartialEq, Eq)]
pub enum ScreenTask<V, L> {
    /// Something for the tab that is shown: there has to be one.
    ActiveTab(TabTask<V>),
    Render,
    NewTab(i32),
    SwitchTabNext,
    SwitchTabPrev,
    CloseTab,
    ApplyLayout(L, Vec<i32>),
    Quit,
}

/// What to do with the screen, and what follows when it is done.
#[derive(Debug, PartialEq, Eq)]
pub struct ScreenStep<V, L> {
    pub task: ScreenTask<V, L>,
    /// Whether to render the screen afterwards.
    pub render: bool,
    pub completion: Completion,
}

/// What `instruction` asks of the tab that is shown, if that is what it is for.
pub open spec fn tab_task<V, L>(instruction: ScreenInstruction<V, L>) -> Option<TabTask<V>> {
    match instruction {
        ScreenInstruction::Pty(pid, vte_event) => Some(TabTask::HandlePtyEvent(pid, vte_event)),
        ScreenInstruction::NewPane(pid) => Some(TabTask::NewPane(pid)),
        ScreenInstruction::HorizontalSplit(pid) => Some(TabTask::HorizontalSplit(pid)),
        ScreenInstruction::VerticalSplit(pid) => Some(TabTask::VerticalSplit(pid)),
        ScreenInstruction::WriteCharacter(bytes) => Some(TabTask::WriteToActiveTerminal(bytes)),
        ScreenInstruction::ResizeLeft => Some(TabTask::ResizeLeft),
        ScreenInstruction::ResizeRight => Some(TabTask::ResizeRight),
        ScreenInstruction::ResizeDown => Some(TabTask::ResizeDown),
        ScreenInstruction::ResizeUp => Some(TabTask::ResizeUp),
        ScreenInstruction::MoveFocus => Some(TabTask::MoveFocus),
        ScreenInstruction::MoveFocusLeft => Some(TabTask::MoveFocusLeft),
        ScreenInstruction::MoveFocusDown => Some(TabTask::MoveFocusDown),
        ScreenInstruction::MoveFocusUp => Some(TabTask::MoveFocusUp),
        ScreenInstruction::MoveFocusRight => Some(TabTask::MoveFocusRight),
        ScreenInstruction::ScrollUp => Some(TabTask::ScrollActiveTerminalUp),
        ScreenInstruction::ScrollDown => Some(TabTask::ScrollActiveTerminalDown),
        ScreenInstruction::ClearScroll => Some(TabTask::ClearActiveTerminalScroll),
        ScreenInstruction::CloseFocusedPane => Some(TabTask::CloseFocusedPane),
        ScreenInstruction::ClosePane(id) => Some(TabTask::ClosePane(id)),
        ScreenInstruction::ToggleActiveTerminalFullscreen => Some(
            TabTask::ToggleActiveTerminalFullscreen,
        ),
        _ => None,
    }
}

/// What `instruction` asks of the screen.
pub open spec fn screen_task<V, L>(instruction: ScreenInstruction<V, L>) -> ScreenTask<V, L> {
    match tab_task(instruction) {
        Some(task) => ScreenTask::ActiveTab(task),
        None => match instruction {
            ScreenInstruction::NewTab(pane_id) => ScreenTask::NewTab(pane_id),
            ScreenInstruction::SwitchTabNext => ScreenTask::SwitchTabNext,
            ScreenInstruction::SwitchTabPrev => ScreenTask::SwitchTabPrev,
            ScreenInstruction::CloseTab => ScreenTask::CloseTab,
            ScreenInstruction::ApplyLayout(layout, pids) => ScreenTask::ApplyLayout(layout, pids),
            ScreenInstruction::Quit => ScreenTask::Quit,
            _ => ScreenTask::Render,
        },
    }
}

/// Whether the screen is rendered after `instruction`: closing a pane shows at once.
pub open spec fn renders_after<V, L>(instruction: ScreenInstruction<V, L>) -> bool {
    instruction is CloseFocusedPane || instruction is ClosePane
}

/// Whether `instruction` brings a pane that somebody may be waiting for.
pub open spec fn opens_pane<V, L>(instruction: ScreenInstruction<V, L>) -> bool {
    ||| instruction is NewPane
    ||| instruction is HorizontalSplit
    ||| instruction is VerticalSplit
    ||| instruction is NewTab
}

/// What is done on `instruction`, and what follows.
pub open spec fn screen_step<V, L>(instruction: ScreenInstruction<V, L>) -> ScreenStep<V, L> {
    ScreenStep {
        task: screen_task(instruction),
        render: renders_after(instruction),
        completion: if opens_pane(instruction) {
            Completion::OpenedPane
        } else {
            Completion::Nothing
        },
    }
}

/// A step with nothing to follow.
fn only<V, L>(task: ScreenTask<V, L>) -> (step: ScreenStep<V, L>)
    ensures
        step == (ScreenStep { task, render: false, completion: Completion::Nothing }),
{
    ScreenStep { task, render: false, completion: Completion::Nothing }
}

/// A step that opens a pane.
fn opening<V, L>(task: ScreenTask<V, L>) -> (step: ScreenStep<V, L>)
    ensures
        step == (ScreenStep { task, render: false, completion: Completion::OpenedPane }),
{
    ScreenStep { task, render: false, completion: Completion::OpenedPane }
}

/// A step after which the screen is rendered.
fn then_render<V, L>(task: ScreenTask<V, L>) -> (step: ScreenStep<V, L>)
    ensures
        step == (ScreenStep { task, render: true, completion: Completion::Nothing }),
{
    ScreenStep { task, render: true, completion: Completion::Nothing }
}

/// Takes an instruction in: notes it on the trail that it came with, lets what
/// the other threads are told from now on carry that trail, and says what to do.
pub fn receive<V, L, A: Trailed, P: Trailed>(
    send_app_instructions: &mut A,
    send_pty_instructions: &mut P,
    event: ScreenInstruction<V, L>,
    err_ctx: ErrorContext,
) -> (step: ScreenStep<V, L>)
    ensures
        step == screen_step(event),
        final(send_app_instructions).trail()@ == crate::errors::extended(
            err_ctx@,
            ContextType::Screen(crate::errors::screen_context(event)),
        ),
        final(send_app_instructions).target() == old(send_app_instructions).target(),
        final(send_pty_instructions).trail() == final(send_app_instructions).trail(),
        final(send_pty_instructions).target() == old(send_pty_instructions).target(),
{
    let mut err_ctx = err_ctx;
    err_ctx.add_call(ContextType::Screen(ScreenContext::from(&event)));
    send_app_instructions.retrail(err_ctx);
    send_pty_instructions.retrail(err_ctx);
    match event {
        ScreenInstruction::Pty(pid, vte_event) => {
            only(ScreenTask::ActiveTab(TabTask::HandlePtyEvent(pid, vte_event)))
        },
        ScreenInstruction::Render => only(ScreenTask::Render),
        ScreenInstruction::NewPane(pid) => opening(ScreenTask::ActiveTab(TabTask::NewPane(pid))),
        ScreenInstruction::HorizontalSplit(pid) => {
            opening(ScreenTask::ActiveTab(TabTask::HorizontalSplit(pid)))
        },
        ScreenInstruction::VerticalSplit(pid) => {
            opening(ScreenTask::ActiveTab(TabTask::VerticalSplit(pid)))
        },
        ScreenInstruction::WriteCharacter(bytes) => {
            only(ScreenTask::ActiveTab(TabTask::WriteToActiveTerminal(bytes)))
        },
        ScreenInstruction::ResizeLeft => only(ScreenTask::ActiveTab(TabTask::ResizeLeft)),
        ScreenInstruction::ResizeRight => only(ScreenTask::ActiveTab(TabTask::ResizeRight)),
        ScreenInstruction::ResizeDown => only(ScreenTask::ActiveTab(TabTask::ResizeDown)),
        ScreenInstruction::ResizeUp => only(ScreenTask::ActiveTab(TabTask::ResizeUp)),
        ScreenInstruction::MoveFocus => only(ScreenTask::ActiveTab(TabTask::MoveFocus)),
        ScreenInstruction::MoveFocusLeft => only(ScreenTask::ActiveTab(TabTask::MoveFocusLeft)),
        ScreenInstruction::MoveFocusDown => only(ScreenTask::ActiveTab(TabTask::MoveFocusDown)),
        ScreenInstruction::MoveFocusUp => only(ScreenTask::ActiveTab(TabTask::MoveFocusUp)),
        ScreenInstruction::MoveFocusRight => only(ScreenTask::ActiveTab(TabTask::MoveFocusRight)),
        ScreenInstruction::ScrollUp => only(ScreenTask::ActiveTab(TabTask::ScrollActiveTerminalUp)),
        ScreenInstruction::ScrollDown => {
            only(ScreenTask::ActiveTab(TabTask::ScrollActiveTerminalDown))
        },
        ScreenInstruction::ClearScroll => {
            only(ScreenTask::ActiveTab(TabTask::ClearActiveTerminalScroll))
        },
        ScreenInstruction::CloseFocusedPane => {
            then_render(ScreenTask::ActiveTab(TabTask::CloseFocusedPane))
        },
        ScreenInstruction::ClosePane(id) => {
            then_render(ScreenTask::ActiveTab(TabTask::ClosePane(id)))
        },
        ScreenInstruction::ToggleActiveTerminalFullscreen => {
            only(ScreenTask::ActiveTab(TabTask::ToggleActiveTerminalFullscreen))
        },
        ScreenInstruction::NewTab(pane_id) => opening(ScreenTask::NewTab(pane_id)),
        ScreenInstruction::SwitchTabNext => only(ScreenTask::SwitchTabNext),
        ScreenInstruction::SwitchTabPrev => only(ScreenTask::SwitchTabPrev),
        ScreenInstruction::CloseTab => only(ScreenTask::CloseTab),
        ScreenInstruction::ApplyLayout(layout, new_pane_pids) => {
            only(ScreenTask::ApplyLayout(layout, new_pane_pids))
        },
        ScreenInstruction::Quit => only(ScreenTask::Quit),
    }
}

} // verus!
