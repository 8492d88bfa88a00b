//! What holds of each instruction, from where it is given to what is done.

use vstd::prelude::*;

use crate::channels::{Outlet, SendError, SenderWithContext};
use crate::errors::ErrorContext;
use crate::file_path::FilePath;
use crate::instructions::{AppInstruction, Completion, PtyInstruction, ScreenInstruction};
use crate::ipc::ApiCommand;
use crate::ipc_server::{Other, Request, Switchboard, Unserved};
use crate::opts::{Invocation, Opt};
use crate::pty::{FirstTask, PtyTask};
use crate::screen::{ScreenTask, TabTask};

verus! {

/// A file to open is passed on to the running session, whatever its path, exactly
/// where no direction to split in is given and the focus is not to be moved.
pub proof fn law_file_to_open_is_passed_on(opts: Opt, path: FilePath)
    ensures
        crate::opts::invocation_of(opts) == Invocation::Ask(ApiCommand::OpenFile(path)) <==> {
            &&& opts.split is None
            &&& !opts.move_focus
            &&& opts.open_file == Some(path)
        },
{
}

/// A split is asked for exactly where its direction is given, and the focus is moved
/// exactly where that is asked for and no direction is given.
pub proof fn law_split_and_focus_are_passed_on(opts: Opt)
    ensures
        crate::opts::invocation_of(opts) == Invocation::Ask(ApiCommand::SplitHorizontally)
            <==> opts.split == Some('h'),
        crate::opts::invocation_of(opts) == Invocation::Ask(ApiCommand::SplitVertically)
            <==> opts.split == Some('v'),
        crate::opts::invocation_of(opts) == Invocation::Ask(ApiCommand::MoveFocus) <==> opts.split
            is None && opts.move_focus,
{
}

/// Nothing is done exactly where a direction is given that is neither `h` nor `v`.
pub proof fn law_only_unknown_directions_do_nothing(opts: Opt)
    ensures
        crate::opts::invocation_of(opts) is Nothing <==> {
            &&& opts.split is Some
            &&& opts.split != Some('h')
            &&& opts.split != Some('v')
        },
{
}

/// Each command that comes in over the socket asks for one thing, and the path of a
/// file to open is asked for as it came.
pub proof fn law_each_command_has_its_request<V, L>(command: ApiCommand, path: FilePath)
    ensures
        crate::ipc_server::request_for::<V, L>(command) == Request::<V, L>::Pty(
            PtyInstruction::SpawnTerminal(Some(path)),
        ) <==> command == ApiCommand::OpenFile(path),
        crate::ipc_server::request_for::<V, L>(command) == Request::<V, L>::Pty(
            PtyInstruction::SpawnTerminalHorizontally(None),
        ) <==> command is SplitHorizontally,
        crate::ipc_server::request_for::<V, L>(command) == Request::<V, L>::Pty(
            PtyInstruction::SpawnTerminalVertically(None),
        ) <==> command is SplitVertically,
        crate::ipc_server::request_for::<V, L>(command) == Request::<V, L>::Screen(
            ScreenInstruction::MoveFocus,
        ) <==> command is MoveFocus,
{
}

/// A request goes to one thread. That thread's outlet took it, and with that is used
/// up; the outlet of the other is handed back, and so was not used.
pub proof fn law_one_message_to_one_thread<
    V,
    L,
    P: Outlet<PtyInstruction>,
    S: Outlet<ScreenInstruction<V, L>>,
>(
    pty: P,
    screen: S,
    request: Request<V, L>,
    outcome: Result<(), Unserved<V, L>>,
    rest: Other<P, S>,
)
    requires
        (pty, screen).asked(request, outcome),
        (pty, screen).left_alone(request, rest),
    ensures
        request matches Request::Pty(instruction) ==> {
            &&& rest matches Other::Screen(spared) && spared.outlet() == screen
            &&& exists|sent: Result<(), SendError<(PtyInstruction, ErrorContext)>>|
                #[trigger] pty.put(instruction, sent) && (sent is Ok <==> outcome is Ok)
            &&& outcome matches Err(unserved) ==> unserved is Pty
        },
        request matches Request::Screen(instruction) ==> {
            &&& rest matches Other::Pty(spared) && spared.outlet() == pty
            &&& exists|sent: Result<(), SendError<(ScreenInstruction<V, L>, ErrorContext)>>|
                #[trigger] screen.put(instruction, sent) && (sent is Ok <==> outcome is Ok)
            &&& outcome matches Err(unserved) ==> unserved is Screen
        },
{
    match (request, outcome) {
        (Request::Pty(instruction), Ok(done)) => {
            let sent = Ok::<(), SendError<(PtyInstruction, ErrorContext)>>(done);
            assert(pty.put(instruction, sent));
        },
        (Request::Pty(instruction), Err(Unserved::Pty(refused))) => {
            let sent = Err::<(), SendError<(PtyInstruction, ErrorContext)>>(refused);
            assert(pty.put(instruction, sent));
        },
        (Request::Screen(instruction), Ok(done)) => {
            let sent = Ok::<(), SendError<(ScreenInstruction<V, L>, ErrorContext)>>(done);
            assert(screen.put(instruction, sent));
        },
        (Request::Screen(instruction), Err(Unserved::Screen(refused))) => {
            let sent = Err::<(), SendError<(ScreenInstruction<V, L>, ErrorContext)>>(refused);
            assert(screen.put(instruction, sent));
        },
        _ => {},
    }
}

/// What goes through a sender goes to its channel with its trail, and comes back so
/// where nobody is there to receive it.
pub proof fn law_sender_passes_the_event_and_its_trail<T>(
    sender: &SenderWithContext<T>,
    event: T,
    outcome: Result<(), SendError<(T, ErrorContext)>>,
)
    requires
        sender.put(event, outcome),
    ensures
        sender.channel().took((event, sender.context()), outcome),
        outcome matches Err(refused) ==> refused.0.0 == event && refused.0.1 == sender.context(),
{
}

/// Between two senders, a request goes to the channel of the thread that it is for,
/// with the trail of that sender. The session is told that it went through exactly
/// where that channel took it; otherwise it gets the instruction and the trail back.
pub proof fn law_request_goes_to_the_right_channel<V, L>(
    pty: &SenderWithContext<PtyInstruction>,
    screen: &SenderWithContext<ScreenInstruction<V, L>>,
    request: Request<V, L>,
    outcome: Result<(), Unserved<V, L>>,
)
    requires
        (pty, screen).asked(request, outcome),
    ensures
        match (request, outcome) {
            (Request::Pty(instruction), Ok(done)) => pty.channel().took(
                (instruction, pty.context()),
                Ok(done),
            ),
            (Request::Pty(instruction), Err(Unserved::Pty(refused))) => {
                &&& pty.channel().took((instruction, pty.context()), Err(refused))
                &&& refused.0 == (instruction, pty.context())
            },
            (Request::Screen(instruction), Ok(done)) => screen.channel().took(
                (instruction, screen.context()),
                Ok(done),
            ),
            (Request::Screen(instruction), Err(Unserved::Screen(refused))) => {
                &&& screen.channel().took((instruction, screen.context()), Err(refused))
                &&& refused.0 == (instruction, screen.context())
            },
            _ => false,
        },
{
}

/// How the screen learns of a terminal depends on the instruction alone, whatever the
/// file and whatever the terminal: a terminal comes in a pane of its own, beside
/// another or below another, or in a new tab, as it was asked for.
pub proof fn law_terminals_are_announced_as_asked<V, L>(instruction: PtyInstruction, pid: i32)
    ensures
        announces(instruction, pid, ScreenInstruction::<V, L>::NewPane(pid)) <==> instruction
            is SpawnTerminal,
        announces(instruction, pid, ScreenInstruction::<V, L>::VerticalSplit(pid))
            <==> instruction is SpawnTerminalVertically,
        announces(instruction, pid, ScreenInstruction::<V, L>::HorizontalSplit(pid))
            <==> instruction is SpawnTerminalHorizontally,
        announces(instruction, pid, ScreenInstruction::<V, L>::NewTab(pid)) <==> instruction
            is NewTab,
{
}

/// A terminal is spawned on `instruction`, and as `pid` is announced by `told`.
pub open spec fn announces<V, L>(
    instruction: PtyInstruction,
    pid: i32,
    told: ScreenInstruction<V, L>,
) -> bool {
    crate::pty::pty_task(instruction) matches PtyTask::Spawn { placement, .. }
        && crate::pty::placed::<V, L>(placement, pid) == told
}

/// A terminal is spawned on the file that was asked for, or on none where none was.
pub proof fn law_terminals_open_the_file_asked_for(instruction: PtyInstruction)
    ensures
        ({
            let task = crate::pty::pty_task(instruction);
            &&& instruction matches PtyInstruction::SpawnTerminal(file) ==> task->file_to_open
                == file
            &&& instruction matches PtyInstruction::SpawnTerminalVertically(file)
                ==> task->file_to_open == file
            &&& instruction matches PtyInstruction::SpawnTerminalHorizontally(file)
                ==> task->file_to_open == file
            &&& instruction is NewTab ==> task->file_to_open is None
        }),
{
}

/// The panes that are closed are those that were to be closed.
pub proof fn law_panes_are_closed_as_asked(instruction: PtyInstruction, id: i32, ids: Vec<i32>)
    ensures
        crate::pty::pty_task(instruction) == PtyTask::ClosePane(id) <==> instruction
            == PtyInstruction::ClosePane(id),
        crate::pty::pty_task(instruction) == PtyTask::CloseTab(ids) <==> instruction
            == PtyInstruction::CloseTab(ids),
{
}

/// A session begins with the layout that is given or, without one, with a tab that
/// holds a terminal on no file.
pub proof fn law_session_begins_as_asked<V, L>(layout: Option<L>, pid: i32)
    ensures
        layout matches Some(given) ==> crate::pty::first_task_for(layout)
            == FirstTask::SpawnForLayout(given),
        layout is None ==> {
            &&& crate::pty::first_task_for(layout) matches FirstTask::Task(
                PtyTask::Spawn { file_to_open, placement },
            )
            &&& file_to_open is None
            &&& crate::pty::placed::<V, L>(placement, pid) == ScreenInstruction::<V, L>::NewTab(pid)
        },
{
}

/// What is done on `instruction` is `task`, on the tab that is shown.
pub open spec fn asks_of_tab<V, L>(
    instruction: ScreenInstruction<V, L>,
    task: TabTask<V>,
) -> bool {
    crate::screen::screen_step(instruction).task == ScreenTask::<V, L>::ActiveTab(task)
}

/// Whatever is typed reaches the active terminal, all of it and nothing else.
pub proof fn law_typed_bytes_reach_the_terminal<V, L>(
    instruction: ScreenInstruction<V, L>,
    bytes: Vec<u8>,
)
    ensures
        asks_of_tab(instruction, TabTask::WriteToActiveTerminal(bytes)) <==> instruction
            == ScreenInstruction::<V, L>::WriteCharacter(bytes),
{
}

/// Whatever a terminal prints is handled as that terminal's, unchanged.
pub proof fn law_printed_output_reaches_the_tab<V, L>(
    instruction: ScreenInstruction<V, L>,
    pid: i32,
    event: V,
)
    ensures
        asks_of_tab(instruction, TabTask::HandlePtyEvent(pid, event)) <==> instruction
            == ScreenInstruction::<V, L>::Pty(pid, event),
{
}

/// A pane is placed or closed in the tab that is shown exactly where that pane is
/// named, and a tab is opened exactly for the pane that is named.
pub proof fn law_named_panes_are_placed_and_closed<V, L>(
    instruction: ScreenInstruction<V, L>,
    pid: i32,
)
    ensures
        asks_of_tab(instruction, TabTask::NewPane(pid)) <==> instruction == ScreenInstruction::<
            V,
            L,
        >::NewPane(pid),
        asks_of_tab(instruction, TabTask::HorizontalSplit(pid)) <==> instruction == ScreenInstruction::<
            V,
            L,
        >::HorizontalSplit(pid),
        asks_of_tab(instruction, TabTask::VerticalSplit(pid)) <==> instruction == ScreenInstruction::<
            V,
            L,
        >::VerticalSplit(pid),
        asks_of_tab(instruction, TabTask::ClosePane(pid)) <==> instruction == ScreenInstruction::<
            V,
            L,
        >::ClosePane(pid),
        crate::screen::screen_step(instruction).task == ScreenTask::<V, L>::NewTab(pid)
            <==> instruction == ScreenInstruction::<V, L>::NewTab(pid),
{
}

/// The tab that is shown is resized, scrolled and so on, and its focus moved, in the
/// way that was asked for, and only where it was.
pub proof fn law_tab_is_handled_as_asked<V, L>(instruction: ScreenInstruction<V, L>)
    ensures
        asks_of_tab(instruction, TabTask::ResizeLeft) <==> instruction is ResizeLeft,
        asks_of_tab(instruction, TabTask::ResizeRight) <==> instruction is ResizeRight,
        asks_of_tab(instruction, TabTask::ResizeDown) <==> instruction is ResizeDown,
        asks_of_tab(instruction, TabTask::ResizeUp) <==> instruction is ResizeUp,
        asks_of_tab(instruction, TabTask::MoveFocus) <==> instruction is MoveFocus,
        asks_of_tab(instruction, TabTask::MoveFocusLeft) <==> instruction is MoveFocusLeft,
        asks_of_tab(instruction, TabTask::MoveFocusDown) <==> instruction is MoveFocusDown,
        asks_of_tab(instruction, TabTask::MoveFocusUp) <==> instruction is MoveFocusUp,
        asks_of_tab(instruction, TabTask::MoveFocusRight) <==> instruction is MoveFocusRight,
        asks_of_tab(instruction, TabTask::ScrollActiveTerminalUp) <==> instruction is ScrollUp,
        asks_of_tab(instruction, TabTask::ScrollActiveTerminalDown) <==> instruction is ScrollDown,
        asks_of_tab(instruction, TabTask::ClearActiveTerminalScroll) <==> instruction is ClearScroll,
        asks_of_tab(instruction, TabTask::CloseFocusedPane) <==> instruction is CloseFocusedPane,
        asks_of_tab(instruction, TabTask::ToggleActiveTerminalFullscreen) <==> instruction is ToggleActiveTerminalFullscreen,
{
}

/// The screen is rendered, its tabs switched or closed, and its thread ended, exactly
/// where that was asked for.
pub proof fn law_screen_is_handled_as_asked<V, L>(instruction: ScreenInstruction<V, L>)
    ensures
        crate::screen::screen_step(instruction).task is Render <==> instruction is Render,
        crate::screen::screen_step(instruction).task is SwitchTabNext <==> instruction is SwitchTabNext,
        crate::screen::screen_step(instruction).task is SwitchTabPrev <==> instruction is SwitchTabPrev,
        crate::screen::screen_step(instruction).task is CloseTab <==> instruction is CloseTab,
        crate::screen::screen_step(instruction).task is Quit <==> instruction is Quit,
{
}

/// A layout is applied as it is given, to the terminals that were spawned for it.
pub proof fn law_layout_is_applied_as_given<V, L>(
    instruction: ScreenInstruction<V, L>,
    layout: L,
    pids: Vec<i32>,
)
    ensures
        crate::screen::screen_step(instruction).task == ScreenTask::<V, L>::ApplyLayout(
            layout,
            pids,
        ) <==> instruction == ScreenInstruction::<V, L>::ApplyLayout(layout, pids),
{
}

/// The screen is rendered afterwards exactly where a pane was closed, and never
/// reports that a pane was closed: that is for the terminals to report.
pub proof fn law_closing_a_pane_shows_at_once<V, L>(instruction: ScreenInstruction<V, L>)
    ensures
        crate::screen::screen_step(instruction).render <==> instruction is CloseFocusedPane
            || instruction is ClosePane,
        crate::screen::screen_step(instruction).completion != Completion::ClosedPane,
{
}

/// A call on a trail names the kind of the instruction to the terminals.
pub proof fn law_kinds_of_terminal_instructions(instruction: PtyInstruction)
    ensures
        crate::errors::pty_context(instruction) is SpawnTerminal <==> instruction is SpawnTerminal,
        crate::errors::pty_context(instruction) is SpawnTerminalVertically <==> instruction is SpawnTerminalVertically,
        crate::errors::pty_context(instruction) is SpawnTerminalHorizontally <==> instruction is SpawnTerminalHorizontally,
        crate::errors::pty_context(instruction) is NewTab <==> instruction is NewTab,
        crate::errors::pty_context(instruction) is ClosePane <==> instruction is ClosePane,
        crate::errors::pty_context(instruction) is CloseTab <==> instruction is CloseTab,
        crate::errors::pty_context(instruction) is Quit <==> instruction is Quit,
{
}

/// A call on a trail names the kind of the instruction to the screen.
pub proof fn law_kinds_of_screen_instructions<V, L>(instruction: ScreenInstruction<V, L>)
    ensures
        crate::errors::screen_context(instruction) is Pty <==> instruction is Pty,
        crate::errors::screen_context(instruction) is Render <==> instruction is Render,
        crate::errors::screen_context(instruction) is NewPane <==> instruction is NewPane,
        crate::errors::screen_context(instruction) is HorizontalSplit <==> instruction is HorizontalSplit,
        crate::errors::screen_context(instruction) is VerticalSplit <==> instruction is VerticalSplit,
        crate::errors::screen_context(instruction) is WriteCharacter <==> instruction is WriteCharacter,
        crate::errors::screen_context(instruction) is ResizeLeft <==> instruction is ResizeLeft,
        crate::errors::screen_context(instruction) is ResizeRight <==> instruction is ResizeRight,
        crate::errors::screen_context(instruction) is ResizeDown <==> instruction is ResizeDown,
        crate::errors::screen_context(instruction) is ResizeUp <==> instruction is ResizeUp,
        crate::errors::screen_context(instruction) is MoveFocus <==> instruction is MoveFocus,
        crate::errors::screen_context(instruction) is MoveFocusLeft <==> instruction is MoveFocusLeft,
        crate::errors::screen_context(instruction) is MoveFocusDown <==> instruction is MoveFocusDown,
        crate::errors::screen_context(instruction) is MoveFocusUp <==> instruction is MoveFocusUp,
        crate::errors::screen_context(instruction) is MoveFocusRight <==> instruction is MoveFocusRight,
        crate::errors::screen_context(instruction) is ScrollUp <==> instruction is ScrollUp,
        crate::errors::screen_context(instruction) is ScrollDown <==> instruction is ScrollDown,
        crate::errors::screen_context(instruction) is ClearScroll <==> instruction is ClearScroll,
        crate::errors::screen_context(instruction) is CloseFocusedPane <==> instruction is CloseFocusedPane,
        crate::errors::screen_context(instruction) is ClosePane <==> instruction is ClosePane,
        crate::errors::screen_context(instruction) is ToggleActiveTerminalFullscreen <==> instruction is ToggleActiveTerminalFullscreen,
        crate::errors::screen_context(instruction) is NewTab <==> instruction is NewTab,
        crate::errors::screen_context(instruction) is SwitchTabNext <==> instruction is SwitchTabNext,
        crate::errors::screen_context(instruction) is SwitchTabPrev <==> instruction is SwitchTabPrev,
        crate::errors::screen_context(instruction) is CloseTab <==> instruction is CloseTab,
        crate::errors::screen_context(instruction) is ApplyLayout <==> instruction is ApplyLayout,
        crate::errors::screen_context(instruction) is Quit <==> instruction is Quit,
{
}

/// A call on a trail names how the session was asked to end.
pub proof fn law_kinds_of_endings(instruction: AppInstruction)
    ensures
        crate::errors::app_context(instruction) is Exit <==> instruction is Exit,
        crate::errors::app_context(instruction) is Error <==> instruction is Error,
{
}

} // verus!
