//! What holds of a session as a whole.

use vstd::prelude::*;

use crate::errors::{ContextType, MAX_THREAD_CALL_STACK};
use crate::instructions::{AppInstruction, Completion, PtyInstruction, ScreenInstruction};
use crate::ipc::{ApiCommand, ApiCommandView, DecodeError, IPC_BUFFER_LEN};
use crate::ipc_server::Request;
use crate::lifecycle::ClosingStepView;
use crate::opts::{Invocation, Opt};
use crate::pty::{Placement, PtyTask};
use crate::screen::ScreenTask;

verus! {

/// The buffer after `received` was read into it.
pub open spec fn buffered(received: Seq<u8>) -> Seq<u8> {
    received + Seq::new((IPC_BUFFER_LEN - received.len()) as nat, |i: int| 0u8)
}

proof fn lemma_index_message(index: u32)
    ensures
        crate::ipc::index_message(index).len() == 4,
        crate::little_endian::le_value(crate::ipc::index_message(index)) == index,
{
    crate::little_endian::lemma_le_bytes_len(index as nat, 4);
    crate::little_endian::lemma_le_limits();
    crate::little_endian::lemma_le_round_trip(index as nat, 4);
}

proof fn lemma_index_and_text_message(index: u32, text: Seq<u8>)
    requires
        text.len() <= u64::MAX,
    ensures
        ({
            let message = crate::ipc::index_and_text_message(index, text);
            &&& message.len() == 12 + text.len()
            &&& message.subrange(0, 4) == crate::ipc::index_message(index)
            &&& crate::little_endian::le_value(message.subrange(4, 12)) == text.len()
            &&& message.subrange(12, 12int + text.len()) == text
        }),
{
    let message = crate::ipc::index_and_text_message(index, text);
    crate::little_endian::lemma_le_bytes_len(index as nat, 4);
    crate::little_endian::lemma_le_bytes_len(text.len(), 8);
    crate::little_endian::lemma_le_limits();
    crate::little_endian::lemma_le_round_trip(text.len(), 8);
    assert(message.subrange(0, 4) =~= crate::ipc::index_message(index));
    assert(message.subrange(4, 12) =~= crate::little_endian::le_bytes(text.len(), 8));
    assert(message.subrange(12, 12int + text.len()) =~= text);
}

/// A command is read back from its message, whatever follows the message.
pub proof fn law_command_is_read_back(command: ApiCommandView, rest: Seq<u8>)
    requires
        crate::ipc::message_of(command) is Ok,
        command matches ApiCommandView::OpenFile(path) ==> path.len() <= u64::MAX,
    ensures
        crate::ipc::command_in(crate::ipc::message_of(command)->Ok_0 + rest) == Ok::<
            ApiCommandView,
            DecodeError,
        >(command),
{
    let message = crate::ipc::message_of(command)->Ok_0;
    let buffer = message + rest;
    match command {
        ApiCommandView::OpenFile(path) => {
            lemma_index_message(0);
            lemma_index_and_text_message(0, path);
            assert(buffer.subrange(0, 4) =~= message.subrange(0, 4));
            assert(buffer.subrange(4, 12) =~= message.subrange(4, 12));
            assert(buffer.subrange(12, 12int + path.len()) =~= message.subrange(12, 12int + path.len()));
        },
        _ => {
            let index: u32 = match command {
                ApiCommandView::SplitHorizontally => 1,
                ApiCommandView::SplitVertically => 2,
                _ => 3,
            };
            lemma_index_message(index);
            assert(buffer.subrange(0, 4) =~= message);
        },
    }
}

/// The session gets the command that it was sent, as long as the message fits
/// into the buffer.
pub proof fn law_command_survives_the_socket(command: ApiCommandView)
    requires
        crate::ipc::message_of(command) is Ok,
        crate::ipc::message_of(command)->Ok_0.len() <= IPC_BUFFER_LEN,
    ensures
        buffered(crate::ipc::message_of(command)->Ok_0).len() == IPC_BUFFER_LEN,
        crate::ipc::command_in(buffered(crate::ipc::message_of(command)->Ok_0)) == Ok::<
            ApiCommandView,
            DecodeError,
        >(command),
{
    let message = crate::ipc::message_of(command)->Ok_0;
    if let ApiCommandView::OpenFile(path) = command {
        crate::little_endian::lemma_le_bytes_len(0, 4);
        crate::little_endian::lemma_le_bytes_len(path.len(), 8);
    }
    law_command_is_read_back(
        command,
        Seq::new((IPC_BUFFER_LEN - message.len()) as nat, |i: int| 0u8),
    );
}

/// A message that does not fit into the buffer is refused: what was read of it
/// holds no command, least of all another one.
pub proof fn law_cut_message_is_refused(command: ApiCommandView)
    requires
        crate::ipc::message_of(command) is Ok,
        IPC_BUFFER_LEN < crate::ipc::message_of(command)->Ok_0.len() <= u64::MAX,
    ensures
        crate::ipc::command_in(
            crate::ipc::message_of(command)->Ok_0.take(IPC_BUFFER_LEN as int),
        ) == Err::<ApiCommandView, DecodeError>(DecodeError::Malformed),
{
    let message = crate::ipc::message_of(command)->Ok_0;
    let buffer = message.take(IPC_BUFFER_LEN as int);
    match command {
        ApiCommandView::OpenFile(path) => {
            crate::little_endian::lemma_le_bytes_len(0, 4);
            crate::little_endian::lemma_le_bytes_len(path.len(), 8);
            lemma_index_message(0);
            lemma_index_and_text_message(0, path);
            assert(buffer.subrange(0, 4) =~= message.subrange(0, 4));
            assert(buffer.subrange(4, 12) =~= message.subrange(4, 12));
        },
        _ => {
            crate::little_endian::lemma_le_bytes_len(1, 4);
            crate::little_endian::lemma_le_bytes_len(2, 4);
            crate::little_endian::lemma_le_bytes_len(3, 4);
        },
    }
}

/// No two commands travel as the same message.
pub proof fn law_messages_tell_commands_apart(one: ApiCommandView, other: ApiCommandView)
    requires
        crate::ipc::message_of(one) is Ok,
        crate::ipc::message_of(one) == crate::ipc::message_of(other),
        one matches ApiCommandView::OpenFile(path) ==> path.len() <= u64::MAX,
        other matches ApiCommandView::OpenFile(path) ==> path.len() <= u64::MAX,
    ensures
        one == other,
{
    law_command_is_read_back(one, Seq::empty());
    law_command_is_read_back(other, Seq::empty());
}

/// A buffer of zeros asks to open a file without a name: that is what a client
/// gets that connects and sends nothing.
pub proof fn law_zeros_open_an_unnamed_file(buffer: Seq<u8>)
    requires
        buffer.len() >= 12,
        forall|i: int| 0 <= i < buffer.len() ==> buffer[i] == 0,
    ensures
        crate::ipc::command_in(buffer) == Ok::<ApiCommandView, DecodeError>(
            ApiCommandView::OpenFile(Seq::empty()),
        ),
{
    crate::little_endian::lemma_le_value_of_zeros(buffer.subrange(0, 4));
    crate::little_endian::lemma_le_value_of_zeros(buffer.subrange(4, 12));
    assert(buffer.subrange(12, 12) =~= Seq::empty());
}

/// A session starts exactly where no command is given, and with the options as
/// they were given.
pub proof fn law_session_starts_without_a_command(opts: Opt)
    ensures
        crate::opts::invocation_of(opts) is Start <==> opts.split is None && !opts.move_focus
            && opts.open_file is None,
        crate::opts::invocation_of(opts) matches Invocation::Start(given) ==> given == opts,
{
}

/// Where a direction to split in is given, no other option matters.
pub proof fn law_split_comes_first(one: Opt, other: Opt)
    requires
        one.split is Some,
        one.split == other.split,
    ensures
        crate::opts::invocation_of(one) == crate::opts::invocation_of(other),
        crate::opts::invocation_of(one) !is Start,
{
}

/// Without a direction to split in, moving the focus comes before opening a file.
pub proof fn law_focus_comes_before_file(opts: Opt)
    requires
        opts.split is None,
        opts.move_focus,
    ensures
        crate::opts::invocation_of(opts) == Invocation::Ask(ApiCommand::MoveFocus),
{
}

/// A file given on the command line, or a split, ends up where it was asked for:
/// the terminals are asked for one terminal on that file, and the screen, told of
/// that terminal, puts it where the command says.
pub proof fn law_command_ends_where_it_was_asked_for<V, L>(command: ApiCommand, pid: i32)
    requires
        command !is MoveFocus,
    ensures
        ({
            let request = crate::ipc_server::request_for::<V, L>(command);
            let task = crate::pty::pty_task(request->Pty_0);
            let told = crate::pty::placed::<V, L>(task->placement, pid);
            &&& request is Pty
            &&& task is Spawn
            &&& match command {
                ApiCommand::OpenFile(path) => task->file_to_open == Some(path) && told
                    == ScreenInstruction::<V, L>::NewPane(pid),
                ApiCommand::SplitHorizontally => task->file_to_open is None && told
                    == ScreenInstruction::<V, L>::HorizontalSplit(pid),
                ApiCommand::SplitVertically => task->file_to_open is None && told
                    == ScreenInstruction::<V, L>::VerticalSplit(pid),
                ApiCommand::MoveFocus => false,
            }
        }),
{
}

/// Moving the focus is for the screen alone.
pub proof fn law_moving_the_focus_spawns_nothing<V, L>(command: ApiCommand)
    ensures
        command is MoveFocus <==> crate::ipc_server::request_for::<V, L>(command) is Screen,
        command is MoveFocus ==> crate::ipc_server::request_for::<V, L>(command) == Request::<
            V,
            L,
        >::Screen(ScreenInstruction::MoveFocus),
{
}

/// Whoever waits for a pane to open is released: each instruction on which a
/// terminal is spawned leads to one on which the screen reports an open pane.
pub proof fn law_spawned_terminal_releases_the_keyboard<V, L>(
    instruction: PtyInstruction,
    pid: i32,
)
    requires
        crate::pty::pty_task(instruction) is Spawn,
    ensures
        ({
            let placement = crate::pty::pty_task(instruction)->placement;
            crate::screen::screen_step(crate::pty::placed::<V, L>(placement, pid)).completion
                == Completion::OpenedPane
        }),
{
}

/// The screen reports an open pane for what the terminals announce, and for
/// nothing else.
pub proof fn law_only_announced_terminals_open_panes<V, L>(instruction: ScreenInstruction<V, L>)
    ensures
        crate::screen::screen_step(instruction).completion == Completion::OpenedPane <==> exists|
            placement: Placement,
            pid: i32,
        |
            instruction == #[trigger] crate::pty::placed::<V, L>(placement, pid),
{
    match instruction {
        ScreenInstruction::NewPane(pid) => {
            assert(instruction == crate::pty::placed::<V, L>(Placement::NewPane, pid));
        },
        ScreenInstruction::VerticalSplit(pid) => {
            assert(instruction == crate::pty::placed::<V, L>(Placement::VerticalSplit, pid));
        },
        ScreenInstruction::HorizontalSplit(pid) => {
            assert(instruction == crate::pty::placed::<V, L>(Placement::HorizontalSplit, pid));
        },
        ScreenInstruction::NewTab(pid) => {
            assert(instruction == crate::pty::placed::<V, L>(Placement::NewTab, pid));
        },
        _ => {},
    }
}

/// Whoever waits for a pane to close is released by closing a pane or a tab, and
/// by nothing else. That a pane has opened is for the screen to report.
pub proof fn law_closing_releases_the_keyboard(instruction: PtyInstruction)
    ensures
        crate::pty::pty_completion(crate::pty::pty_task(instruction)) == Completion::ClosedPane
            <==> instruction is ClosePane || instruction is CloseTab,
        crate::pty::pty_completion(crate::pty::pty_task(instruction)) != Completion::OpenedPane,
{
}

/// The thread of the terminals and that of the screen end when they are told to
/// quit, and never otherwise.
pub proof fn law_threads_end_on_quit_alone<V, L>(
    for_pty: PtyInstruction,
    for_screen: ScreenInstruction<V, L>,
)
    ensures
        crate::pty::pty_task(for_pty) == PtyTask::Quit <==> for_pty is Quit,
        crate::screen::screen_task(for_screen) == ScreenTask::<V, L>::Quit <==> for_screen is Quit,
{
}

/// However a session ends, its threads are waited for once, and the terminal has
/// its ordinary mode back before the last text is written. The process ends with a
/// failure exactly where the session failed, and that is the last thing it does.
pub proof fn law_terminal_is_given_back(instruction: AppInstruction, rows: nat)
    ensures
        ({
            let steps = crate::lifecycle::closing(instruction, rows);
            &&& exists|mode: int, text: int|
                0 <= mode < text < steps.len() && #[trigger] steps[mode]
                    == ClosingStepView::UnsetRawMode && #[trigger] steps[text] is Write
            &&& exists|at: int|
                {
                    &&& 0 <= at < steps.len()
                    &&& #[trigger] steps[at] is JoinThreads
                    &&& forall|other: int|
                        0 <= other < steps.len() && other != at ==> steps[other] !is JoinThreads
                }
            &&& forall|at: int|
                0 <= at < steps.len() && steps[at] is ExitWithFailure ==> at == steps.len() - 1
            &&& steps.last() is ExitWithFailure <==> instruction is Error
        }),
{
    let steps = crate::lifecycle::closing(instruction, rows);
    match instruction {
        AppInstruction::Exit => {
            assert(steps[3] == ClosingStepView::UnsetRawMode && steps[4] is Write);
            assert(steps[2] is JoinThreads);
        },
        AppInstruction::Error(_) => {
            assert(steps[2] == ClosingStepView::UnsetRawMode && steps[3] is Write);
            assert(steps[4] is JoinThreads);
        },
    }
}

/// However a session ends, the first thing done is to tell the screen to quit and
/// the second to tell the terminals. Nobody is told anything after that, and only
/// then are the threads waited for.
pub proof fn law_screen_is_told_before_the_terminals(instruction: AppInstruction, rows: nat)
    ensures
        ({
            let steps = crate::lifecycle::closing(instruction, rows);
            &&& steps.len() > 2
            &&& steps[0] == ClosingStepView::TellScreenToQuit
            &&& steps[1] == ClosingStepView::TellTerminalsToQuit
            &&& forall|at: int|
                2 <= at < steps.len() ==> steps[at] !is TellScreenToQuit && steps[at]
                    !is TellTerminalsToQuit
        }),
{
}

/// A trail after some `calls`, one after the other.
pub open spec fn trail_after(trail: Seq<ContextType>, calls: Seq<ContextType>) -> Seq<ContextType>
    decreases calls.len(),
{
    if calls.len() == 0 {
        trail
    } else {
        crate::errors::extended(trail_after(trail, calls.drop_last()), calls.last())
    }
}

/// A trail holds the first calls that led to a message, in their order, as many as
/// it has room for.
pub proof fn law_trail_keeps_the_first_calls(calls: Seq<ContextType>)
    ensures
        trail_after(Seq::empty(), calls) == calls.take(
            if calls.len() < MAX_THREAD_CALL_STACK {
                calls.len() as int
            } else {
                MAX_THREAD_CALL_STACK as int
            },
        ),
    decreases calls.len(),
{
    if calls.len() > 0 {
        law_trail_keeps_the_first_calls(calls.drop_last());
        assert(trail_after(Seq::empty(), calls) =~= calls.take(
            if calls.len() < MAX_THREAD_CALL_STACK {
                calls.len() as int
            } else {
                MAX_THREAD_CALL_STACK as int
            },
        ));
    }
}

/// No call that is on a trail is ever lost or moved.
pub proof fn law_trail_is_never_rewritten(trail: Seq<ContextType>, calls: Seq<ContextType>)
    ensures
        trail.is_prefix_of(trail_after(trail, calls)),
    decreases calls.len(),
{
    if calls.len() > 0 {
        law_trail_is_never_rewritten(trail, calls.drop_last());
    }
}

/// The panes of a tab after `ids` were opened in it, one after the other.
pub open spec fn panes_after(limit: Option<usize>, ids: Seq<i32>) -> Seq<i32>
    decreases ids.len(),
{
    if ids.len() == 0 {
        Seq::empty()
    } else {
        crate::panes::opened(panes_after(limit, ids.drop_last()), limit, ids.last())
    }
}

/// Opening more panes than there may be closes the old ones: the newest stay, as
/// many as there may be, and always the newest of all.
pub proof fn law_newest_panes_stay(max: usize, ids: Seq<i32>)
    ensures
        ({
            let room = if max == 0 {
                1int
            } else {
                max as int
            };
            panes_after(Some(max), ids) == ids.skip(
                if ids.len() > room {
                    ids.len() - room
                } else {
                    0
                },
            )
        }),
    decreases ids.len(),
{
    let room = if max == 0 {
        1int
    } else {
        max as int
    };
    let gone: int = if ids.len() > room {
        ids.len() - room
    } else {
        0
    };
    if ids.len() > 0 {
        law_newest_panes_stay(max, ids.drop_last());
    }
    assert(panes_after(Some(max), ids) =~= ids.skip(gone));
}

/// Without a limit every pane stays.
pub proof fn law_all_panes_stay_without_a_limit(ids: Seq<i32>)
    ensures
        panes_after(None, ids) == ids,
    decreases ids.len(),
{
    if ids.len() > 0 {
        law_all_panes_stay_without_a_limit(ids.drop_last());
        assert(panes_after(None, ids) =~= ids);
    }
}

} // verus!
