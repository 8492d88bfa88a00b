use std::sync::mpsc::{channel, Receiver};

use mosaic::channels::{SendError, SenderType, SenderWithContext};
use mosaic::errors::{AppContext, ContextType, ErrorContext, PtyContext, ScreenContext};
use mosaic::file_path::FilePath;
use mosaic::instructions::{AppInstruction, Completion, PtyInstruction, ScreenInstruction};
use mosaic::ipc::{encode, ApiCommand, DecodeError};
use mosaic::ipc_server::{Request, ServeError, Unserved};
use mosaic::pty::{FirstTask, Placement, PtyTask};
use mosaic::screen::{ScreenStep, ScreenTask, TabTask};

type Screen = ScreenInstruction<&'static str, &'static str>;

fn pair<T: Clone>() -> (SenderWithContext<T>, Receiver<(T, ErrorContext)>) {
    let (tx, rx) = channel();
    (SenderWithContext::new(ErrorContext::new(), SenderType::Sender(tx)), rx)
}

fn from_socket() -> ErrorContext {
    let mut context = ErrorContext::new();
    context.add_call(ContextType::IPCServer);
    context
}

fn path(text: &str) -> FilePath {
    FilePath { bytes: text.as_bytes().to_vec() }
}

#[test]
fn session_begins_with_its_layout_or_with_one_tab() {
    assert_eq!(mosaic::pty::first_task(Some("layout")), FirstTask::SpawnForLayout("layout"));
    assert_eq!(
        mosaic::pty::first_task::<&str>(None),
        FirstTask::Task(PtyTask::Spawn { file_to_open: None, placement: Placement::NewTab })
    );
}

#[test]
fn terminals_are_spawned_and_closed_as_asked() {
    let spawn = |file_to_open, placement| PtyTask::Spawn { file_to_open, placement };
    let cases = [
        (
            PtyInstruction::SpawnTerminal(Some(path("a"))),
            spawn(Some(path("a")), Placement::NewPane),
            Completion::Nothing,
        ),
        (
            PtyInstruction::SpawnTerminalVertically(Some(path("b"))),
            spawn(Some(path("b")), Placement::VerticalSplit),
            Completion::Nothing,
        ),
        (
            PtyInstruction::SpawnTerminalHorizontally(None),
            spawn(None, Placement::HorizontalSplit),
            Completion::Nothing,
        ),
        (PtyInstruction::NewTab, spawn(None, Placement::NewTab), Completion::Nothing),
        (PtyInstruction::ClosePane(5), PtyTask::ClosePane(5), Completion::ClosedPane),
        (
            PtyInstruction::CloseTab(vec![5, 6]),
            PtyTask::CloseTab(vec![5, 6]),
            Completion::ClosedPane,
        ),
        (PtyInstruction::Quit, PtyTask::Quit, Completion::Nothing),
    ];
    for (instruction, expected, completion) in cases {
        let (mut screen, _rx) = pair::<Screen>();
        let task = mosaic::pty::receive(&mut screen, instruction, ErrorContext::new());
        assert_eq!(task, expected);
        assert_eq!(task.completion(), completion);
    }
}

#[test]
fn screen_is_told_of_a_terminal_with_the_trail_of_the_instruction() {
    let (mut screen, rx) = pair::<Screen>();
    let task = mosaic::pty::receive(
        &mut screen,
        PtyInstruction::SpawnTerminalVertically(None),
        from_socket(),
    );
    let placement = match task {
        PtyTask::Spawn { placement, .. } => placement,
        other => panic!("{:?}", other),
    };
    mosaic::pty::report_spawned(&screen, placement, 9).unwrap();
    let (told, trail) = rx.recv().unwrap();
    assert_eq!(told, ScreenInstruction::VerticalSplit(9));
    assert_eq!(
        trail.calls(),
        vec![ContextType::IPCServer, ContextType::Pty(PtyContext::SpawnTerminalVertically)]
    );
}

#[test]
fn each_placement_has_its_instruction() {
    let cases = [
        (Placement::NewPane, ScreenInstruction::NewPane(2)),
        (Placement::VerticalSplit, ScreenInstruction::VerticalSplit(2)),
        (Placement::HorizontalSplit, ScreenInstruction::HorizontalSplit(2)),
        (Placement::NewTab, ScreenInstruction::NewTab(2)),
    ];
    let (screen, rx) = pair::<Screen>();
    for (placement, expected) in cases {
        mosaic::pty::report_spawned(&screen, placement, 2).unwrap();
        assert_eq!(rx.recv().unwrap().0, expected);
    }
    drop(rx);
    let SendError((refused, _)) =
        mosaic::pty::report_spawned(&screen, Placement::NewTab, 2).unwrap_err();
    assert_eq!(refused, ScreenInstruction::NewTab(2));
}

#[test]
fn screen_does_what_it_is_told() {
    let tab = |task| ScreenTask::ActiveTab(task);
    let cases: Vec<(Screen, ScreenTask<&'static str, &'static str>, bool, Completion)> = vec![
        (
            ScreenInstruction::Pty(4, "print"),
            tab(TabTask::HandlePtyEvent(4, "print")),
            false,
            Completion::Nothing,
        ),
        (ScreenInstruction::Render, ScreenTask::Render, false, Completion::Nothing),
        (ScreenInstruction::NewPane(4), tab(TabTask::NewPane(4)), false, Completion::OpenedPane),
        (
            ScreenInstruction::HorizontalSplit(4),
            tab(TabTask::HorizontalSplit(4)),
            false,
            Completion::OpenedPane,
        ),
        (
            ScreenInstruction::VerticalSplit(4),
            tab(TabTask::VerticalSplit(4)),
            false,
            Completion::OpenedPane,
        ),
        (
            ScreenInstruction::WriteCharacter(vec![65, 66]),
            tab(TabTask::WriteToActiveTerminal(vec![65, 66])),
            false,
            Completion::Nothing,
        ),
        (ScreenInstruction::ResizeLeft, tab(TabTask::ResizeLeft), false, Completion::Nothing),
        (ScreenInstruction::ResizeRight, tab(TabTask::ResizeRight), false, Completion::Nothing),
        (ScreenInstruction::ResizeDown, tab(TabTask::ResizeDown), false, Completion::Nothing),
        (ScreenInstruction::ResizeUp, tab(TabTask::ResizeUp), false, Completion::Nothing),
        (ScreenInstruction::MoveFocus, tab(TabTask::MoveFocus), false, Completion::Nothing),
        (ScreenInstruction::MoveFocusLeft, tab(TabTask::MoveFocusLeft), false, Completion::Nothing),
        (ScreenInstruction::MoveFocusDown, tab(TabTask::MoveFocusDown), false, Completion::Nothing),
        (ScreenInstruction::MoveFocusUp, tab(TabTask::MoveFocusUp), false, Completion::Nothing),
        (
            ScreenInstruction::MoveFocusRight,
            tab(TabTask::MoveFocusRight),
            false,
            Completion::Nothing,
        ),
        (
            ScreenInstruction::ScrollUp,
            tab(TabTask::ScrollActiveTerminalUp),
            false,
            Completion::Nothing,
        ),
        (
            ScreenInstruction::ScrollDown,
            tab(TabTask::ScrollActiveTerminalDown),
            false,
            Completion::Nothing,
        ),
        (
            ScreenInstruction::ClearScroll,
            tab(TabTask::ClearActiveTerminalScroll),
            false,
            Completion::Nothing,
        ),
        (
            ScreenInstruction::CloseFocusedPane,
            tab(TabTask::CloseFocusedPane),
            true,
            Completion::Nothing,
        ),
        (ScreenInstruction::ClosePane(4), tab(TabTask::ClosePane(4)), true, Completion::Nothing),
        (
            ScreenInstruction::ToggleActiveTerminalFullscreen,
            tab(TabTask::ToggleActiveTerminalFullscreen),
            false,
            Completion::Nothing,
        ),
        (ScreenInstruction::NewTab(4), ScreenTask::NewTab(4), false, Completion::OpenedPane),
        (ScreenInstruction::SwitchTabNext, ScreenTask::SwitchTabNext, false, Completion::Nothing),
        (ScreenInstruction::SwitchTabPrev, ScreenTask::SwitchTabPrev, false, Completion::Nothing),
        (ScreenInstruction::CloseTab, ScreenTask::CloseTab, false, Completion::Nothing),
        (
            ScreenInstruction::ApplyLayout("layout", vec![1, 2]),
            ScreenTask::ApplyLayout("layout", vec![1, 2]),
            false,
            Completion::Nothing,
        ),
        (ScreenInstruction::Quit, ScreenTask::Quit, false, Completion::Nothing),
    ];
    for (instruction, task, render, completion) in cases {
        let (mut app, _app_rx) = pair::<AppInstruction>();
        let (mut pty, _pty_rx) = pair::<PtyInstruction>();
        let step = mosaic::screen::receive(&mut app, &mut pty, instruction, ErrorContext::new());
        assert_eq!(step, ScreenStep { task, render, completion });
    }
}

#[test]
fn screen_passes_the_trail_on_to_both_threads() {
    let (mut app, app_rx) = pair::<AppInstruction>();
    let (mut pty, pty_rx) = pair::<PtyInstruction>();
    let instruction: Screen = ScreenInstruction::CloseTab;
    mosaic::screen::receive(&mut app, &mut pty, instruction, from_socket());
    app.send(AppInstruction::Exit).unwrap();
    pty.send(PtyInstruction::CloseTab(vec![1])).unwrap();
    let expected = vec![ContextType::IPCServer, ContextType::Screen(ScreenContext::CloseTab)];
    assert_eq!(app_rx.recv().unwrap().1.calls(), expected);
    assert_eq!(pty_rx.recv().unwrap().1.calls(), expected);
}

#[test]
fn commands_reach_the_thread_they_are_for() {
    let cases: Vec<(ApiCommand, Request<&str, &str>)> = vec![
        (
            ApiCommand::OpenFile(path("notes")),
            Request::Pty(PtyInstruction::SpawnTerminal(Some(path("notes")))),
        ),
        (
            ApiCommand::SplitHorizontally,
            Request::Pty(PtyInstruction::SpawnTerminalHorizontally(None)),
        ),
        (
            ApiCommand::SplitVertically,
            Request::Pty(PtyInstruction::SpawnTerminalVertically(None)),
        ),
        (ApiCommand::MoveFocus, Request::Screen(ScreenInstruction::MoveFocus)),
    ];
    for (command, expected) in cases {
        assert_eq!(mosaic::ipc_server::request(command.clone()), expected);
        let (mut pty, pty_rx) = pair::<PtyInstruction>();
        let (mut screen, screen_rx) = pair::<Screen>();
        mosaic::ipc_server::begin(&mut pty, &mut screen, ErrorContext::new());
        let message = encode(&command).unwrap();
        mosaic::ipc_server::serve_message(&pty, &screen, &message).unwrap();
        match expected {
            Request::Pty(instruction) => {
                let (received, trail) = pty_rx.try_recv().unwrap();
                assert_eq!(received, instruction);
                assert_eq!(trail.calls(), vec![ContextType::IPCServer]);
                assert!(screen_rx.try_recv().is_err());
            }
            Request::Screen(instruction) => {
                let (received, trail) = screen_rx.try_recv().unwrap();
                assert_eq!(received, instruction);
                assert_eq!(trail.calls(), vec![ContextType::IPCServer]);
                assert!(pty_rx.try_recv().is_err());
            }
        }
    }
}

#[test]
fn command_for_a_thread_that_is_gone_is_unserved() {
    let (pty, pty_rx) = pair::<PtyInstruction>();
    let (screen, screen_rx) = pair::<Screen>();
    drop(pty_rx);
    drop(screen_rx);
    match mosaic::ipc_server::serve(&pty, &screen, ApiCommand::SplitVertically) {
        Err(Unserved::Pty(SendError((instruction, _)))) => {
            assert_eq!(instruction, PtyInstruction::SpawnTerminalVertically(None));
        }
        other => panic!("{:?}", other),
    }
    match mosaic::ipc_server::serve(&pty, &screen, ApiCommand::MoveFocus) {
        Err(Unserved::Screen(SendError((instruction, _)))) => {
            assert_eq!(instruction, ScreenInstruction::MoveFocus);
        }
        other => panic!("{:?}", other),
    }
    assert!(matches!(
        mosaic::ipc_server::serve_message(&pty, &screen, &[3, 0, 0, 0]),
        Err(ServeError::Unserved(Unserved::Screen(_)))
    ));
}

#[test]
fn buffer_without_a_command_asks_nobody_anything() {
    let (pty, pty_rx) = pair::<PtyInstruction>();
    let (screen, screen_rx) = pair::<Screen>();
    assert!(matches!(
        mosaic::ipc_server::serve_message(&pty, &screen, &[9, 0, 0, 0]),
        Err(ServeError::Undecodable(DecodeError::UnknownCommand(9)))
    ));
    assert!(pty_rx.try_recv().is_err());
    assert!(screen_rx.try_recv().is_err());
}

#[test]
fn split_from_the_command_line_ends_on_the_screen() {
    let (mut pty, pty_rx) = pair::<PtyInstruction>();
    let (mut screen, screen_rx) = pair::<Screen>();
    let mut to_screen = screen.clone();
    mosaic::ipc_server::begin(&mut pty, &mut screen, ErrorContext::new());
    let message = encode(&ApiCommand::SplitHorizontally).unwrap();
    mosaic::ipc_server::serve_message(&pty, &screen, &message).unwrap();

    let (event, trail) = pty_rx.recv().unwrap();
    let placement = match mosaic::pty::receive(&mut to_screen, event, trail) {
        PtyTask::Spawn { file_to_open: None, placement } => placement,
        other => panic!("{:?}", other),
    };
    mosaic::pty::report_spawned(&to_screen, placement, 11).unwrap();

    let (event, trail) = screen_rx.recv().unwrap();
    let (mut app, app_rx) = pair::<AppInstruction>();
    let step = mosaic::screen::receive(&mut app, &mut pty, event, trail);
    assert_eq!(step.task, ScreenTask::ActiveTab(TabTask::HorizontalSplit(11)));
    assert_eq!(step.completion, Completion::OpenedPane);
    app.send(AppInstruction::Exit).unwrap();
    assert_eq!(
        app_rx.recv().unwrap().1.calls(),
        vec![
            ContextType::IPCServer,
            ContextType::Pty(PtyContext::SpawnTerminalHorizontally),
            ContextType::Screen(ScreenContext::HorizontalSplit),
        ]
    );
}

#[test]
fn ending_tells_both_threads_to_quit() {
    for (instruction, kind) in [
        (AppInstruction::Exit, AppContext::Exit),
        (AppInstruction::Error("oops".to_string()), AppContext::Error),
    ] {
        let (mut screen, screen_rx) = pair::<Screen>();
        let (mut pty, pty_rx) = pair::<PtyInstruction>();
        mosaic::lifecycle::receive(&mut screen, &mut pty, &instruction, from_socket(), 24);
        assert!(screen_rx.try_recv().is_err());
        assert!(pty_rx.try_recv().is_err());
        mosaic::lifecycle::tell_screen_to_quit(&screen).unwrap();
        assert!(pty_rx.try_recv().is_err());
        mosaic::lifecycle::tell_terminals_to_quit(&pty).unwrap();
        let expected = vec![ContextType::IPCServer, ContextType::App(kind)];
        let (told, trail) = screen_rx.try_recv().unwrap();
        assert_eq!(told, ScreenInstruction::Quit);
        assert_eq!(trail.calls(), expected);
        let (told, trail) = pty_rx.try_recv().unwrap();
        assert_eq!(told, PtyInstruction::Quit);
        assert_eq!(trail.calls(), expected);
    }
}

#[test]
fn threads_that_are_gone_cannot_be_told_to_quit() {
    let (screen, screen_rx) = pair::<Screen>();
    let (pty, pty_rx) = pair::<PtyInstruction>();
    drop(screen_rx);
    drop(pty_rx);
    let SendError((refused, _)) = mosaic::lifecycle::tell_screen_to_quit(&screen).unwrap_err();
    assert_eq!(refused, ScreenInstruction::Quit);
    let SendError((refused, _)) = mosaic::lifecycle::tell_terminals_to_quit(&pty).unwrap_err();
    assert_eq!(refused, PtyInstruction::Quit);
}
