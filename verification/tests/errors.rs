use mosaic::errors::{
    AppContext, ContextType, ErrorContext, PtyContext, ScreenContext, MAX_THREAD_CALL_STACK,
};
use mosaic::file_path::FilePath;
use mosaic::instructions::{AppInstruction, PtyInstruction, ScreenInstruction};

#[test]
fn trail_starts_empty_and_grows_at_the_end() {
    let mut context = ErrorContext::new();
    assert_eq!(context.calls(), vec![]);
    context.add_call(ContextType::IPCServer);
    context.add_call(ContextType::Pty(PtyContext::SpawnTerminal));
    context.add_call(ContextType::Screen(ScreenContext::NewPane));
    assert_eq!(
        context.calls(),
        vec![
            ContextType::IPCServer,
            ContextType::Pty(PtyContext::SpawnTerminal),
            ContextType::Screen(ScreenContext::NewPane),
        ]
    );
}

#[test]
fn full_trail_keeps_its_first_calls() {
    let mut context = ErrorContext::new();
    context.add_call(ContextType::IPCServer);
    for _ in 0..20 {
        context.add_call(ContextType::Screen(ScreenContext::Render));
    }
    let calls = context.calls();
    assert_eq!(calls.len(), MAX_THREAD_CALL_STACK);
    assert_eq!(calls[0], ContextType::IPCServer);
    assert_eq!(calls[5], ContextType::Screen(ScreenContext::Render));
}

#[test]
fn trail_is_copied_by_value() {
    let mut context = ErrorContext::new();
    let before = context;
    context.add_call(ContextType::App(AppContext::Exit));
    assert_eq!(before.calls(), vec![]);
    assert_eq!(context.calls(), vec![ContextType::App(AppContext::Exit)]);
}

#[test]
fn each_instruction_has_its_kind() {
    let path = FilePath { bytes: b"/tmp/a".to_vec() };
    assert_eq!(AppContext::from(&AppInstruction::Exit), AppContext::Exit);
    assert_eq!(AppContext::from(&AppInstruction::Error(String::new())), AppContext::Error);

    let pty = [
        (PtyInstruction::SpawnTerminal(Some(path)), PtyContext::SpawnTerminal),
        (PtyInstruction::SpawnTerminalVertically(None), PtyContext::SpawnTerminalVertically),
        (PtyInstruction::SpawnTerminalHorizontally(None), PtyContext::SpawnTerminalHorizontally),
        (PtyInstruction::NewTab, PtyContext::NewTab),
        (PtyInstruction::ClosePane(3), PtyContext::ClosePane),
        (PtyInstruction::CloseTab(vec![3, 4]), PtyContext::CloseTab),
        (PtyInstruction::Quit, PtyContext::Quit),
    ];
    for (instruction, kind) in &pty {
        assert_eq!(PtyContext::from(instruction), *kind);
    }

    let screen: [(ScreenInstruction<u8, u8>, ScreenContext); 27] = [
        (ScreenInstruction::Pty(1, 2), ScreenContext::Pty),
        (ScreenInstruction::Render, ScreenContext::Render),
        (ScreenInstruction::NewPane(1), ScreenContext::NewPane),
        (ScreenInstruction::HorizontalSplit(1), ScreenContext::HorizontalSplit),
        (ScreenInstruction::VerticalSplit(1), ScreenContext::VerticalSplit),
        (ScreenInstruction::WriteCharacter(vec![65]), ScreenContext::WriteCharacter),
        (ScreenInstruction::ResizeLeft, ScreenContext::ResizeLeft),
        (ScreenInstruction::ResizeRight, ScreenContext::ResizeRight),
        (ScreenInstruction::ResizeDown, ScreenContext::ResizeDown),
        (ScreenInstruction::ResizeUp, ScreenContext::ResizeUp),
        (ScreenInstruction::MoveFocus, ScreenContext::MoveFocus),
        (ScreenInstruction::MoveFocusLeft, ScreenContext::MoveFocusLeft),
        (ScreenInstruction::MoveFocusDown, ScreenContext::MoveFocusDown),
        (ScreenInstruction::MoveFocusUp, ScreenContext::MoveFocusUp),
        (ScreenInstruction::MoveFocusRight, ScreenContext::MoveFocusRight),
        (ScreenInstruction::ScrollUp, ScreenContext::ScrollUp),
        (ScreenInstruction::ScrollDown, ScreenContext::ScrollDown),
        (ScreenInstruction::ClearScroll, ScreenContext::ClearScroll),
        (ScreenInstruction::CloseFocusedPane, ScreenContext::CloseFocusedPane),
        (ScreenInstruction::ClosePane(1), ScreenContext::ClosePane),
        (
            ScreenInstruction::ToggleActiveTerminalFullscreen,
            ScreenContext::ToggleActiveTerminalFullscreen,
        ),
        (ScreenInstruction::NewTab(1), ScreenContext::NewTab),
        (ScreenInstruction::SwitchTabNext, ScreenContext::SwitchTabNext),
        (ScreenInstruction::SwitchTabPrev, ScreenContext::SwitchTabPrev),
        (ScreenInstruction::CloseTab, ScreenContext::CloseTab),
        (ScreenInstruction::ApplyLayout(7, vec![1, 2]), ScreenContext::ApplyLayout),
        (ScreenInstruction::Quit, ScreenContext::Quit),
    ];
    for (instruction, kind) in &screen {
        assert_eq!(ScreenContext::from(instruction), *kind);
    }
}
