use std::sync::mpsc::channel;

use mosaic::channels::{SenderType, SenderWithContext};
use mosaic::decimal::append_decimal;
use mosaic::errors::ErrorContext;
use mosaic::instructions::{AppInstruction, PtyInstruction, ScreenInstruction};
use mosaic::lifecycle::{failure_message, goodbye_message, receive, ClosingStep};

fn closing(instruction: AppInstruction, rows: usize) -> Vec<ClosingStep> {
    // The other threads are gone already, which does not matter.
    let (tx, _) = channel::<(ScreenInstruction<u8, u8>, ErrorContext)>();
    let mut screen = SenderWithContext::new(ErrorContext::new(), SenderType::Sender(tx));
    let (tx, _) = channel::<(PtyInstruction, ErrorContext)>();
    let mut pty = SenderWithContext::new(ErrorContext::new(), SenderType::Sender(tx));
    receive(&mut screen, &mut pty, &instruction, ErrorContext::new(), rows)
}

#[test]
fn last_words_of_a_session() {
    assert_eq!(goodbye_message(24), "\u{1b}[24;1H\n\u{1b}[m\u{1b}[?25hBye from Mosaic!");
    assert_eq!(failure_message(7, "thread panicked"), "\u{1b}[7;1H\nthread panicked");
}

#[test]
fn session_that_ends_waits_for_its_threads_and_says_goodbye() {
    assert_eq!(
        closing(AppInstruction::Exit, 50),
        vec![
            ClosingStep::TellScreenToQuit,
            ClosingStep::TellTerminalsToQuit,
            ClosingStep::JoinThreads { insist: true },
            ClosingStep::UnsetRawMode,
            ClosingStep::Write("\u{1b}[50;1H\n\u{1b}[m\u{1b}[?25hBye from Mosaic!".to_string()),
            ClosingStep::Flush,
        ]
    );
}

#[test]
fn session_that_fails_shows_the_backtrace_and_exits_with_a_failure() {
    assert_eq!(
        closing(AppInstruction::Error("at main.rs".to_string()), 120),
        vec![
            ClosingStep::TellScreenToQuit,
            ClosingStep::TellTerminalsToQuit,
            ClosingStep::UnsetRawMode,
            ClosingStep::Write("\u{1b}[120;1H\nat main.rs".to_string()),
            ClosingStep::JoinThreads { insist: false },
            ClosingStep::ExitWithFailure,
        ]
    );
}

#[test]
fn numbers_are_written_in_decimal() {
    for value in [0, 7, 9, 10, 99, 100, 65535, usize::MAX] {
        let mut text = String::from("n=");
        append_decimal(&mut text, value);
        assert_eq!(text, format!("n={}", value));
    }
}
