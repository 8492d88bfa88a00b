use std::sync::mpsc::{channel, sync_channel};

use mosaic::channels::{SendError, SenderType, SenderWithContext};
use mosaic::errors::{AppContext, ContextType, ErrorContext, PtyContext};
use mosaic::instructions::AppInstruction;

fn trail(calls: &[ContextType]) -> ErrorContext {
    let mut context = ErrorContext::new();
    for call in calls {
        context.add_call(*call);
    }
    context
}

#[test]
fn message_carries_the_trail_of_its_sender() {
    let (tx, rx) = channel();
    let context = trail(&[ContextType::IPCServer]);
    let sender = SenderWithContext::new(context, SenderType::Sender(tx));
    assert!(sender.send(AppInstruction::Exit).is_ok());
    let (event, received) = rx.recv().unwrap();
    assert_eq!(event, AppInstruction::Exit);
    assert_eq!(received.calls(), vec![ContextType::IPCServer]);
}

#[test]
fn updated_trail_goes_with_later_messages_only() {
    let (tx, rx) = channel();
    let mut sender = SenderWithContext::new(ErrorContext::new(), SenderType::Sender(tx));
    sender.send(1u8).unwrap();
    sender.update(trail(&[ContextType::Pty(PtyContext::NewTab)]));
    sender.send(2u8).unwrap();
    let (first, first_trail) = rx.recv().unwrap();
    let (second, second_trail) = rx.recv().unwrap();
    assert_eq!((first, second), (1, 2));
    assert_eq!(first_trail.calls(), vec![]);
    assert_eq!(second_trail.calls(), vec![ContextType::Pty(PtyContext::NewTab)]);
}

#[test]
fn bounded_channel_takes_messages_too() {
    let (tx, rx) = sync_channel(1);
    let context = trail(&[ContextType::App(AppContext::Exit)]);
    let sender = SenderWithContext::new(context, SenderType::SyncSender(tx));
    sender.send(AppInstruction::Error("lost".to_string())).unwrap();
    let (event, received) = rx.recv().unwrap();
    assert_eq!(event, AppInstruction::Error("lost".to_string()));
    assert_eq!(received.calls(), vec![ContextType::App(AppContext::Exit)]);
}

#[test]
fn refused_message_comes_back_from_an_unbounded_channel() {
    let (tx, rx) = channel();
    drop(rx);
    let context = trail(&[ContextType::IPCServer]);
    let sender = SenderWithContext::new(context, SenderType::Sender(tx));
    let SendError((event, returned)) = sender.send(17u32).unwrap_err();
    assert_eq!(event, 17);
    assert_eq!(returned.calls(), vec![ContextType::IPCServer]);
}

#[test]
fn refused_message_comes_back_from_a_bounded_channel() {
    let (tx, rx) = sync_channel(0);
    drop(rx);
    let context = trail(&[ContextType::IPCServer]);
    let sender = SenderWithContext::new(context, SenderType::SyncSender(tx));
    let SendError((event, returned)) = sender.send(17u32).unwrap_err();
    assert_eq!(event, 17);
    assert_eq!(returned.calls(), vec![ContextType::IPCServer]);
}

#[test]
fn copy_of_a_sender_feeds_the_same_channel_with_the_same_trail() {
    let (tx, rx) = channel();
    let context = trail(&[ContextType::IPCServer]);
    let first_half = SenderWithContext::new(context, SenderType::Sender(tx));
    let mut copy = first_half.clone();
    copy.send(1u8).unwrap();
    copy.update(ErrorContext::new());
    first_half.send(2u8).unwrap();
    let (first, first_trail) = rx.recv().unwrap();
    let (second, second_trail) = rx.recv().unwrap();
    assert_eq!((first, second), (1, 2));
    assert_eq!(first_trail.calls(), vec![ContextType::IPCServer]);
    assert_eq!(second_trail.calls(), vec![ContextType::IPCServer]);

    let (tx, rx) = sync_channel(2);
    let first_half = SenderWithContext::new(context, SenderType::SyncSender(tx));
    first_half.clone().send(3u8).unwrap();
    assert_eq!(rx.recv().unwrap().0, 3);
}
