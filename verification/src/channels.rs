//! Channels whose messages carry the trail of the calls that led to them.
//!
//! The channels themselves are those of `std::sync::mpsc`. In contracts the
//! value of a sending half stands for the channel that it feeds.
//!
//! How often something is sent shows in no value, so it is kept in the types. A
//! function that sends takes an [`Outlet`], which is used up by the one message that
//! it takes; what it is made of, and so any other way to send, is out of reach. A
//! function that only changes a trail takes something [`Trailed`], through which
//! nothing can be sent. Nothing is asked of what is sent, least of all that it can be
//! cloned, so that no sender can send an event twice.

use vstd::prelude::*;

use crate::errors::ErrorContext;

verus! {

/// `Sender`, the sending half of a channel without a bound: carried, not looked into.
#[verifier::external_type_specification]
#[verifier::external_body]
#[verifier::reject_recursive_types(T)]
pub struct ExSender<T>(std::sync::mpsc::Sender<T>);

/// `SyncSender`, the sending half of a bounded channel: carried, not looked into.
#[verifier::external_type_specification]
#[verifier::external_body]
#[verifier::reject_recursive_types(T)]
pub struct ExSyncSender<T>(std::sync::mpsc::SyncSender<T>);

/// `Sender::clone` gives another sending half of the same channel.
pub assume_specification<T>[ <std::sync::mpsc::Sender<T> as Clone>::clone ](
    half: &std::sync::mpsc::Sender<T>,
) -> (copy: std::sync::mpsc::Sender<T>)
    ensures
        copy == *half,
;

/// `SyncSender::clone` gives another sending half of the same channel.
pub assume_specification<T>[ <std::sync::mpsc::SyncSender<T> as Clone>::clone ](
    half: &std::sync::mpsc::SyncSender<T>,
) -> (copy: std::sync::mpsc::SyncSender<T>)
    ensures
        copy == *half,
;

/// `Sender::send`: puts `message` on a channel without a bound. Whether the
/// other end is still there is not for the caller to know; where it is gone, the
/// message comes back as it was.
#[verifier::external_body]
pub(crate) fn send_unbounded<M>(half: &std::sync::mpsc::Sender<M>, message: M) -> (outcome: Result<(), M>)
    ensures
        outcome matches Err(returned) ==> returned == message,
{
    half.send(message).map_err(|refused| refused.0)
}

/// `SyncSender::send`: puts `message` on a bounded channel, waiting until there
/// is room or, with a bound of zero, until it is taken. Whether the other end is
/// still there is not for the caller to know; where it is gone, the message comes
/// back as it was.
#[verifier::external_body]
pub(crate) fn send_bounded<M>(half: &std::sync::mpsc::SyncSender<M>, message: M) -> (outcome: Result<(), M>)
    ensures
        outcome matches Err(returned) ==> returned == message,
{
    half.send(message).map_err(|refused| refused.0)
}

/// A message that could not be sent, since nobody is left to receive it.
#[derive(Debug)]
pub struct SendError<M>(pub M);

/// The sending half of a channel of either kind.
#[verifier::reject_recursive_types(T)]
pub enum SenderType<T> {
    Sender(std::sync::mpsc::Sender<(T, ErrorContext)>),
    SyncSender(std::sync::mpsc::SyncSender<(T, ErrorContext)>),
}

impl<T> SenderType<T> {
    /// `outcome` is what the channel itself gave when `message` was put on it. There
    /// is no coming by this but by putting the message on the channel.
    pub closed spec fn took(
        self,
        message: (T, ErrorContext),
        outcome: Result<(), SendError<(T, ErrorContext)>>,
    ) -> bool {
        let given: Result<(), (T, ErrorContext)> = match outcome {
            Ok(done) => Ok(done),
            Err(refused) => Err(refused.0),
        };
        match self {
            SenderType::Sender(half) => call_ensures(
                send_unbounded::<(T, ErrorContext)>,
                (&half, message),
                given,
            ),
            SenderType::SyncSender(half) => call_ensures(
                send_bounded::<(T, ErrorContext)>,
                (&half, message),
                given,
            ),
        }
    }
}

impl<T> Clone for SenderType<T> {
    fn clone(&self) -> (copy: Self)
        ensures
            copy == *self,
    {
        match self {
            SenderType::Sender(half) => SenderType::Sender(half.clone()),
            SenderType::SyncSender(half) => SenderType::SyncSender(half.clone()),
        }
    }
}

/// A sending half that puts its trail on every message.
#[verifier::reject_recursive_types(T)]
pub struct SenderWithContext<T> {
    err_ctx: ErrorContext,
    sender: SenderType<T>,
}

impl<T> SenderWithContext<T> {
    /// The trail that the next message will carry.
    pub closed spec fn context(self) -> ErrorContext {
        self.err_ctx
    }

    /// The channel that the messages go to.
    pub closed spec fn channel(self) -> SenderType<T> {
        self.sender
    }

    /// A sender of messages that carry `err_ctx`.
    pub fn new(err_ctx: ErrorContext, sender: SenderType<T>) -> (created: Self)
        ensures
            created.context() == err_ctx,
            created.channel() == sender,
    {
        Self { err_ctx, sender }
    }

    /// Sends `event` with the current trail. The outcome is the channel's own; a
    /// message that nobody can receive comes back, event and trail.
    pub fn send(&self, event: T) -> (outcome: Result<(), SendError<(T, ErrorContext)>>)
        ensures
            self.channel().took((event, self.context()), outcome),
            outcome matches Err(refused) ==> refused.0 == (event, self.context()),
    {
        let message = (event, self.err_ctx);
        let given = match &self.sender {
            SenderType::Sender(half) => send_unbounded(half, message),
            SenderType::SyncSender(half) => send_bounded(half, message),
        };
        match given {
            Ok(done) => Ok(done),
            Err(returned) => Err(SendError(returned)),
        }
    }

    /// Makes `new_ctx` the trail of the messages that follow.
    pub fn update(&mut self, new_ctx: ErrorContext)
        ensures
            final(self).context() == new_ctx,
            final(self).channel() == old(self).channel(),
    {
        self.err_ctx = new_ctx;
    }
}

impl<T> Clone for SenderWithContext<T> {
    fn clone(&self) -> (copy: Self)
        ensures
            copy == *self,
    {
        SenderWithContext { err_ctx: self.err_ctx, sender: self.sender.clone() }
    }
}

/// Something that takes one message, and is used up by it.
pub trait Outlet<T>: Sized {
    /// `outcome` is what came of it when `event` was sent through this outlet.
    spec fn put(self, event: T, outcome: Result<(), SendError<(T, ErrorContext)>>) -> bool;

    /// Sends `event`.
    fn deliver(self, event: T) -> (outcome: Result<(), SendError<(T, ErrorContext)>>)
        ensures
            self.put(event, outcome),
    ;
}

/// A sender is an outlet for one message at a time.
impl<'a, T> Outlet<T> for &'a SenderWithContext<T> {
    /// The channel was asked, with the event and the trail, and gave the outcome.
    open spec fn put(self, event: T, outcome: Result<(), SendError<(T, ErrorContext)>>) -> bool {
        &&& self.channel().took((event, self.context()), outcome)
        &&& outcome matches Err(refused) ==> refused.0 == (event, self.context())
    }

    fn deliver(self, event: T) -> (outcome: Result<(), SendError<(T, ErrorContext)>>) {
        self.send(event)
    }
}

/// An outlet through which nothing was sent, nor will be: it cannot be taken out.
pub struct Spared<O> {
    outlet: O,
}

impl<O> Spared<O> {
    /// The outlet that was spared.
    pub closed spec fn outlet(self) -> O {
        self.outlet
    }

    /// Puts `outlet` aside.
    pub fn new(outlet: O) -> (spared: Spared<O>)
        ensures
            spared.outlet() == outlet,
    {
        Spared { outlet }
    }
}

/// Something with a trail that can be changed, and nothing else be done with.
pub trait Trailed: Sized {
    /// What stays as it is when the trail changes.
    type Channel;

    /// The trail that the next message will carry.
    spec fn trail(self) -> ErrorContext;

    /// Where the messages go.
    spec fn target(self) -> Self::Channel;

    /// Makes `new_ctx` the trail of the messages that follow.
    fn retrail(&mut self, new_ctx: ErrorContext)
        ensures
            final(self).trail() == new_ctx,
            final(self).target() == old(self).target(),
    ;
}

impl<T> Trailed for SenderWithContext<T> {
    type Channel = SenderType<T>;

    open spec fn trail(self) -> ErrorContext {
        self.context()
    }

    open spec fn target(self) -> SenderType<T> {
        self.channel()
    }

    fn retrail(&mut self, new_ctx: ErrorContext) {
        self.update(new_ctx);
    }
}

/// A message that a channel refuses is given back unchanged.
pub proof fn lemma_refused_message_comes_back<T>(
    channel: SenderType<T>,
    message: (T, ErrorContext),
    refused: SendError<(T, ErrorContext)>,
)
    requires
        channel.took(message, Err(refused)),
    ensures
        refused.0 == message,
{
}

/// What a channel took, it was given: the outcome is that of its own `send`, called
/// with the message.
pub(crate) proof fn law_channel_was_given_what_it_took<T>(
    channel: SenderType<T>,
    message: (T, ErrorContext),
    outcome: Result<(), SendError<(T, ErrorContext)>>,
)
    requires
        channel.took(message, outcome),
    ensures
        ({
            let given = match outcome {
                Ok(done) => Ok(done),
                Err(refused) => Err(refused.0),
            };
            match channel {
                SenderType::Sender(half) => call_ensures(
                    send_unbounded::<(T, ErrorContext)>,
                    (&half, message),
                    given,
                ),
                SenderType::SyncSender(half) => call_ensures(
                    send_bounded::<(T, ErrorContext)>,
                    (&half, message),
                    given,
                ),
            }
        }),
{
}

} // verus!
