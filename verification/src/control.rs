//! Control channel between the control/UI thread and the timing (emulation)
//! thread: an ordered, unbounded queue of commands in one direction and of
//! notifications in the other. No back-pressure: a send never waits, and
//! within each direction delivery is first-in first-out.
//!
//! The queues themselves are `crossbeam_channel` unbounded channels; each is
//! held with both of its endpoints and specified by the sequence of messages
//! in flight.

use vstd::prelude::*;

use crate::backend::{Renderer2dKind, Renderer3dKind};
use crate::input::Changes;

verus! {

/// Commands the control thread sends to the timing thread.
#[derive(Clone, Debug, PartialEq)]
pub enum Message {
    /// Tear the emulation session down; answered by [`Notification::Stopped`].
    Stop,
    /// Reset the emulated machine.
    Reset,
    /// The player's input changed.
    UpdateInput(Changes),
    /// Swap the renderer backends; the new configuration, already resolved.
    UpdateRenderers {
        renderer_2d_is_accel: bool,
        renderer_2d: Renderer2dKind,
        renderer_3d: Renderer3dKind,
    },
    /// Limit the emulation rate to this ratio of real speed, in thousandths,
    /// or run unlimited.
    UpdateFramerateLimit(Option<u32>),
    /// Frame-rate limit while paused, in thousandths of a frame per second.
    UpdatePausedFramerateLimit(u32),
    /// Where to persist save data, if anywhere.
    UpdateSavePath(Option<String>),
    /// How often to flush save data, in milliseconds.
    UpdateSaveIntervalMs(u32),
    /// Offset of the emulated real-time clock from the host clock, in seconds.
    UpdateRtcTimeOffsetSeconds(i64),
    /// Whether emulation speed is slaved to audio consumption.
    UpdateSyncToAudio(bool),
    /// Audio samples per mixing chunk.
    UpdateAudioSampleChunkSize(u32),
    /// Custom audio output sample rate, already adjusted, if one is set.
    UpdateAudioCustomSampleRate(Option<u32>),
    /// Enable or disable microphone input.
    ToggleAudioInput(bool),
    /// Create a savestate under this name.
    CreateSavestate(String),
    /// Apply the savestate of this name.
    ApplySavestate(String),
}

/// Notifications the timing thread sends back to the control thread.
#[derive(Clone, Debug, PartialEq)]
pub enum Notification {
    /// The session finished tearing down.
    Stopped,
    /// The emulated real-time clock offset changed from inside the emulation.
    RtcTimeOffsetSecondsUpdated(i64),
    /// The savestate of this name was created.
    SavestateCreated(String),
    /// Creating the savestate of this name failed.
    SavestateFailed(String),
    /// Periodic diagnostic payload.
    Diagnostics(Vec<u8>),
}

/// The command queue, held with both endpoints: the control thread keeps the
/// sending half, the timing thread the receiving half.
#[verifier::external_body]
pub struct MessageChannel {
    tx: crossbeam_channel::Sender<Message>,
    rx: crossbeam_channel::Receiver<Message>,
}

/// The commands in flight, oldest first.
pub uninterp spec fn message_queue(c: MessageChannel) -> Seq<Message>;

impl MessageChannel {
    /// A fresh, empty command queue.
    ///
    /// Relies on `crossbeam_channel::unbounded`: a new channel holds no
    /// messages.
    #[verifier::external_body]
    pub fn new() -> (c: Self)
        ensures
            message_queue(c) == Seq::<Message>::empty(),
    {
        let (tx, rx) = crossbeam_channel::unbounded();
        MessageChannel { tx, rx }
    }

    /// Queue a command. Never waits: the channel is unbounded.
    ///
    /// Relies on `crossbeam_channel::Sender::send`: on an unbounded channel it
    /// appends the message and fails only when every receiver is dropped,
    /// which cannot happen here because this value owns the receiver.
    #[verifier::external_body]
    pub fn send(&mut self, message: Message)
        ensures
            message_queue(*final(self)) == message_queue(*old(self)).push(message),
    {
        let _ = self.tx.send(message);
    }

    /// Take the oldest queued command, if any. Never waits.
    ///
    /// Relies on `crossbeam_channel::Receiver::try_recv`: it returns the
    /// earliest message sent and not yet received, or an error when the
    /// channel is empty.
    #[verifier::external_body]
    pub fn try_recv(&mut self) -> (r: Option<Message>)
        ensures
            message_queue(*old(self)).len() == 0 ==> r is None && message_queue(*final(self))
                == message_queue(*old(self)),
            message_queue(*old(self)).len() > 0 ==> r == Some(message_queue(*old(self))[0])
                && message_queue(*final(self)) == message_queue(*old(self)).subrange(
                1,
                message_queue(*old(self)).len() as int,
            ),
    {
        match self.rx.try_recv() {
            Ok(m) => Some(m),
            Err(_) => None,
        }
    }
}

/// The notification queue, the mirror image of [`MessageChannel`]: the timing
/// thread keeps the sending half, the control thread the receiving half.
#[verifier::external_body]
pub struct NotificationChannel {
    tx: crossbeam_channel::Sender<Notification>,
    rx: crossbeam_channel::Receiver<Notification>,
}

/// The notifications in flight, oldest first.
pub uninterp spec fn notification_queue(c: NotificationChannel) -> Seq<Notification>;

impl NotificationChannel {
    /// A fresh, empty notification queue.
    ///
    /// Relies on `crossbeam_channel::unbounded`: a new channel holds no
    /// messages.
    #[verifier::external_body]
    pub fn new() -> (c: Self)
        ensures
            notification_queue(c) == Seq::<Notification>::empty(),
    {
        let (tx, rx) = crossbeam_channel::unbounded();
        NotificationChannel { tx, rx }
    }

    /// Queue a notification. Never waits: the channel is unbounded.
    ///
    /// Relies on `crossbeam_channel::Sender::send`, as in
    /// [`MessageChannel::send`].
    #[verifier::external_body]
    pub fn send(&mut self, notification: Notification)
        ensures
            notification_queue(*final(self)) == notification_queue(*old(self)).push(notification),
    {
        let _ = self.tx.send(notification);
    }

    /// Take the oldest queued notification, if any. Never waits.
    ///
    /// Relies on `crossbeam_channel::Receiver::try_recv`, as in
    /// [`MessageChannel::try_recv`].
    #[verifier::external_body]
    pub fn try_recv(&mut self) -> (r: Option<Notification>)
        ensures
            notification_queue(*old(self)).len() == 0 ==> r is None && notification_queue(
                *final(self),
            ) == notification_queue(*old(self)),
            notification_queue(*old(self)).len() > 0 ==> r == Some(
                notification_queue(*old(self))[0],
            ) && notification_queue(*final(self)) == notification_queue(*old(self)).subrange(
                1,
                notification_queue(*old(self)).len() as int,
            ),
    {
        match self.rx.try_recv() {
            Ok(n) => Some(n),
            Err(_) => None,
        }
    }
}

} // verus!
