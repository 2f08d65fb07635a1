//! The control thread's view of an emulation session: whether one is running
//! and playing, its command and notification queues, and the lifecycle
//! decisions (play/pause, reset, stop) the UI drives. Thread creation and
//! joining, file dialogs and configuration files stay with the host layer;
//! what is decided here is decided exactly.

use vstd::prelude::*;

use crate::control::{message_queue, notification_queue, Message, MessageChannel,
    Notification, NotificationChannel};
use crate::frame::{FrameData, FRAMEBUFFER_LEN};
use crate::input::Action;
use crate::triple_buffer::{tb_wf, TripleBuffer};

verus! {

/// Numerator of the mixer-rate ratio: the nominal output rate, 32768 Hz,
/// scaled by 128.
pub const SAMPLE_RATE_ADJUSTMENT_NUM: u64 = 4194304;

/// Denominator of the mixer-rate ratio: the hardware's true mixer rate,
/// 32823.6328125 Hz, scaled by 128.
pub const SAMPLE_RATE_ADJUSTMENT_DEN: u64 = 4201425;

/// A configured sample rate divided by the nominal-to-true mixer-rate ratio,
/// clamped into `[1, u32::MAX]`.
pub open spec fn adjusted_sample_rate(rate: u32) -> u32 {
    let scaled = (rate as int) * (SAMPLE_RATE_ADJUSTMENT_DEN as int) / (
    SAMPLE_RATE_ADJUSTMENT_NUM as int);
    if scaled < 1 {
        1u32
    } else if scaled > u32::MAX {
        u32::MAX
    } else {
        scaled as u32
    }
}

/// Adjust a user-configured custom audio sample rate for the mixer-rate ratio,
/// so that the requested rate comes out of the resampler: the rate is divided
/// by the ratio of the nominal mixer rate to the true one, and kept at least
/// one.
pub fn adjust_custom_sample_rate(sample_rate: Option<u32>) -> (r: Option<u32>)
    ensures
        r is Some <==> sample_rate is Some,
        sample_rate is Some ==> r == Some(adjusted_sample_rate(sample_rate.unwrap())),
{
    match sample_rate {
        None => None,
        Some(rate) => {
            let scaled: u64 = (rate as u64) * SAMPLE_RATE_ADJUSTMENT_DEN
                / SAMPLE_RATE_ADJUSTMENT_NUM;
            let clamped: u32 = if scaled < 1 {
                1u32
            } else if scaled > 0xffff_ffffu64 {
                u32::MAX
            } else {
                scaled as u32
            };
            Some(clamped)
        },
    }
}

/// Whether a cartridge, identified by its game code, carries an infrared port:
/// the code's lowest byte is ASCII `I`.
pub fn ds_slot_has_ir(game_code: u32) -> (r: bool)
    ensures
        r <==> game_code & 0xff == 0x49,
{
    game_code & 0xff == 0x49
}

/// What the game database knows about a cartridge: the ROM size it expects and
/// the save-memory kind, an opaque code of the database's.
#[derive(Clone, Copy, PartialEq, Eq, Structural, Debug)]
pub struct GameDbEntry {
    pub rom_size: u64,
    pub save_type: u8,
}

/// Choose the save-memory kind for a loaded ROM from its database entry, if it
/// has one, and say whether the ROM's actual size contradicts the database
/// (which deserves a warning but not a refusal).
pub fn resolve_save_type(entry: Option<GameDbEntry>, rom_len: u64) -> (r: (Option<u8>, bool))
    ensures
        match entry {
            None => r.0 is None && !r.1,
            Some(e) => r.0 == Some(e.save_type) && (r.1 <==> e.rom_size != rom_len),
        },
{
    match entry {
        None => (None, false),
        Some(e) => (Some(e.save_type), e.rom_size != rom_len),
    }
}

/// A frame as the display shows it when no session runs: everything zero.
pub open spec fn cleared_frame(f: FrameData) -> bool {
    &&& f.fb.len() == FRAMEBUFFER_LEN
    &&& forall|i: int| 0 <= i < FRAMEBUFFER_LEN ==> f.fb[i] == 0u32
    &&& f.fps_milli == 0
    &&& f.diagnostics.len() == 0
}

/// One running emulation session as the control thread holds it. The session's
/// own thread, audio streams and renderer data live with the host layer; here
/// are its switches and its two queues.
pub struct EmuSession {
    playing: bool,
    title: String,
    game_loaded: bool,
    to_emu: MessageChannel,
    from_emu: NotificationChannel,
}

impl EmuSession {
    /// Whether emulation advances (as opposed to being paused).
    pub closed spec fn playing_spec(&self) -> bool {
        self.playing
    }

    /// The loaded game's title, or the firmware's.
    pub closed spec fn title_spec(&self) -> Seq<char> {
        self.title@
    }

    /// Whether a game is loaded (as opposed to bare firmware).
    pub closed spec fn game_loaded_spec(&self) -> bool {
        self.game_loaded
    }

    /// The commands queued towards the timing thread, oldest first.
    pub closed spec fn queue_spec(&self) -> Seq<Message> {
        message_queue(self.to_emu)
    }

    /// The notifications queued back, oldest first.
    pub closed spec fn notifications_spec(&self) -> Seq<Notification> {
        notification_queue(self.from_emu)
    }

    /// Queue a command to the timing thread.
    pub fn send_message(&mut self, message: Message)
        ensures
            final(self).queue_spec() == old(self).queue_spec().push(message),
            final(self).playing_spec() == old(self).playing_spec(),
            final(self).title_spec() == old(self).title_spec(),
            final(self).game_loaded_spec() == old(self).game_loaded_spec(),
            final(self).notifications_spec() == old(self).notifications_spec(),
    {
        self.to_emu.send(message);
    }

    /// Take the oldest queued command (the timing thread's side).
    pub fn recv_message(&mut self) -> (r: Option<Message>)
        ensures
            old(self).queue_spec().len() == 0 ==> r is None && final(self).queue_spec() == old(self).queue_spec(),
            old(self).queue_spec().len() > 0 ==> r == Some(old(self).queue_spec()[0]) && final(self).queue_spec() == old(self).queue_spec().subrange(
                1,
                old(self).queue_spec().len() as int,
            ),
            final(self).playing_spec() == old(self).playing_spec(),
            final(self).title_spec() == old(self).title_spec(),
            final(self).game_loaded_spec() == old(self).game_loaded_spec(),
            final(self).notifications_spec() == old(self).notifications_spec(),
    {
        self.to_emu.try_recv()
    }

    /// Queue a notification back to the control thread (the timing thread's
    /// side).
    pub fn send_notification(&mut self, notification: Notification)
        ensures
            final(self).notifications_spec() == old(self).notifications_spec().push(notification),
            final(self).playing_spec() == old(self).playing_spec(),
            final(self).title_spec() == old(self).title_spec(),
            final(self).game_loaded_spec() == old(self).game_loaded_spec(),
            final(self).queue_spec() == old(self).queue_spec(),
    {
        self.from_emu.send(notification);
    }

    /// Take the oldest queued notification, if any.
    pub fn recv_notification(&mut self) -> (r: Option<Notification>)
        ensures
            old(self).notifications_spec().len() == 0 ==> r is None && final(self).notifications_spec() == old(self).notifications_spec(),
            old(self).notifications_spec().len() > 0 ==> r == Some(
                old(self).notifications_spec()[0],
            ) && final(self).notifications_spec() == old(self).notifications_spec().subrange(
                1,
                old(self).notifications_spec().len() as int,
            ),
            final(self).playing_spec() == old(self).playing_spec(),
            final(self).title_spec() == old(self).title_spec(),
            final(self).game_loaded_spec() == old(self).game_loaded_spec(),
            final(self).queue_spec() == old(self).queue_spec(),
    {
        self.from_emu.try_recv()
    }

    /// Whether emulation advances.
    pub fn playing(&self) -> (r: bool)
        ensures
            r == self.playing_spec(),
    {
        self.playing
    }

    /// Whether a game is loaded.
    pub fn game_loaded(&self) -> (r: bool)
        ensures
            r == self.game_loaded_spec(),
    {
        self.game_loaded
    }

    /// The loaded game's title.
    pub fn title(&self) -> (r: &String)
        ensures
            r@ == self.title_spec(),
    {
        &self.title
    }
}

/// What the UI must do after a hotkey action was applied.
#[derive(Clone, Copy, PartialEq, Eq, Structural, Debug)]
pub enum ActionOutcome {
    /// Nothing further: the session absorbed the action.
    Handled,
    /// Tear the session down (the caller owns the triple buffer to clear).
    RequestStop,
    /// Flip the framerate-limit switch in the configuration.
    ToggleFramerateLimit,
    /// Flip the sync-to-audio switch in the configuration.
    ToggleSyncToAudio,
    /// Flip the full-window-screen switch in the configuration.
    ToggleFullWindowScreen,
}

/// The control thread's session slot: no session, or one running.
pub struct Session {
    emu: Option<EmuSession>,
}

impl Session {
    /// Whether a session is running.
    pub closed spec fn has_session(&self) -> bool {
        self.emu is Some
    }

    /// The running session.
    pub closed spec fn session_spec(&self) -> EmuSession {
        self.emu.unwrap()
    }

    /// No session yet.
    pub fn new() -> (r: Session)
        ensures
            !r.has_session(),
    {
        Session { emu: None }
    }

    /// Whether a session is running.
    pub fn is_running(&self) -> (r: bool)
        ensures
            r == self.has_session(),
    {
        matches!(self.emu, Some(_))
    }

    /// Launch a session: it starts playing unless the configuration asks to
    /// pause on launch, and it begins with empty queues. The caller spawns the
    /// emulation thread around the session's queues.
    pub fn start(&mut self, title: String, game_loaded: bool, pause_on_launch: bool)
        ensures
            final(self).has_session(),
            final(self).session_spec().playing_spec() == !pause_on_launch,
            final(self).session_spec().title_spec() == title@,
            final(self).session_spec().game_loaded_spec() == game_loaded,
            final(self).session_spec().queue_spec().len() == 0,
            final(self).session_spec().notifications_spec().len() == 0,
    {
        self.emu = Some(
            EmuSession {
                playing: !pause_on_launch,
                title,
                game_loaded,
                to_emu: MessageChannel::new(),
                from_emu: NotificationChannel::new(),
            },
        );
    }

    /// Toggle between playing and paused; without a session, do nothing.
    pub fn play_pause(&mut self)
        ensures
            final(self).has_session() == old(self).has_session(),
            old(self).has_session() ==> {
                &&& final(self).session_spec().playing_spec() == !old(self).session_spec().playing_spec()
                &&& final(self).session_spec().title_spec() == old(self).session_spec().title_spec()
                &&& final(self).session_spec().game_loaded_spec() == old(self).session_spec().game_loaded_spec()
                &&& final(self).session_spec().queue_spec() == old(self).session_spec().queue_spec()
                &&& final(self).session_spec().notifications_spec() == old(self).session_spec().notifications_spec()
            },
            !old(self).has_session() ==> final(self).session_spec() == old(self).session_spec(),
    {
        match &mut self.emu {
            Some(emu) => {
                emu.playing = !emu.playing;
            },
            None => {},
        }
    }

    /// Queue a reset command; without a session, do nothing.
    pub fn reset(&mut self)
        ensures
            final(self).has_session() == old(self).has_session(),
            old(self).has_session() ==> {
                &&& final(self).session_spec().queue_spec() == old(self).session_spec().queue_spec().push(Message::Reset)
                &&& final(self).session_spec().playing_spec() == old(self).session_spec().playing_spec()
                &&& final(self).session_spec().title_spec() == old(self).session_spec().title_spec()
                &&& final(self).session_spec().game_loaded_spec() == old(self).session_spec().game_loaded_spec()
                &&& final(self).session_spec().notifications_spec() == old(self).session_spec().notifications_spec()
            },
            !old(self).has_session() ==> final(self).session_spec() == old(self).session_spec(),
    {
        match &mut self.emu {
            Some(emu) => {
                emu.send_message(Message::Reset);
            },
            None => {},
        }
    }

    /// Queue a command to the running session's timing thread; without a
    /// session, do nothing.
    pub fn send_message(&mut self, message: Message)
        ensures
            final(self).has_session() == old(self).has_session(),
            old(self).has_session() ==> {
                &&& final(self).session_spec().queue_spec() == old(
                    self,
                ).session_spec().queue_spec().push(message)
                &&& final(self).session_spec().playing_spec() == old(
                    self,
                ).session_spec().playing_spec()
                &&& final(self).session_spec().title_spec() == old(self).session_spec().title_spec()
                &&& final(self).session_spec().game_loaded_spec() == old(
                    self,
                ).session_spec().game_loaded_spec()
                &&& final(self).session_spec().notifications_spec() == old(
                    self,
                ).session_spec().notifications_spec()
            },
            !old(self).has_session() ==> final(self).session_spec() == old(self).session_spec(),
    {
        match &mut self.emu {
            Some(emu) => {
                emu.send_message(message);
            },
            None => {},
        }
    }

    /// Take the oldest notification the running session queued back, if any;
    /// the UI drains these once per frame.
    pub fn try_recv_notification(&mut self) -> (r: Option<Notification>)
        ensures
            final(self).has_session() == old(self).has_session(),
            !old(self).has_session() ==> r is None && final(self).session_spec() == old(
                self,
            ).session_spec(),
            old(self).has_session() ==> {
                &&& final(self).session_spec().playing_spec() == old(
                    self,
                ).session_spec().playing_spec()
                &&& final(self).session_spec().title_spec() == old(self).session_spec().title_spec()
                &&& final(self).session_spec().game_loaded_spec() == old(
                    self,
                ).session_spec().game_loaded_spec()
                &&& final(self).session_spec().queue_spec() == old(self).session_spec().queue_spec()
                &&& (old(self).session_spec().notifications_spec().len() == 0 ==> r is None
                    && final(self).session_spec().notifications_spec() == old(
                    self,
                ).session_spec().notifications_spec())
                &&& (old(self).session_spec().notifications_spec().len() > 0 ==> r == Some(
                    old(self).session_spec().notifications_spec()[0],
                ) && final(self).session_spec().notifications_spec() == old(
                    self,
                ).session_spec().notifications_spec().subrange(
                    1,
                    old(self).session_spec().notifications_spec().len() as int,
                ))
            },
    {
        match &mut self.emu {
            Some(emu) => emu.recv_notification(),
            None => None,
        }
    }

    /// Whether a session is running and playing.
    pub fn playing(&self) -> (r: bool)
        ensures
            r == (self.has_session() && self.session_spec().playing_spec()),
    {
        match &self.emu {
            Some(emu) => emu.playing,
            None => false,
        }
    }

    /// Tear the session out of its slot: queue the stop command on it and hand
    /// it to the caller, who drains it and joins the emulation thread. Without
    /// a session, nothing happens.
    pub fn stop_emu(&mut self) -> (r: Option<EmuSession>)
        ensures
            !final(self).has_session(),
            r is Some <==> old(self).has_session(),
            old(self).has_session() ==> {
                &&& r.unwrap().queue_spec() == old(self).session_spec().queue_spec().push(
                    Message::Stop,
                )
                &&& r.unwrap().playing_spec() == old(self).session_spec().playing_spec()
                &&& r.unwrap().title_spec() == old(self).session_spec().title_spec()
                &&& r.unwrap().game_loaded_spec() == old(self).session_spec().game_loaded_spec()
                &&& r.unwrap().notifications_spec() == old(self).session_spec().notifications_spec()
            },
    {
        let mut taken: Option<EmuSession> = None;
        core::mem::swap(&mut self.emu, &mut taken);
        match taken {
            Some(mut emu) => {
                emu.send_message(Message::Stop);
                Some(emu)
            },
            None => None,
        }
    }

    /// Full teardown as the UI performs it: stop the session and clear all
    /// three display-frame slots, so the screen goes blank and no stale frame
    /// is ever shown again. The caller still joins the emulation thread of the
    /// returned session.
    pub fn stop(&mut self, frames: &mut TripleBuffer<FrameData>) -> (r: Option<EmuSession>)
        requires
            tb_wf(old(frames)@),
        ensures
            !final(self).has_session(),
            r is Some <==> old(self).has_session(),
            old(self).has_session() ==> r.unwrap().queue_spec() == old(self).session_spec().queue_spec().push(Message::Stop),
            tb_wf(final(frames)@),
            !final(frames)@.dirty,
            final(frames)@.published is None,
            forall|s: int| 0 <= s < 3 ==> cleared_frame(#[trigger] final(frames)@.slots[s]),
    {
        let r = self.stop_emu();
        frames.reset(FrameData::cleared(), FrameData::cleared(), FrameData::cleared());
        r
    }

    /// Apply one hotkey action: play/pause and reset are absorbed here; stop
    /// and the configuration toggles are handed back to the caller, who owns
    /// the triple buffer and the configuration.
    pub fn apply_input_action(&mut self, action: Action) -> (outcome: ActionOutcome)
        ensures
            match action {
                Action::PlayPause => outcome == ActionOutcome::Handled && final(self).has_session()
                    == old(self).has_session() && (old(self).has_session() ==> final(self).session_spec().playing_spec() == !old(self).session_spec().playing_spec()),
                Action::Reset => outcome == ActionOutcome::Handled && final(self).has_session()
                    == old(self).has_session() && (old(self).has_session() ==> final(self).session_spec().queue_spec() == old(self).session_spec().queue_spec().push(
                    Message::Reset,
                )),
                Action::Stop => outcome == ActionOutcome::RequestStop && *final(self) == *old(self),
                Action::ToggleFramerateLimit => outcome == ActionOutcome::ToggleFramerateLimit
                    && *final(self) == *old(self),
                Action::ToggleSyncToAudio => outcome == ActionOutcome::ToggleSyncToAudio && *final(self) == *old(self),
                Action::ToggleFullWindowScreen => outcome == ActionOutcome::ToggleFullWindowScreen
                    && *final(self) == *old(self),
            },
    {
        match action {
            Action::PlayPause => {
                self.play_pause();
                ActionOutcome::Handled
            },
            Action::Reset => {
                self.reset();
                ActionOutcome::Handled
            },
            Action::Stop => ActionOutcome::RequestStop,
            Action::ToggleFramerateLimit => ActionOutcome::ToggleFramerateLimit,
            Action::ToggleSyncToAudio => ActionOutcome::ToggleSyncToAudio,
            Action::ToggleFullWindowScreen => ActionOutcome::ToggleFullWindowScreen,
        }
    }
}

} // verus!
