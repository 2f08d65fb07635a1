use scanline_sync::control::{Message, MessageChannel, Notification, NotificationChannel};
use scanline_sync::frame::FrameData;
use scanline_sync::backend::{Renderer2dKind, Renderer3dKind};
use scanline_sync::input::{Action, Changes};
use scanline_sync::options::Options;
use scanline_sync::presence::Presence;
use scanline_sync::session::{adjust_custom_sample_rate, ds_slot_has_ir, resolve_save_type, ActionOutcome, GameDbEntry, Session};
use scanline_sync::triple_buffer::init;

#[test]
fn command_queue_is_fifo() {
    let mut c = MessageChannel::new();
    assert_eq!(c.try_recv(), None);
    c.send(Message::Reset);
    c.send(Message::Stop);
    c.send(Message::UpdateSyncToAudio(true));
    assert_eq!(c.try_recv(), Some(Message::Reset));
    assert_eq!(c.try_recv(), Some(Message::Stop));
    assert_eq!(c.try_recv(), Some(Message::UpdateSyncToAudio(true)));
    assert_eq!(c.try_recv(), None);
}

#[test]
fn notification_queue_is_fifo() {
    let mut c = NotificationChannel::new();
    assert_eq!(c.try_recv(), None);
    c.send(Notification::RtcTimeOffsetSecondsUpdated(-3600));
    c.send(Notification::SavestateCreated(String::from("slot1")));
    assert_eq!(
        c.try_recv(),
        Some(Notification::RtcTimeOffsetSecondsUpdated(-3600))
    );
    assert_eq!(
        c.try_recv(),
        Some(Notification::SavestateCreated(String::from("slot1")))
    );
    assert_eq!(c.try_recv(), None);
}

#[test]
fn parameter_messages_carry_their_values() {
    let mut c = MessageChannel::new();
    c.send(Message::UpdateFramerateLimit(Some(1500)));
    c.send(Message::UpdateSavePath(Some(String::from("saves/game.sav"))));
    c.send(Message::UpdateRtcTimeOffsetSeconds(-42));
    assert_eq!(c.try_recv(), Some(Message::UpdateFramerateLimit(Some(1500))));
    assert_eq!(
        c.try_recv(),
        Some(Message::UpdateSavePath(Some(String::from("saves/game.sav"))))
    );
    assert_eq!(c.try_recv(), Some(Message::UpdateRtcTimeOffsetSeconds(-42)));
}

#[test]
fn session_lifecycle() {
    let mut s = Session::new();
    assert!(!s.is_running());
    assert!(!s.playing());
    // lifecycle operations without a session do nothing
    s.play_pause();
    s.reset();
    assert!(!s.playing());

    s.start(String::from("Some Game"), true, false);
    assert!(s.is_running());
    assert!(s.playing());
    s.play_pause();
    assert!(!s.playing());
    s.play_pause();
    assert!(s.playing());
    s.reset();

    let mut frames = init(FrameData::cleared(), FrameData::cleared(), FrameData::cleared());
    frames.send(FrameData::cleared());
    let emu = s.stop(&mut frames);
    assert!(!s.is_running());
    // the teardown cleared all slots: nothing pending for the display
    assert!(frames.get().is_none());
    let mut emu = emu.expect("a session was running");
    assert_eq!(emu.recv_message(), Some(Message::Reset));
    assert_eq!(emu.recv_message(), Some(Message::Stop));
    assert_eq!(emu.recv_message(), None);
}

#[test]
fn stop_without_session_is_noop() {
    let mut s = Session::new();
    let mut frames = init(FrameData::cleared(), FrameData::cleared(), FrameData::cleared());
    assert!(s.stop(&mut frames).is_none());
}

#[test]
fn pause_on_launch_starts_paused() {
    let mut s = Session::new();
    s.start(String::from("Firmware"), false, true);
    assert!(s.is_running());
    assert!(!s.playing());
}

#[test]
fn notifications_flow_back() {
    let mut s = Session::new();
    s.start(String::from("Game"), true, false);
    let mut emu = s.stop_emu().expect("session was running");
    emu.send_notification(Notification::Stopped);
    emu.send_notification(Notification::SavestateFailed(String::from("slot2")));
    assert_eq!(emu.recv_notification(), Some(Notification::Stopped));
    assert_eq!(
        emu.recv_notification(),
        Some(Notification::SavestateFailed(String::from("slot2")))
    );
    assert_eq!(emu.recv_notification(), None);
    assert_eq!(emu.title().as_str(), "Game");
    assert!(emu.game_loaded());
}

#[test]
fn input_actions_dispatch() {
    let mut s = Session::new();
    s.start(String::from("G"), false, false);
    assert_eq!(s.apply_input_action(Action::PlayPause), ActionOutcome::Handled);
    assert!(!s.playing());
    assert_eq!(s.apply_input_action(Action::Reset), ActionOutcome::Handled);
    assert_eq!(s.apply_input_action(Action::Stop), ActionOutcome::RequestStop);
    // the stop itself is the caller's job: the session is still there
    assert!(s.is_running());
    assert_eq!(
        s.apply_input_action(Action::ToggleFramerateLimit),
        ActionOutcome::ToggleFramerateLimit
    );
    assert_eq!(
        s.apply_input_action(Action::ToggleSyncToAudio),
        ActionOutcome::ToggleSyncToAudio
    );
    assert_eq!(
        s.apply_input_action(Action::ToggleFullWindowScreen),
        ActionOutcome::ToggleFullWindowScreen
    );
}

#[test]
fn sample_rate_adjustment_values() {
    assert_eq!(adjust_custom_sample_rate(None), None);
    assert_eq!(adjust_custom_sample_rate(Some(1)), Some(1));
    assert_eq!(adjust_custom_sample_rate(Some(0)), Some(1));
    assert_eq!(adjust_custom_sample_rate(Some(32_768)), Some(32_823));
    assert_eq!(adjust_custom_sample_rate(Some(44_100)), Some(44_174));
    assert_eq!(adjust_custom_sample_rate(Some(48_000)), Some(48_081));
    assert_eq!(adjust_custom_sample_rate(Some(u32::MAX)), Some(u32::MAX));
}

#[test]
fn infrared_cartridges_by_game_code() {
    assert!(ds_slot_has_ir(0x0000_0049));
    assert!(ds_slot_has_ir(0xabcd_ef49));
    assert!(!ds_slot_has_ir(0x0000_0041));
    assert!(!ds_slot_has_ir(0x4900_0000));
}

#[test]
fn options_hold_the_rom_path() {
    let o = Options { rom: String::from("game.nds") };
    assert_eq!(o.rom.as_str(), "game.nds");
}

#[test]
fn presence_debounce() {
    let mut p = Presence::new();
    // nothing changed yet: nothing to transmit
    assert!(!p.flush());
    p.start("Some Game");
    assert_eq!(p.state().as_str(), "Playing Some Game");
    assert!(p.flush());
    // unchanged since the last flush: no retransmission
    assert!(!p.flush());
    p.stop();
    assert_eq!(p.state().as_str(), "Not playing anything");
    assert!(p.flush());
    assert!(!p.flush());
}

#[test]
fn save_type_resolution() {
    assert_eq!(resolve_save_type(None, 1024), (None, false));
    let entry = GameDbEntry { rom_size: 1024, save_type: 3 };
    assert_eq!(resolve_save_type(Some(entry), 1024), (Some(3), false));
    // a size mismatch is reported but the save type is still used
    assert_eq!(resolve_save_type(Some(entry), 2048), (Some(3), true));
}

#[test]
fn session_notifications_drained_by_ui() {
    let mut s = Session::new();
    assert_eq!(s.try_recv_notification(), None);
    s.start(String::from("Game"), true, false);
    assert_eq!(s.try_recv_notification(), None);
}

#[test]
fn every_command_kind_round_trips() {
    let mut c = MessageChannel::new();
    let all = vec![
        Message::Stop,
        Message::Reset,
        Message::UpdateInput(Changes { pressed: 1, released: 2, touch_pos: Some(None) }),
        Message::UpdateRenderers {
            renderer_2d_is_accel: true,
            renderer_2d: Renderer2dKind::WgpuLockstepScanlines,
            renderer_3d: Renderer3dKind::Wgpu,
        },
        Message::UpdateFramerateLimit(None),
        Message::UpdatePausedFramerateLimit(10_000),
        Message::UpdateSavePath(None),
        Message::UpdateSaveIntervalMs(1_000),
        Message::UpdateRtcTimeOffsetSeconds(7),
        Message::UpdateSyncToAudio(false),
        Message::UpdateAudioSampleChunkSize(512),
        Message::UpdateAudioCustomSampleRate(Some(32_823)),
        Message::ToggleAudioInput(true),
        Message::CreateSavestate(String::from("a")),
        Message::ApplySavestate(String::from("a")),
    ];
    for m in &all {
        c.send(m.clone());
    }
    for m in &all {
        assert_eq!(c.try_recv().as_ref(), Some(m));
    }
    assert_eq!(c.try_recv(), None);
}

#[test]
fn every_notification_kind_round_trips() {
    let mut c = NotificationChannel::new();
    let all = vec![
        Notification::Stopped,
        Notification::RtcTimeOffsetSecondsUpdated(-1),
        Notification::SavestateCreated(String::from("b")),
        Notification::SavestateFailed(String::from("b")),
        Notification::Diagnostics(vec![1, 2, 3]),
    ];
    for n in &all {
        c.send(n.clone());
    }
    for n in &all {
        assert_eq!(c.try_recv().as_ref(), Some(n));
    }
    assert_eq!(c.try_recv(), None);
}
