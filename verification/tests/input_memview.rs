use scanline_sync::input::{Action, State, TouchPos};
use scanline_sync::memview::{
    align_visible_addrs, displayed_byte, visible_word_count, AddrRange, CpuMemory, EmuState,
    MemContents, Message,
};

#[test]
fn hotkeys_fire_once_per_press() {
    let mut st = State::new();
    let held = vec![(Action::PlayPause, true), (Action::Reset, false)];
    let (acts, changes) = st.drain_changes(&held, 0, false);
    assert_eq!(acts, vec![Action::PlayPause]);
    assert!(changes.is_none());
    // still held: the action does not repeat
    let (acts2, _) = st.drain_changes(&held, 0, false);
    assert!(acts2.is_empty());
    // released, then pressed again: it fires again
    let released = vec![(Action::PlayPause, false)];
    let (acts3, _) = st.drain_changes(&released, 0, false);
    assert!(acts3.is_empty());
    let (acts4, _) = st.drain_changes(&held, 0, false);
    assert_eq!(acts4, vec![Action::PlayPause]);
}

#[test]
fn hotkeys_fire_in_binding_order() {
    let mut st = State::new();
    let held = vec![
        (Action::ToggleSyncToAudio, true),
        (Action::Stop, true),
        (Action::ToggleFullWindowScreen, false),
        (Action::Reset, true),
    ];
    let (acts, _) = st.drain_changes(&held, 0, false);
    assert_eq!(acts, vec![Action::ToggleSyncToAudio, Action::Stop, Action::Reset]);
}

#[test]
fn key_changes_reported_only_when_playing() {
    let mut st = State::new();
    let no_hotkeys: Vec<(Action, bool)> = Vec::new();
    let (_, changes) = st.drain_changes(&no_hotkeys, 0b11, false);
    assert!(changes.is_none());
    let (_, changes) = st.drain_changes(&no_hotkeys, 0b11, true);
    let c = changes.expect("keys went down");
    assert_eq!(c.pressed, 0b11);
    assert_eq!(c.released, 0);
    assert_eq!(c.touch_pos, None);
    let (_, changes) = st.drain_changes(&no_hotkeys, 0b10, true);
    let c = changes.expect("a key went up");
    assert_eq!(c.pressed, 0);
    assert_eq!(c.released, 0b01);
    // nothing changed since: no report
    let (_, changes) = st.drain_changes(&no_hotkeys, 0b10, true);
    assert!(changes.is_none());
}

#[test]
fn touch_changes_reported() {
    let mut st = State::new();
    let no_hotkeys: Vec<(Action, bool)> = Vec::new();
    st.set_touch_pos(Some(TouchPos { x: 100, y: 200 }));
    let (_, changes) = st.drain_changes(&no_hotkeys, 0, true);
    assert_eq!(
        changes.expect("the stylus touched").touch_pos,
        Some(Some(TouchPos { x: 100, y: 200 }))
    );
    let (_, changes) = st.drain_changes(&no_hotkeys, 0, true);
    assert!(changes.is_none());
    st.set_touch_pos(None);
    let (_, changes) = st.drain_changes(&no_hotkeys, 0, true);
    assert_eq!(changes.expect("the stylus lifted").touch_pos, Some(None));
}

#[test]
fn displayed_byte_little_endian() {
    let c = MemContents {
        visible_addrs: AddrRange { start: 0x100, end: 0x107 },
        data: vec![0x4433_2211, 0x8877_6655],
    };
    assert_eq!(displayed_byte(&c, 0x100), Some(0x11));
    assert_eq!(displayed_byte(&c, 0x101), Some(0x22));
    assert_eq!(displayed_byte(&c, 0x102), Some(0x33));
    assert_eq!(displayed_byte(&c, 0x103), Some(0x44));
    assert_eq!(displayed_byte(&c, 0x104), Some(0x55));
    assert_eq!(displayed_byte(&c, 0x107), Some(0x88));
    assert_eq!(displayed_byte(&c, 0x0ff), None);
    assert_eq!(displayed_byte(&c, 0x108), None);
}

#[test]
fn displayed_byte_outside_prepared_window_is_none() {
    let c = MemContents {
        visible_addrs: AddrRange { start: 0, end: 0xff },
        data: vec![0xaabb_ccdd],
    };
    assert_eq!(displayed_byte(&c, 0x00), Some(0xdd));
    assert_eq!(displayed_byte(&c, 0x03), Some(0xaa));
    // in range, but its word was never prepared
    assert_eq!(displayed_byte(&c, 0x04), None);
}

#[test]
fn ranges_align_to_whole_words() {
    let a = align_visible_addrs(AddrRange { start: 0x101, end: 0x105 });
    assert_eq!(a, AddrRange { start: 0x100, end: 0x108 });
    assert_eq!(visible_word_count(&a), 3);
    let b = align_visible_addrs(AddrRange { start: 0x100, end: 0x104 });
    assert_eq!(b, AddrRange { start: 0x100, end: 0x104 });
    assert_eq!(visible_word_count(&b), 2);
}

#[test]
fn emu_state_messages_and_frame_data() {
    let mut es: EmuState<true> = EmuState::new(AddrRange { start: 0x100, end: 0x108 });
    assert_eq!(
        es.handle_message(Message::Write { addr: 0x55, value: 7 }),
        Some((0x55, 7))
    );
    assert_eq!(es.visible_addrs(), AddrRange { start: 0x100, end: 0x108 });
    assert_eq!(
        es.handle_message(Message::UpdateVisibleAddrs(AddrRange { start: 0, end: 4 })),
        None
    );
    assert_eq!(es.visible_addrs(), AddrRange { start: 0, end: 4 });
    let words = vec![1u32, 2];
    let mut fd = MemContents { visible_addrs: AddrRange { start: 0, end: 0 }, data: Vec::new() };
    es.prepare_frame_data(&mut fd, &words);
    assert_eq!(fd.data, vec![1, 2]);
    assert_eq!(fd.visible_addrs, AddrRange { start: 0, end: 4 });
}

#[test]
fn cpu_memory_view_roundtrip() {
    let mut v: CpuMemory<false> = CpuMemory::new();
    assert_eq!(v.emu_state(), AddrRange { start: 0, end: 0 });
    let fd = MemContents {
        visible_addrs: AddrRange { start: 0x10, end: 0x17 },
        data: vec![0x0403_0201, 0x0807_0605],
    };
    v.update_from_frame_data(&fd);
    assert_eq!(v.displayed_byte_at(0x10), Some(1));
    assert_eq!(v.displayed_byte_at(0x13), Some(4));
    assert_eq!(v.displayed_byte_at(0x17), Some(8));
    assert_eq!(v.displayed_byte_at(0x18), None);
    let msg = v.note_visible_addrs(AddrRange { start: 0x20, end: 0x28 });
    assert_eq!(
        msg,
        Some(Message::UpdateVisibleAddrs(AddrRange { start: 0x20, end: 0x28 }))
    );
    assert_eq!(v.emu_state(), AddrRange { start: 0x20, end: 0x28 });
    // unchanged range: no message
    assert_eq!(v.note_visible_addrs(AddrRange { start: 0x20, end: 0x28 }), None);
}
