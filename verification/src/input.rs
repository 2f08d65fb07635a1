//! Input tracking: which emulated-pad keys are down, where the stylus is, and
//! which hotkey actions fired. The host half — key events, float touch-screen
//! geometry, the key-binding map — stays with the windowing layer; it hands in
//! plain values: the activation state of each bound hotkey and the bitmask of
//! activated pad keys.

use vstd::prelude::*;

verus! {

/// Actions a hotkey can trigger.
#[derive(Clone, Copy, PartialEq, Eq, Structural, Debug)]
pub enum Action {
    PlayPause,
    Reset,
    Stop,
    ToggleFramerateLimit,
    ToggleSyncToAudio,
    ToggleFullWindowScreen,
}

/// The bit an action occupies in the pressed-hotkey mask.
pub open spec fn action_bit(a: Action) -> u8 {
    match a {
        Action::PlayPause => 0x01,
        Action::Reset => 0x02,
        Action::Stop => 0x04,
        Action::ToggleFramerateLimit => 0x08,
        Action::ToggleSyncToAudio => 0x10,
        Action::ToggleFullWindowScreen => 0x20,
    }
}

/// The bit an action occupies in the pressed-hotkey mask.
pub fn action_bit_of(a: Action) -> (r: u8)
    ensures
        r == action_bit(a),
{
    match a {
        Action::PlayPause => 0x01,
        Action::Reset => 0x02,
        Action::Stop => 0x04,
        Action::ToggleFramerateLimit => 0x08,
        Action::ToggleSyncToAudio => 0x10,
        Action::ToggleFullWindowScreen => 0x20,
    }
}

/// A stylus position, in the hardware's touch coordinates.
#[derive(Clone, Copy, PartialEq, Eq, Structural, Debug)]
pub struct TouchPos {
    pub x: u16,
    pub y: u16,
}

/// What the emulation thread must learn after one input poll.
#[derive(Clone, Copy, PartialEq, Eq, Debug)]
pub struct Changes {
    /// Pad keys that went down since the last poll, as a bitmask.
    pub pressed: u16,
    /// Pad keys that went up since the last poll.
    pub released: u16,
    /// `None`: the stylus did not move. `Some(None)`: it lifted.
    /// `Some(Some(p))`: it touches at `p`.
    pub touch_pos: Option<Option<TouchPos>>,
}

/// Edge-detecting fold over the bound hotkeys, in order: an activated hotkey
/// whose bit is clear fires its action once and sets the bit; a released one
/// clears its bit. Yields the fired actions and the final mask.
pub open spec fn drain_hotkeys_spec(entries: Seq<(Action, bool)>, mask: u8) -> (Seq<Action>, u8)
    decreases entries.len(),
{
    if entries.len() == 0 {
        (Seq::<Action>::empty(), mask)
    } else {
        let a = entries[0].0;
        let activated = entries[0].1;
        let bit = action_bit(a);
        if activated {
            if mask & bit == 0 {
                let rest = drain_hotkeys_spec(entries.drop_first(), mask | bit);
                (seq![a] + rest.0, rest.1)
            } else {
                drain_hotkeys_spec(entries.drop_first(), mask)
            }
        } else {
            drain_hotkeys_spec(entries.drop_first(), mask & !bit)
        }
    }
}

/// Mathematical model of the input tracker.
#[verifier::ext_equal]
pub struct InputModel {
    pub pressed_emu_keys: u16,
    pub touch_pos: Option<TouchPos>,
    pub prev_touch_pos: Option<TouchPos>,
    pub pressed_hotkeys: u8,
}

/// The input tracker: pad keys the emulation currently believes down, the
/// stylus position and the one last reported, and the hotkey edge mask.
pub struct State {
    pressed_emu_keys: u16,
    touch_pos: Option<TouchPos>,
    prev_touch_pos: Option<TouchPos>,
    pressed_hotkeys: u8,
}

impl View for State {
    type V = InputModel;

    closed spec fn view(&self) -> InputModel {
        InputModel {
            pressed_emu_keys: self.pressed_emu_keys,
            touch_pos: self.touch_pos,
            prev_touch_pos: self.prev_touch_pos,
            pressed_hotkeys: self.pressed_hotkeys,
        }
    }
}

/// Compare two stylus positions.
fn touch_eq(a: Option<TouchPos>, b: Option<TouchPos>) -> (r: bool)
    ensures
        r <==> a == b,
{
    match (a, b) {
        (Option::None, Option::None) => true,
        (Option::Some(p), Option::Some(q)) => p.x == q.x && p.y == q.y,
        _ => false,
    }
}

impl State {
    /// A tracker with nothing pressed and no touch.
    pub fn new() -> (r: State)
        ensures
            r@.pressed_emu_keys == 0,
            r@.touch_pos is None,
            r@.prev_touch_pos is None,
            r@.pressed_hotkeys == 0,
    {
        State { pressed_emu_keys: 0, touch_pos: None, prev_touch_pos: None, pressed_hotkeys: 0 }
    }

    /// Record where the stylus is now (or that it lifted). The windowing layer
    /// computes the position from its pointer geometry.
    pub fn set_touch_pos(&mut self, p: Option<TouchPos>)
        ensures
            final(self)@ == (InputModel { touch_pos: p, ..old(self)@ }),
    {
        self.touch_pos = p;
    }

    /// One input poll. `hotkeys` gives, in binding order, each bound hotkey's
    /// action and whether its trigger is currently held; `keypad` the bitmask
    /// of pad keys whose triggers are held. Fires each hotkey action once per
    /// press, and — while the emulation is playing — reports the pad-key and
    /// stylus changes since the last poll, or nothing if there are none.
    pub fn drain_changes(&mut self, hotkeys: &Vec<(Action, bool)>, keypad: u16, emu_playing: bool)
        -> (r: (Vec<Action>, Option<Changes>))
        ensures
            r.0@ == drain_hotkeys_spec(hotkeys@, old(self)@.pressed_hotkeys).0,
            final(self)@.pressed_hotkeys == drain_hotkeys_spec(
                hotkeys@,
                old(self)@.pressed_hotkeys,
            ).1,
            final(self)@.touch_pos == old(self)@.touch_pos,
            !emu_playing ==> r.1 is None && final(self)@.pressed_emu_keys == old(
                self,
            )@.pressed_emu_keys && final(self)@.prev_touch_pos == old(self)@.prev_touch_pos,
            emu_playing && (old(self)@.touch_pos != old(self)@.prev_touch_pos || keypad != old(
                self,
            )@.pressed_emu_keys) ==> r.1 == Some(Changes {
                pressed: keypad & !old(self)@.pressed_emu_keys,
                released: old(self)@.pressed_emu_keys & !keypad,
                touch_pos: if old(self)@.touch_pos != old(self)@.prev_touch_pos {
                    Some(old(self)@.touch_pos)
                } else {
                    None
                },
            }) && final(self)@.pressed_emu_keys == keypad && final(self)@.prev_touch_pos == old(
                self,
            )@.touch_pos,
            emu_playing && old(self)@.touch_pos == old(self)@.prev_touch_pos && keypad == old(
                self,
            )@.pressed_emu_keys ==> r.1 is None && final(self)@.pressed_emu_keys == old(
                self,
            )@.pressed_emu_keys && final(self)@.prev_touch_pos == old(self)@.prev_touch_pos,
    {
        let ghost mask0 = self.pressed_hotkeys;
        let mut actions: Vec<Action> = Vec::new();
        let mut idx: usize = 0;
        proof {
            assert(hotkeys@.skip(0) =~= hotkeys@);
            assert(actions@ + drain_hotkeys_spec(hotkeys@, mask0).0 =~= drain_hotkeys_spec(
                hotkeys@,
                mask0,
            ).0);
        }
        while idx < hotkeys.len()
            invariant
                idx <= hotkeys@.len(),
                drain_hotkeys_spec(hotkeys@, mask0).0 == actions@ + drain_hotkeys_spec(
                    hotkeys@.skip(idx as int),
                    self.pressed_hotkeys,
                ).0,
                drain_hotkeys_spec(hotkeys@, mask0).1 == drain_hotkeys_spec(
                    hotkeys@.skip(idx as int),
                    self.pressed_hotkeys,
                ).1,
                self.pressed_emu_keys == old(self)@.pressed_emu_keys,
                self.touch_pos == old(self)@.touch_pos,
                self.prev_touch_pos == old(self)@.prev_touch_pos,
                mask0 == old(self)@.pressed_hotkeys,
            decreases hotkeys@.len() - idx,
        {
            let entry: (Action, bool) = hotkeys[idx];
            let a: Action = entry.0;
            let activated: bool = entry.1;
            let bit: u8 = action_bit_of(a);
            proof {
                assert(hotkeys@.skip(idx as int).drop_first() =~= hotkeys@.skip(idx as int + 1));
                assert(hotkeys@.skip(idx as int)[0] == hotkeys@[idx as int]);
            }
            let ghost actions_before = actions@;
            let ghost mask_before = self.pressed_hotkeys;
            if activated {
                if self.pressed_hotkeys & bit == 0 {
                    self.pressed_hotkeys = self.pressed_hotkeys | bit;
                    actions.push(a);
                    proof {
                        assert(actions@ =~= actions_before + seq![a]);
                        assert(actions_before + (seq![a] + drain_hotkeys_spec(
                            hotkeys@.skip(idx as int + 1),
                            self.pressed_hotkeys,
                        ).0) =~= actions@ + drain_hotkeys_spec(
                            hotkeys@.skip(idx as int + 1),
                            self.pressed_hotkeys,
                        ).0);
                    }
                }
            } else {
                self.pressed_hotkeys = self.pressed_hotkeys & !bit;
            }
            idx = idx + 1;
        }
        proof {
            assert(hotkeys@.skip(hotkeys@.len() as int) =~= Seq::<(Action, bool)>::empty());
            assert(actions@ + Seq::<Action>::empty() =~= actions@);
        }
        if !emu_playing {
            return (actions, None);
        }
        let touch_changed: bool = !touch_eq(self.touch_pos, self.prev_touch_pos);
        if touch_changed || keypad != self.pressed_emu_keys {
            let pressed: u16 = keypad & !self.pressed_emu_keys;
            let released: u16 = self.pressed_emu_keys & !keypad;
            let touch_pos: Option<Option<TouchPos>> = if touch_changed {
                Some(self.touch_pos)
            } else {
                None
            };
            self.pressed_emu_keys = keypad;
            self.prev_touch_pos = self.touch_pos;
            (actions, Some(Changes { pressed, released, touch_pos }))
        } else {
            (actions, None)
        }
    }
}

} // verus!
