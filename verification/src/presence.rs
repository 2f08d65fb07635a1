//! Rich-presence status shown on the player's messaging account: the status
//! text, whether a session timestamp accompanies it, and the debounce that
//! avoids re-sending an unchanged presence. The RPC connection that transmits
//! it is the host layer's; it transmits exactly when [`Presence::flush`] says
//! so.

use vstd::prelude::*;

verus! {

/// The presence as it should appear, plus whether it changed since the last
/// transmission.
pub struct Presence {
    state: String,
    has_timestamp: bool,
    updated: bool,
}

impl Presence {
    /// The status line to display.
    pub closed spec fn state_spec(&self) -> Seq<char> {
        self.state@
    }

    /// Whether a session start time accompanies the status.
    pub closed spec fn has_timestamp_spec(&self) -> bool {
        self.has_timestamp
    }

    /// Whether the presence changed since the last transmission.
    pub closed spec fn updated_spec(&self) -> bool {
        self.updated
    }

    /// A blank presence that nothing has changed yet.
    pub fn new() -> (r: Presence)
        ensures
            r.state_spec().len() == 0,
            !r.has_timestamp_spec(),
            !r.updated_spec(),
    {
        Presence { state: String::new(), has_timestamp: false, updated: false }
    }

    /// A game started: show that it is being played, timestamped from now.
    pub fn start(&mut self, title: &str)
        ensures
            final(self).state_spec() == "Playing "@ + title@,
            final(self).has_timestamp_spec(),
            final(self).updated_spec(),
    {
        let mut state: String = "Playing ".to_owned();
        state.append(title);
        self.state = state;
        self.has_timestamp = true;
        self.updated = true;
    }

    /// Emulation stopped: show idleness, timestamped from now.
    pub fn stop(&mut self)
        ensures
            final(self).state_spec() == "Not playing anything"@,
            final(self).has_timestamp_spec(),
            final(self).updated_spec(),
    {
        self.state = "Not playing anything".to_owned();
        self.has_timestamp = true;
        self.updated = true;
    }

    /// Whether the presence must be transmitted now: exactly when something
    /// changed since the last flush. Afterwards nothing is pending.
    pub fn flush(&mut self) -> (transmit: bool)
        ensures
            transmit <==> old(self).updated_spec(),
            !final(self).updated_spec(),
            final(self).state_spec() == old(self).state_spec(),
            final(self).has_timestamp_spec() == old(self).has_timestamp_spec(),
    {
        if !self.updated {
            return false;
        }
        self.updated = false;
        true
    }

    /// The status line to display.
    pub fn state(&self) -> (r: &String)
        ensures
            r@ == self.state_spec(),
    {
        &self.state
    }
}

} // verus!
