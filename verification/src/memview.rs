//! CPU-memory debug view: the emulation side prepares a window of bus words
//! once per frame, the UI side displays single bytes out of that window and
//! turns edits into write commands for the emulation thread.
//!
//! The bus reads and writes themselves, and the widget drawing, belong to the
//! excluded collaborators; what lives here is the data handoff: address-range
//! alignment, word-window preparation, and byte extraction.

use vstd::prelude::*;

verus! {

/// An inclusive range of bus addresses.
#[derive(Clone, Copy, PartialEq, Eq, Structural, Debug)]
pub struct AddrRange {
    pub start: u64,
    pub end: u64,
}

/// The word window shown by the view: the addresses it covers and one 32-bit
/// little-endian word per four bytes.
#[derive(Clone, Debug, PartialEq, Eq)]
pub struct MemContents {
    pub visible_addrs: AddrRange,
    pub data: Vec<u32>,
}

/// Messages the view sends to the emulation thread.
#[derive(Clone, Copy, PartialEq, Eq, Structural, Debug)]
pub enum Message {
    /// Write one byte to the bus.
    Write { addr: u32, value: u8 },
    /// The view scrolled: prepare a different window next frame.
    UpdateVisibleAddrs(AddrRange),
}

/// A range widened to whole words: the start rounded down to a multiple of
/// four, the end rounded up.
pub open spec fn aligned_range(r: AddrRange) -> AddrRange {
    AddrRange { start: r.start & !3u64, end: (r.end + 3) as u64 & !3u64 }
}

/// Align a visible range to whole words.
pub fn align_visible_addrs(r: AddrRange) -> (a: AddrRange)
    requires
        r.end + 3 <= u64::MAX,
    ensures
        a == aligned_range(r),
{
    AddrRange { start: r.start & !3u64, end: (r.end + 3) & !3u64 }
}

/// How many words a window over this range holds (one per four bytes, ends
/// inclusive).
pub open spec fn word_count(r: AddrRange) -> int {
    (((r.end - r.start) as u64) >> 2u64) + 1
}

/// How many bus words the emulation side must read for this range.
pub fn visible_word_count(r: &AddrRange) -> (n: u64)
    requires
        r.start <= r.end,
    ensures
        n == word_count(*r),
{
    let d: u64 = r.end - r.start;
    assert((d >> 2u64) < 0xffff_ffff_ffff_ffffu64) by (bit_vector);
    (d >> 2u64) + 1
}

/// Byte `o & 3` of a little-endian 32-bit word.
pub open spec fn word_byte(w: u32, o: u64) -> u8 {
    (w >> (((o & 3) * 8) as u32)) as u8
}

/// The byte the view displays at `addr`: defined exactly when the address is
/// inside the visible range and its word was prepared.
pub open spec fn displayed_byte_spec(c: MemContents, addr: u64) -> Option<u8> {
    if c.visible_addrs.start <= addr <= c.visible_addrs.end {
        let offset = (addr - c.visible_addrs.start) as u64;
        if (offset >> 2u64) < c.data.len() {
            Some(word_byte(c.data[(offset >> 2u64) as int], offset))
        } else {
            None
        }
    } else {
        None
    }
}

/// Extract the byte displayed at `addr` from the prepared window.
pub fn displayed_byte(c: &MemContents, addr: u64) -> (r: Option<u8>)
    ensures
        r == displayed_byte_spec(*c, addr),
{
    if c.visible_addrs.start <= addr && addr <= c.visible_addrs.end {
        let offset: u64 = addr - c.visible_addrs.start;
        let word_idx: u64 = offset >> 2u64;
        if word_idx < c.data.len() as u64 {
            let w: u32 = c.data[word_idx as usize];
            assert((offset & 3) < 4) by (bit_vector);
            let shift: u32 = ((offset & 3) as u32) * 8;
            Some((w >> shift) as u8)
        } else {
            None
        }
    } else {
        None
    }
}

/// The emulation thread's half of the view: it remembers which addresses are
/// visible and serves bus accesses.
pub struct EmuState<const ARM9: bool> {
    visible_addrs: AddrRange,
}

impl<const ARM9: bool> EmuState<ARM9> {
    /// The range the view currently wants prepared.
    pub closed spec fn visible_addrs_spec(&self) -> AddrRange {
        self.visible_addrs
    }

    /// Start serving the given range.
    pub fn new(visible_addrs: AddrRange) -> (r: Self)
        ensures
            r.visible_addrs_spec() == visible_addrs,
    {
        EmuState { visible_addrs }
    }

    /// The range the view currently wants prepared.
    pub fn visible_addrs(&self) -> (r: AddrRange)
        ensures
            r == self.visible_addrs_spec(),
    {
        self.visible_addrs
    }

    /// Handle one message from the view. A write request comes back as the
    /// byte store the caller performs on the debug bus (of the ARM9 or the
    /// ARM7, per this view's type parameter); a scroll updates the range.
    pub fn handle_message(&mut self, message: Message) -> (store: Option<(u32, u8)>)
        ensures
            match message {
                Message::Write { addr, value } => store == Some((addr, value)) && final(self).visible_addrs_spec() == old(self).visible_addrs_spec(),
                Message::UpdateVisibleAddrs(addrs) => store is None && final(self).visible_addrs_spec() == addrs,
            },
    {
        match message {
            Message::Write { addr, value } => Some((addr, value)),
            Message::UpdateVisibleAddrs(addrs) => {
                self.visible_addrs = addrs;
                None
            },
        }
    }

    /// Fill the frame-data slot from the words read off the bus, one per four
    /// bytes of the visible range, lowest address first.
    pub fn prepare_frame_data(&self, frame_data: &mut MemContents, words: &Vec<u32>)
        requires
            self.visible_addrs_spec().start <= self.visible_addrs_spec().end,
            words@.len() == word_count(self.visible_addrs_spec()),
        ensures
            final(frame_data).visible_addrs == self.visible_addrs_spec(),
            final(frame_data).data@ == words@,
    {
        frame_data.data.clear();
        let mut i: usize = 0;
        while i < words.len()
            invariant
                i <= words@.len(),
                frame_data.data@ == words@.subrange(0, i as int),
            decreases words@.len() - i,
        {
            frame_data.data.push(words[i]);
            proof {
                assert(frame_data.data@ =~= words@.subrange(0, i + 1));
            }
            i = i + 1;
        }
        frame_data.visible_addrs = self.visible_addrs;
        proof {
            assert(frame_data.data@ =~= words@);
        }
    }
}

/// The UI thread's half of the view: the window it last displayed and the
/// range it last asked for.
pub struct CpuMemory<const ARM9: bool> {
    last_visible_addrs: AddrRange,
    mem_contents: MemContents,
}

impl<const ARM9: bool> CpuMemory<ARM9> {
    /// The range last requested from the emulation side.
    pub closed spec fn last_visible_addrs_spec(&self) -> AddrRange {
        self.last_visible_addrs
    }

    /// The window currently displayed.
    pub closed spec fn mem_contents_spec(&self) -> MemContents {
        self.mem_contents
    }

    /// A view that has not displayed anything yet.
    pub fn new() -> (r: Self)
        ensures
            r.last_visible_addrs_spec() == (AddrRange { start: 0, end: 0 }),
            r.mem_contents_spec().visible_addrs == (AddrRange { start: 0, end: 0 }),
            r.mem_contents_spec().data@.len() == 0,
    {
        CpuMemory {
            last_visible_addrs: AddrRange { start: 0, end: 0 },
            mem_contents: MemContents {
                visible_addrs: AddrRange { start: 0, end: 0 },
                data: Vec::new(),
            },
        }
    }

    /// What the emulation side should serve when this view is (re)instantiated.
    pub fn emu_state(&self) -> (r: AddrRange)
        ensures
            r == self.last_visible_addrs_spec(),
    {
        self.last_visible_addrs
    }

    /// Take over the window the emulation side prepared this frame.
    pub fn update_from_frame_data(&mut self, frame_data: &MemContents)
        ensures
            final(self).mem_contents_spec().visible_addrs == frame_data.visible_addrs,
            final(self).mem_contents_spec().data@ == frame_data.data@,
            final(self).last_visible_addrs_spec() == old(self).last_visible_addrs_spec(),
    {
        self.mem_contents.data.clear();
        let mut i: usize = 0;
        while i < frame_data.data.len()
            invariant
                i <= frame_data.data@.len(),
                self.mem_contents.data@ == frame_data.data@.subrange(0, i as int),
                self.last_visible_addrs == old(self).last_visible_addrs,
                self.mem_contents.visible_addrs == old(self).mem_contents.visible_addrs,
            decreases frame_data.data@.len() - i,
        {
            self.mem_contents.data.push(frame_data.data[i]);
            proof {
                assert(self.mem_contents.data@ =~= frame_data.data@.subrange(0, i + 1));
            }
            i = i + 1;
        }
        self.mem_contents.visible_addrs = frame_data.visible_addrs;
        proof {
            assert(self.mem_contents.data@ =~= frame_data.data@);
        }
    }

    /// The byte this view displays at `addr`, if its word is in the window.
    pub fn displayed_byte_at(&self, addr: u64) -> (r: Option<u8>)
        ensures
            r == displayed_byte_spec(self.mem_contents_spec(), addr),
    {
        displayed_byte(&self.mem_contents, addr)
    }

    /// After drawing, note the range the widget now shows (already aligned by
    /// the caller through [`align_visible_addrs`]): if it moved, remember it
    /// and ask the emulation side for the new window.
    pub fn note_visible_addrs(&mut self, addrs: AddrRange) -> (msg: Option<Message>)
        ensures
            final(self).mem_contents_spec() == old(self).mem_contents_spec(),
            addrs == old(self).last_visible_addrs_spec() ==> msg is None && final(self).last_visible_addrs_spec() == old(self).last_visible_addrs_spec(),
            addrs != old(self).last_visible_addrs_spec() ==> msg == Some(
                Message::UpdateVisibleAddrs(addrs),
            ) && final(self).last_visible_addrs_spec() == addrs,
    {
        if addrs.start != self.last_visible_addrs.start || addrs.end
            != self.last_visible_addrs.end {
            self.last_visible_addrs = addrs;
            Some(Message::UpdateVisibleAddrs(addrs))
        } else {
            None
        }
    }
}

} // verus!
