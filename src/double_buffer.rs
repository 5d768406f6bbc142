//! Two frame buffers and the index of the one the renderer sees; the
//! emulator renders into the other one and then swaps.
use crate::ppu::FrameBuffer;
use vstd::prelude::*;

verus! {

pub struct DoubleBuffer {
    first: FrameBuffer,
    second: FrameBuffer,
    curr_buffer: usize,
}

impl Default for DoubleBuffer {
    /// Two black buffers, the first one current.
    fn default() -> (r: DoubleBuffer)
        ensures
            r.first_is_current(),
            r.current()@ == Seq::new(23040, |i: int| 0u8),
            r.off()@ == Seq::new(23040, |i: int| 0u8),
    {
        DoubleBuffer::new()
    }
}

impl DoubleBuffer {
    /// Whether the first buffer is the one the renderer sees.
    pub closed spec fn first_is_current(&self) -> bool {
        self.curr_buffer % 2 == 0
    }

    /// The buffer the renderer sees.
    pub closed spec fn current(&self) -> FrameBuffer {
        if self.first_is_current() { self.first } else { self.second }
    }

    /// The buffer the emulator renders into.
    pub closed spec fn off(&self) -> FrameBuffer {
        if self.first_is_current() { self.second } else { self.first }
    }

    /// Two black buffers, the first one current.
    pub fn new() -> (r: DoubleBuffer)
        ensures
            r.first_is_current(),
            r.current()@ == Seq::new(23040, |i: int| 0u8),
            r.off()@ == Seq::new(23040, |i: int| 0u8),
    {
        let r = DoubleBuffer { first: [0u8; 23040], second: [0u8; 23040], curr_buffer: 0 };
        assert(r.first@ =~= Seq::new(23040, |i: int| 0u8));
        assert(r.second@ =~= Seq::new(23040, |i: int| 0u8));
        r
    }

    /// The buffer the renderer sees.
    pub fn get_current(&self) -> (r: &FrameBuffer)
        ensures
            *r == self.current(),
    {
        if self.curr_buffer % 2 == 0 {
            &self.first
        } else {
            &self.second
        }
    }

    /// The buffer the emulator renders into; what is written through it is
    /// the new off buffer, the current one is untouched.
    pub fn get_off(&mut self) -> (r: &mut FrameBuffer)
        ensures
            *r == old(self).off(),
            final(self).first_is_current() == old(self).first_is_current(),
            final(self).current() == old(self).current(),
            final(self).off() == *final(r),
    {
        if self.curr_buffer % 2 == 0 {
            &mut self.second
        } else {
            &mut self.first
        }
    }

    /// Makes the off buffer current and the current one off.
    pub fn swap(&mut self)
        ensures
            final(self).first_is_current() == !old(self).first_is_current(),
            final(self).current() == old(self).off(),
            final(self).off() == old(self).current(),
    {
        self.curr_buffer = 1 - self.curr_buffer % 2;
    }
}

} // verus!
