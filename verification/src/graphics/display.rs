use vstd::prelude::*;
use vstd::slice::SliceAdditionalExecFns;

verus! {

/// The size of the window and of the console picture drawn into it.
pub struct WindowSize {
    pub frame_width: u16,
    pub frame_height: u16,
    pub console_width: u16,
    pub console_height: u16,
    pub fullscreen: bool,
}

impl WindowSize {
    pub fn new(frame_width: u16, frame_height: u16, console_width: u16, console_height: u16, fullscreen: bool) -> (r: Self)
        ensures
            r == (WindowSize { frame_width, frame_height, console_width, console_height, fullscreen }),
    {
        Self { frame_width, frame_height, console_width, console_height, fullscreen }
    }
}

/// An 8-bit-per-channel RGB colour.
#[derive(Clone, Copy)]
pub struct Colour {
    pub r: u8,
    pub g: u8,
    pub b: u8,
}

impl Colour {
    pub fn new(r: u8, g: u8, b: u8) -> (c: Self)
        ensures
            c == (Colour { r, g, b }),
    {
        Self { r, g, b }
    }

    /// Write the colour as RGB444 into the first two bytes of `dst`: green's
    /// and blue's top nibbles, then red's.
    pub fn convert_rgb444(&self, dst: &mut [u8])
        requires
            old(dst)@.len() >= 2,
        ensures
            final(dst)@ == old(dst)@.update(0, ((self.g / 16) * 16 + self.b / 16) as u8).update(1, self.r / 16),
    {
        let g = self.g;
        let b = self.b;
        let r = self.r;
        let first = (g & 0xF0) | (b >> 4);
        assert(first == ((g / 16) * 16 + b / 16) as u8 && r >> 4 == r / 16) by (bit_vector)
            requires
                first == (g & 0xF0) | (b >> 4),
        ;
        dst.set(0, first);
        dst.set(1, r >> 4);
    }

    /// Write the colour as R, G, B into the first three bytes of `dst`.
    pub fn convert_rgb24(&self, dst: &mut [u8])
        requires
            old(dst)@.len() >= 3,
        ensures
            final(dst)@ == old(dst)@.update(0, self.r).update(1, self.g).update(2, self.b),
    {
        dst.set(0, self.r);
        dst.set(1, self.g);
        dst.set(2, self.b);
    }

    /// Write the colour as B, G, R into the first three bytes of `dst`.
    pub fn convert_rgb888(&self, dst: &mut [u8])
        requires
            old(dst)@.len() >= 3,
        ensures
            final(dst)@ == old(dst)@.update(0, self.b).update(1, self.g).update(2, self.r),
    {
        dst.set(0, self.b);
        dst.set(1, self.g);
        dst.set(2, self.r);
    }
}

} // verus!
