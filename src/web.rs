//! The browser front end's pixel screen.

use vstd::prelude::*;

verus! {

/// The width and height of the browser canvas, in pixels.
pub const SCREEN_WIDTH: u32 = 320;

pub const SCREEN_HEIGHT: u32 = 200;

/// The browser front end's screen: RGBA pixels, four bytes each, row by
/// row, and a frame counter.
#[derive(Debug)]
pub struct State {
    width: u32,
    height: u32,
    pixels: Vec<u8>,
    frame: u64,
}

impl State {
    pub closed spec fn width_spec(&self) -> u32 {
        self.width
    }

    pub closed spec fn height_spec(&self) -> u32 {
        self.height
    }

    /// The screen's bytes.
    pub closed spec fn pixels_spec(&self) -> Seq<u8> {
        self.pixels@
    }

    pub closed spec fn frame_spec(&self) -> u64 {
        self.frame
    }

    pub open spec fn wf(&self) -> bool {
        &&& self.width_spec() == SCREEN_WIDTH
        &&& self.height_spec() == SCREEN_HEIGHT
        &&& self.pixels_spec().len() == 4 * SCREEN_WIDTH * SCREEN_HEIGHT
    }

    /// A black, opaque screen at frame zero.
    pub fn new() -> (r: State)
        ensures
            r.wf(),
            r.frame_spec() == 0,
            forall|i: int| 0 <= i < r.pixels_spec().len() ==> #[trigger] r.pixels_spec()[i] == if i % 4 == 3 { 255u8 } else { 0u8 },
    {
        let n: usize = 4 * 320 * 200;
        let mut pixels: Vec<u8> = Vec::new();
        let mut i: usize = 0;
        while i < n
            invariant
                n == 4 * SCREEN_WIDTH * SCREEN_HEIGHT,
                i <= n,
                pixels@.len() == i,
                forall|j: int| 0 <= j < i ==> #[trigger] pixels@[j] == if j % 4 == 3 { 255u8 } else { 0u8 },
            decreases n - i,
        {
            pixels.push(if i % 4 == 3 { 255 } else { 0 });
            i = i + 1;
        }
        State { width: SCREEN_WIDTH, height: SCREEN_HEIGHT, pixels, frame: 0 }
    }

    pub fn screen(&self) -> (r: &Vec<u8>)
        ensures
            r@ == self.pixels_spec(),
    {
        &self.pixels
    }

    pub fn screen_width(&self) -> (r: u32)
        ensures
            r == self.width_spec(),
    {
        self.width
    }

    pub fn screen_height(&self) -> (r: u32)
        ensures
            r == self.height_spec(),
    {
        self.height
    }

    /// Lights the red channel of the pixel under the pointer, when the
    /// pointer is on the screen.
    pub fn mouse_move(&mut self, x: u32, y: u32)
        requires
            old(self).wf(),
        ensures
            final(self).wf(),
            final(self).frame_spec() == old(self).frame_spec(),
            final(self).pixels_spec() == if x < SCREEN_WIDTH && y < SCREEN_HEIGHT {
                old(self).pixels_spec().update(4 * (y * SCREEN_WIDTH + x), 255u8)
            } else {
                old(self).pixels_spec()
            },
    {
        if x < self.width && y < self.height {
            assert(4 * (y * 320 + x) < 4 * 320 * 200) by (nonlinear_arith)
                requires x < 320, y < 200;
            let index = (y * self.width + x) as usize * 4;
            self.pixels.set(index, 255);
        }
    }

    /// Counts one more frame, wrapping at the largest count.
    pub fn frame(&mut self)
        requires
            old(self).wf(),
        ensures
            final(self).wf(),
            final(self).pixels_spec() == old(self).pixels_spec(),
            final(self).frame_spec() == if old(self).frame_spec() < u64::MAX { (old(self).frame_spec() + 1) as u64 } else { 0 },
    {
        self.frame = if self.frame < u64::MAX { self.frame + 1 } else { 0 };
    }
}

} // verus!
