use vstd::prelude::*;

verus! {

pub const SCREEN_COLORS_DEPTH: usize = 3;
pub const GB_SCREEN_WIDTH: usize = 160;
pub const GB_SCREEN_HEIGHT: usize = 144;
pub const FRAME_BUFFER_SIZE: usize = 69120;

/// Offset of the first byte of pixel (x, y) in a frame buffer.
pub open spec fn pixel_offset(x: int, y: int) -> int {
    (y * 160 + x) * 3
}

/// A 160x144 RGB888 frame buffer, row-major, top-down.
pub struct Screen {
    pub frame_buffer: Vec<u8>,
}

impl Screen {
    pub open spec fn wf(&self) -> bool {
        self.frame_buffer@.len() == FRAME_BUFFER_SIZE
    }

    pub open spec fn pixel(&self, x: int, y: int) -> (u8, u8, u8) {
        let i = pixel_offset(x, y);
        (self.frame_buffer@[i], self.frame_buffer@[i + 1], self.frame_buffer@[i + 2])
    }

    /// A white frame: every byte 255.
    pub fn new() -> (r: Screen)
        ensures
            r.wf(),
            forall|i: int| 0 <= i < FRAME_BUFFER_SIZE ==> r.frame_buffer@[i] == 255,
    {
        let mut v: Vec<u8> = Vec::with_capacity(FRAME_BUFFER_SIZE);
        let mut i: usize = 0;
        while i < FRAME_BUFFER_SIZE
            invariant
                i <= FRAME_BUFFER_SIZE,
                v@.len() == i,
                forall|j: int| 0 <= j < i ==> v@[j] == 255,
            decreases FRAME_BUFFER_SIZE - i,
        {
            v.push(255u8);
            i = i + 1;
        }
        Screen { frame_buffer: v }
    }

    pub fn color_at(&self, x: u8, y: u8) -> (r: (u8, u8, u8))
        requires
            self.wf(),
            x < 160,
            y < 144,
        ensures
            r == self.pixel(x as int, y as int),
    {
        let idx: usize = (y as usize * GB_SCREEN_WIDTH + x as usize) * SCREEN_COLORS_DEPTH;
        (self.frame_buffer[idx], self.frame_buffer[idx + 1], self.frame_buffer[idx + 2])
    }

    pub fn draw_at(&mut self, x: u8, y: u8, r: u8, g: u8, b: u8)
        requires
            old(self).wf(),
            x < 160,
            y < 144,
        ensures
            final(self).wf(),
            final(self).frame_buffer@ == old(self).frame_buffer@.update(
                pixel_offset(x as int, y as int),
                r,
            ).update(pixel_offset(x as int, y as int) + 1, g).update(
                pixel_offset(x as int, y as int) + 2,
                b,
            ),
    {
        let idx: usize = (y as usize * GB_SCREEN_WIDTH + x as usize) * SCREEN_COLORS_DEPTH;
        self.frame_buffer.set(idx, r);
        self.frame_buffer.set(idx + 1, g);
        self.frame_buffer.set(idx + 2, b);
    }
}

impl Default for Screen {
    fn default() -> (r: Screen)
        ensures
            r.wf(),
    {
        Screen::new()
    }
}

} // verus!
