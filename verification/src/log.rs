//! The framebuffer console used for diagnostics: a pixel surface modelled as
//! a vector of 32-bit pixels, and a glyph logger that renders 8x16 bitmap-font
//! characters onto it, tracking a cursor and truncating at the line's end.

use vstd::prelude::*;

verus! {

use vstd::arithmetic::div_mod::lemma_fundamental_div_mod;
use vstd::arithmetic::div_mod::lemma_fundamental_div_mod_converse_div;
use vstd::arithmetic::div_mod::lemma_fundamental_div_mod_converse_mod;
use vstd::arithmetic::mul::lemma_mul_inequality;
use vstd::arithmetic::mul::lemma_mul_is_distributive_add_other_way;

/// The geometry of a graphics output surface: its base address and length as
/// the firmware reports them, and the visible and stored pixel dimensions.
#[derive(Debug, Clone, Copy, PartialEq, Eq, Structural)]
pub struct FrameBufferInfo {
    pub address: usize,
    pub len: usize,
    pub screen_width: u32,
    pub screen_height: u32,
    pub pixels_per_scan_line: u32,
}

/// A consistent surface geometry: the stored length covers every scan line,
/// the visible width fits inside a scan line, and pixel positions fit 32-bit
/// arithmetic.
pub open spec fn framebuffer_info_wf(info: FrameBufferInfo) -> bool {
    &&& info.len == info.pixels_per_scan_line * info.screen_height
    &&& info.screen_width <= info.pixels_per_scan_line
    &&& info.len <= u32::MAX
}

/// A drawable pixel surface with the geometry it was created from. The pixel
/// store belongs to the surface; an adapter that owns mapped device memory
/// copies rows out as needed.
#[derive(Debug)]
pub struct FrameBuffer {
    pub pixels: Vec<u32>,
    pub info: FrameBufferInfo,
}

impl View for FrameBuffer {
    type V = Seq<u32>;

    open spec fn view(&self) -> Seq<u32> {
        self.pixels@
    }
}

impl FrameBuffer {
    /// A well-formed surface: consistent geometry, and a pixel store of
    /// exactly the reported length.
    pub open spec fn wf(self) -> bool {
        &&& framebuffer_info_wf(self.info)
        &&& self.pixels@.len() == self.info.len
    }

    /// Creates a surface of the given geometry with every pixel cleared.
    pub fn new(info: FrameBufferInfo) -> (r: FrameBuffer)
        requires
            framebuffer_info_wf(info),
        ensures
            r.wf(),
            r.info == info,
            forall|i: int| 0 <= i < r@.len() ==> r@[i] == 0,
    {
        let mut pixels: Vec<u32> = Vec::new();
        let len = info.len;
        while pixels.len() < len
            invariant
                pixels@.len() <= len,
                forall|i: int| 0 <= i < pixels@.len() ==> pixels@[i] == 0,
            decreases len - pixels@.len(),
        {
            pixels.push(0);
        }
        FrameBuffer { pixels, info }
    }

    /// Checks well-formedness at run time, for callers built from raw
    /// firmware-reported geometry.
    pub fn check_wf(&self) -> (r: bool)
        ensures
            r == self.wf(),
    {
        let a = self.info.pixels_per_scan_line as u64;
        let b = self.info.screen_height as u64;
        proof {
            vstd::arithmetic::mul::lemma_mul_upper_bound(a as int, 0xffff_ffff, b as int, 0xffff_ffff);
        }
        (self.info.len as u64) == a * b && self.info.screen_width
            <= self.info.pixels_per_scan_line && self.info.len <= u32::MAX as usize
            && self.pixels.len() == self.info.len
    }

    /// Sets the pixel at column `x` of row `y`.
    pub fn draw_pixel(&mut self, x: u32, y: u32, color: u32)
        requires
            old(self).wf(),
            x < old(self).info.screen_width,
            y < old(self).info.screen_height,
        ensures
            final(self).wf(),
            final(self).info == old(self).info,
            final(self)@ == old(self)@.update(
                y * old(self).info.pixels_per_scan_line + x,
                color,
            ),
    {
        let ppsl = self.info.pixels_per_scan_line;
        proof {
            lemma_mul_inequality(y as int + 1, self.info.screen_height as int, ppsl as int);
            lemma_mul_is_distributive_add_other_way(ppsl as int, y as int, 1);
        }
        let pos = y * ppsl + x;
        self.pixels.set(pos as usize, color);
    }

    /// Fills the half-open pixel range `[offset_start, offset_end)`.
    pub fn draw_offset(&mut self, offset_start: u64, offset_end: u64, color: u32)
        requires
            old(self).wf(),
            offset_start <= offset_end <= old(self).info.len,
        ensures
            final(self).wf(),
            final(self).info == old(self).info,
            final(self)@.len() == old(self)@.len(),
            forall|i: int| offset_start <= i < offset_end ==> final(self)@[i] == color,
            forall|i: int|
                0 <= i < old(self)@.len() && !(offset_start <= i < offset_end) ==> final(self)@[i]
                    == old(self)@[i],
    {
        let mut i: usize = offset_start as usize;
        let end: usize = offset_end as usize;
        while i < end
            invariant
                self.wf(),
                self.info == old(self).info,
                offset_start <= i <= end,
                end == offset_end <= old(self)@.len(),
                self@.len() == old(self)@.len(),
                forall|k: int| offset_start <= k < i ==> self@[k] == color,
                forall|k: int|
                    0 <= k < old(self)@.len() && !(offset_start <= k < i) ==> self@[k] == old(
                        self,
                    )@[k],
            decreases end - i,
        {
            self.pixels.set(i, color);
            i = i + 1;
        }
    }
}

/// A diagnostic text sink over a framebuffer.
pub trait Logger: Sized {
    fn new(buffer: FrameBuffer) -> Self;

    fn log_char(&mut self, c: u32);

    fn log(&mut self, s: &str) {
        let _ = self.try_log(s);
    }

    fn try_log(&mut self, s: &str) -> Result<(), ()> {
        let n = s.unicode_len();
        let mut i: usize = 0;
        while i < n
            invariant
                n == s@.len(),
                i <= n,
            decreases n - i,
        {
            let c = s.get_char(i);
            self.log_char(c as u32);
            i = i + 1;
        }
        Ok(())
    }
}

/// True when row `y` of the glyph for character `c` has its pixel `x` set:
/// the font holds a four-byte header and sixteen rows per glyph, the leftmost
/// pixel in the highest bit.
pub open spec fn glyph_pixel_on(font: Seq<u8>, c: u32, x: int, y: int) -> bool {
    font[4 + 16 * c + y] & (1u8 << ((7 - x) as u8)) == (1u8 << ((7 - x) as u8))
}

/// True when pixel index `i` lies inside the 8x16 glyph cell whose top-left
/// corner is at column `px` of row `py`.
pub open spec fn in_glyph_rect(info: FrameBufferInfo, px: u32, py: u32, i: int) -> bool {
    let ppsl = info.pixels_per_scan_line as int;
    &&& px <= i % ppsl < px + 8
    &&& py <= i / ppsl < py + 16
}

/// How a rendered glyph relates the new pixel surface to the old one: inside
/// the glyph cell every pixel is white or black after the font bit, and
/// outside it nothing changed.
pub open spec fn glyph_updated(
    old_px: Seq<u32>,
    new_px: Seq<u32>,
    info: FrameBufferInfo,
    font: Seq<u8>,
    c: u32,
    px: u32,
    py: u32,
) -> bool {
    let ppsl = info.pixels_per_scan_line as int;
    &&& new_px.len() == old_px.len()
    &&& forall|i: int|
        0 <= i < new_px.len() && in_glyph_rect(info, px, py, i) ==> #[trigger] new_px[i] == (
        if glyph_pixel_on(font, c, (i % ppsl) - px, (i / ppsl) - py) {
            0xFFFFFFu32
        } else {
            0u32
        })
    &&& forall|i: int|
        0 <= i < new_px.len() && !in_glyph_rect(info, px, py, i) ==> #[trigger] new_px[i]
            == old_px[i]
}

/// The framebuffer glyph console: renders characters with an 8x16 bitmap
/// font, advancing a pixel cursor, honouring line feed and carriage return,
/// and truncating overflow past the last whole character cell of a line.
#[derive(Debug)]
pub struct EfiLogger {
    /// The frame buffer for the graphical output.
    pub buffer: FrameBuffer,
    /// The current pixel position on the horizontal line of the frame buffer.
    pub pos_x: u32,
    /// The current pixel position on the vertical line of the frame buffer.
    pub pos_y: u32,
    /// Max chars per line.
    pub chars_per_line: u32,
    /// The bitmap font: a four-byte header, then sixteen rows per glyph.
    pub font: Vec<u8>,
}

pub const NEW_LINE: u32 = 10;

pub const CARRIAGE_RETURN: u32 = 13;

impl EfiLogger {
    /// A well-formed console: a well-formed surface, the line width measured
    /// in whole character cells, and a cursor on a cell boundary.
    pub open spec fn wf(self) -> bool {
        &&& self.buffer.wf()
        &&& self.chars_per_line == self.buffer.info.screen_width / 8
        &&& self.pos_x % 8 == 0
    }

    /// Creates a console over a surface with the given font.
    pub fn with_font(buffer: FrameBuffer, font: Vec<u8>) -> (r: EfiLogger)
        requires
            buffer.wf(),
        ensures
            r.wf(),
            r.buffer == buffer,
            r.font == font,
            r.pos_x == 0,
            r.pos_y == 0,
            r.chars_per_line == buffer.info.screen_width / 8,
    {
        let chars_per_line = buffer.info.screen_width / 8;
        EfiLogger { buffer, pos_x: 0, pos_y: 0, chars_per_line, font }
    }

    /// Checks console well-formedness at run time.
    pub fn check_wf(&self) -> (r: bool)
        ensures
            r == self.wf(),
    {
        self.buffer.check_wf() && self.chars_per_line == self.buffer.info.screen_width / 8
            && self.pos_x % 8 == 0
    }

    /// Renders one character: a line feed moves the cursor down one cell row,
    /// a carriage return moves it to the line start, anything past the last
    /// whole cell of the line is dropped, and any other character paints its
    /// glyph cell and advances the cursor one cell.
    pub fn put_char(&mut self, c: u32)
        requires
            old(self).wf(),
            c == NEW_LINE ==> old(self).pos_y + 16 <= u32::MAX,
            (c != NEW_LINE && c != CARRIAGE_RETURN && old(self).pos_x / 8 < old(
                self,
            ).chars_per_line) ==> ({
                &&& 4 + 16 * c + 16 <= old(self).font@.len()
                &&& old(self).pos_x + 8 <= old(self).buffer.info.screen_width
                &&& old(self).pos_y + 16 <= old(self).buffer.info.screen_height
            }),
        ensures
            final(self).wf(),
            c == NEW_LINE ==> *final(self) == (EfiLogger {
                pos_y: (old(self).pos_y + 16) as u32,
                ..*old(self)
            }),
            c == CARRIAGE_RETURN ==> *final(self) == (EfiLogger { pos_x: 0, ..*old(self) }),
            (c != NEW_LINE && c != CARRIAGE_RETURN && old(self).pos_x / 8 >= old(
                self,
            ).chars_per_line) ==> *final(self) == *old(self),
            (c != NEW_LINE && c != CARRIAGE_RETURN && old(self).pos_x / 8 < old(
                self,
            ).chars_per_line) ==> ({
                &&& final(self).pos_x == old(self).pos_x + 8
                &&& final(self).pos_y == old(self).pos_y
                &&& final(self).chars_per_line == old(self).chars_per_line
                &&& final(self).font == old(self).font
                &&& final(self).buffer.info == old(self).buffer.info
                &&& glyph_updated(
                    old(self).buffer@,
                    final(self).buffer@,
                    old(self).buffer.info,
                    old(self).font@,
                    c,
                    old(self).pos_x,
                    old(self).pos_y,
                )
            }),
    {
        if c == NEW_LINE {
            self.pos_y = self.pos_y + 16;
            return ;
        }
        if c == CARRIAGE_RETURN {
            self.pos_x = 0;
            return ;
        }
        if self.pos_x / 8 >= self.chars_per_line {
            // Truncate overflow past the end of the line.
            return ;
        }
        let px = self.pos_x;
        let py = self.pos_y;
        let ghost info = self.buffer.info;
        let ghost ppsl = self.buffer.info.pixels_per_scan_line as int;
        let ghost old_px = self.buffer@;
        let flen = self.font.len();
        assert(4 + 16 * c + 16 <= flen);
        let start: usize = 4 + 16 * (c as usize);
        let mut y: u32 = 0;
        while y < 16
            invariant
                self.wf(),
                y <= 16,
                self.pos_x == px,
                self.pos_y == py,
                self.font == old(self).font,
                self.chars_per_line == old(self).chars_per_line,
                self.buffer.info == info,
                info == old(self).buffer.info,
                ppsl == info.pixels_per_scan_line as int,
                old_px == old(self).buffer@,
                start == 4 + 16 * c,
                4 + 16 * c + 16 <= self.font@.len(),
                self.font@.len() <= usize::MAX,
                px + 8 <= info.screen_width,
                py + 16 <= info.screen_height,
                px / 8 < self.chars_per_line,
                self.buffer@.len() == old_px.len(),
                forall|i: int|
                    0 <= i < old_px.len() && !in_glyph_rect(info, px, py, i)
                        ==> #[trigger] self.buffer@[i] == old_px[i],
                forall|i: int|
                    0 <= i < old_px.len() && in_glyph_rect(info, px, py, i) && (i / ppsl) - py < y
                        ==> #[trigger] self.buffer@[i] == (if glyph_pixel_on(
                        self.font@,
                        c,
                        (i % ppsl) - px,
                        (i / ppsl) - py,
                    ) {
                        0xFFFFFFu32
                    } else {
                        0u32
                    }),
            decreases 16 - y,
        {
            let row = self.font[start + (y as usize)];
            let mut x: u32 = 0;
            while x < 8
                invariant
                    self.wf(),
                    y < 16,
                    x <= 8,
                    self.pos_x == px,
                    self.pos_y == py,
                    self.font == old(self).font,
                    self.chars_per_line == old(self).chars_per_line,
                    self.buffer.info == info,
                    info == old(self).buffer.info,
                    ppsl == info.pixels_per_scan_line as int,
                    old_px == old(self).buffer@,
                    start == 4 + 16 * c,
                    4 + 16 * c + 16 <= self.font@.len(),
                    row == self.font@[4 + 16 * c + y],
                    px + 8 <= info.screen_width,
                    py + 16 <= info.screen_height,
                    px / 8 < self.chars_per_line,
                    self.buffer@.len() == old_px.len(),
                    forall|i: int|
                        0 <= i < old_px.len() && !in_glyph_rect(info, px, py, i)
                            ==> #[trigger] self.buffer@[i] == old_px[i],
                    forall|i: int|
                        0 <= i < old_px.len() && in_glyph_rect(info, px, py, i) && ((i / ppsl) - py
                            < y || ((i / ppsl) - py == y && (i % ppsl) - px < x))
                            ==> #[trigger] self.buffer@[i] == (if glyph_pixel_on(
                            self.font@,
                            c,
                            (i % ppsl) - px,
                            (i / ppsl) - py,
                        ) {
                            0xFFFFFFu32
                        } else {
                            0u32
                        }),
                decreases 8 - x,
            {
                let bit: u8 = 1u8 << ((7 - x) as u8);
                let on = row & bit == bit;
                let color: u32 = if on {
                    0xFFFFFF
                } else {
                    0
                };
                let ghost pos = (py + y) * ppsl + (px + x);
                let ghost prev = self.buffer@;
                proof {
                    lemma_mul_inequality(py + y + 1, info.screen_height as int, ppsl);
                    lemma_mul_is_distributive_add_other_way(ppsl, py + y, 1);
                    lemma_fundamental_div_mod_converse_div(pos, ppsl, py + y, px + x);
                    lemma_fundamental_div_mod_converse_mod(pos, ppsl, py + y, px + x);
                }
                self.buffer.draw_pixel(px + x, py + y, color);
                proof {
                    assert(pos % ppsl == px + x && pos / ppsl == py + y);
                    assert(0 <= pos < self.buffer@.len());
                    assert(self.buffer@[pos] == color);
                    assert(on == glyph_pixel_on(self.font@, c, x as int, y as int));
                    assert forall|i: int|
                        0 <= i < old_px.len() && in_glyph_rect(info, px, py, i) && ((i / ppsl) - py
                            < y || ((i / ppsl) - py == y && (i % ppsl) - px < x + 1)) implies #[trigger] self.buffer@[i]
                        == (if glyph_pixel_on(self.font@, c, (i % ppsl) - px, (i / ppsl) - py) {
                        0xFFFFFFu32
                    } else {
                        0u32
                    }) by {
                        lemma_fundamental_div_mod(i, ppsl);
                        if i == pos {
                            assert(i / ppsl == py + y && i % ppsl == px + x);
                        } else {
                            assert(i == ppsl * (i / ppsl) + i % ppsl);
                            if i / ppsl == py + y && i % ppsl == px + x {
                                assert(pos == ppsl * (py + y) + (px + x));
                                assert(false);
                            }
                            assert(self.buffer@[i] == prev[i]);
                            assert((i / ppsl) - py < y || ((i / ppsl) - py == y && (i % ppsl) - px
                                < x));
                        }
                    }
                }
                x = x + 1;
            }
            y = y + 1;
        }
        self.pos_x = px + 8;
    }
}

impl Logger for EfiLogger {
    fn new(buffer: FrameBuffer) -> Self {
        let chars_per_line = buffer.info.screen_width / 8;
        EfiLogger { buffer, pos_x: 0, pos_y: 0, chars_per_line, font: Vec::new() }
    }

    fn log_char(&mut self, c: u32) {
        if !self.check_wf() {
            return ;
        }
        if c == NEW_LINE {
            if self.pos_y <= u32::MAX - 16 {
                self.put_char(c);
            }
            return ;
        }
        if c == CARRIAGE_RETURN {
            self.put_char(c);
            return ;
        }
        if self.pos_x / 8 >= self.chars_per_line {
            self.put_char(c);
            return ;
        }
        let glyph_in_font = 20 + 16 * (c as u64) <= self.font.len() as u64;
        let cell_fits = (self.pos_x as u64) + 8 <= (self.buffer.info.screen_width as u64) && (
        self.pos_y as u64) + 16 <= (self.buffer.info.screen_height as u64);
        if glyph_in_font && cell_fits {
            self.put_char(c);
        }
    }
}

} // verus!
