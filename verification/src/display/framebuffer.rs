//! The graphics console: a linear pixel memory four bytes per pixel, a
//! character cursor, and the text layout that wraps and scrolls. The pixel
//! memory itself belongs to the display hardware; here it is modelled as
//! the byte vector the hardware scans out, so every write the console makes
//! is accounted for.

use vstd::prelude::*;

use crate::display::font::FramebufferFont;
use crate::display::formatting::{theme_rgb_spec, Color, Style};

verus! {

/// How the hardware lays a pixel's channels out in its four bytes.
#[derive(Clone, Copy, PartialEq, Eq, Structural, Debug)]
pub enum PixelFormat {
    Rgb,
    Bgr,
    Bitmask,
    BltOnly,
}

/// One pixel to draw: a position and an RGB color.
#[derive(Clone, Copy, Debug)]
pub struct Pixel {
    pub x: usize,
    pub y: usize,
    pub color: (u8, u8, u8),
}

/// A rectangle in pixels.
#[derive(Clone, Copy, Debug)]
pub struct Rect {
    pub x: usize,
    pub y: usize,
    pub width: usize,
    pub height: usize,
}

/// `mem` after one pixel is painted: green always lands in the second
/// byte; the red and blue bytes follow the pixel format, and formats
/// without a known channel order get only the green byte. A pixel off the
/// visible screen paints nothing.
pub open spec fn painted_pixel(
    mem: Seq<u8>,
    stride: int,
    format: PixelFormat,
    px: int,
    py: int,
    color: (u8, u8, u8),
    width: int,
    height: int,
) -> Seq<u8> {
    if 0 <= px < width && 0 <= py < height {
        let off = (py * stride + px) * 4;
        let m1 = mem.update(off + 1, color.1);
        if format == PixelFormat::Rgb {
            m1.update(off + 0, color.0).update(off + 2, color.2)
        } else if format == PixelFormat::Bgr {
            m1.update(off + 0, color.2).update(off + 2, color.0)
        } else {
            m1
        }
    } else {
        mem
    }
}

/// `mem` after `count` pixels of one row are painted, left to right from
/// `px0`.
pub open spec fn painted_row(
    mem: Seq<u8>,
    stride: int,
    format: PixelFormat,
    px0: int,
    count: int,
    py: int,
    color: (u8, u8, u8),
    width: int,
    height: int,
) -> Seq<u8>
    decreases count,
{
    if count <= 0 {
        mem
    } else {
        painted_pixel(
            painted_row(mem, stride, format, px0, count - 1, py, color, width, height),
            stride,
            format,
            px0 + count - 1,
            py,
            color,
            width,
            height,
        )
    }
}

/// `mem` after a rectangle of pixels is painted, row by row from `py0`.
pub open spec fn painted_rect(
    mem: Seq<u8>,
    stride: int,
    format: PixelFormat,
    px0: int,
    w: int,
    py0: int,
    h: int,
    color: (u8, u8, u8),
    width: int,
    height: int,
) -> Seq<u8>
    decreases h,
{
    if h <= 0 {
        mem
    } else {
        painted_row(
            painted_rect(mem, stride, format, px0, w, py0, h - 1, color, width, height),
            stride,
            format,
            px0,
            w,
            py0 + h - 1,
            color,
            width,
            height,
        )
    }
}

/// `mem` after a list of pixels is painted in order; a later pixel wins
/// where two land on the same spot.
pub open spec fn painted(
    mem: Seq<u8>,
    stride: int,
    format: PixelFormat,
    pixels: Seq<Pixel>,
    width: int,
    height: int,
) -> Seq<u8>
    decreases pixels.len(),
{
    if pixels.len() == 0 {
        mem
    } else {
        let p = pixels.last();
        painted_pixel(
            painted(mem, stride, format, pixels.drop_last(), width, height),
            stride,
            format,
            p.x as int,
            p.y as int,
            p.color,
            width,
            height,
        )
    }
}

/// Painting preserves the memory's size.
pub proof fn lemma_painted_pixel_len(
    mem: Seq<u8>,
    stride: int,
    format: PixelFormat,
    px: int,
    py: int,
    color: (u8, u8, u8),
    width: int,
    height: int,
)
    requires
        mem.len() == stride * height * 4,
        0 <= width <= stride,
        0 <= height,
    ensures
        painted_pixel(mem, stride, format, px, py, color, width, height).len() == mem.len(),
{
    if 0 <= px < width && 0 <= py < height {
        assert(py * stride >= 0 && (py * stride + px) * 4 + 3 < stride * height * 4)
            by (nonlinear_arith)
            requires
                0 <= px < width,
                0 <= py < height,
                0 <= width <= stride,
        ;
    }
}

/// Painting a row preserves the memory's size.
pub proof fn lemma_painted_row_len(
    mem: Seq<u8>,
    stride: int,
    format: PixelFormat,
    px0: int,
    count: int,
    py: int,
    color: (u8, u8, u8),
    width: int,
    height: int,
)
    requires
        mem.len() == stride * height * 4,
        0 <= width <= stride,
        0 <= height,
    ensures
        painted_row(mem, stride, format, px0, count, py, color, width, height).len() == mem.len(),
    decreases count,
{
    if count > 0 {
        lemma_painted_row_len(mem, stride, format, px0, count - 1, py, color, width, height);
        lemma_painted_pixel_len(
            painted_row(mem, stride, format, px0, count - 1, py, color, width, height),
            stride,
            format,
            px0 + count - 1,
            py,
            color,
            width,
            height,
        );
    }
}

/// Painting a rectangle preserves the memory's size.
pub proof fn lemma_painted_rect_len(
    mem: Seq<u8>,
    stride: int,
    format: PixelFormat,
    px0: int,
    w: int,
    py0: int,
    h: int,
    color: (u8, u8, u8),
    width: int,
    height: int,
)
    requires
        mem.len() == stride * height * 4,
        0 <= width <= stride,
        0 <= height,
    ensures
        painted_rect(mem, stride, format, px0, w, py0, h, color, width, height).len() == mem.len(),
    decreases h,
{
    if h > 0 {
        lemma_painted_rect_len(mem, stride, format, px0, w, py0, h - 1, color, width, height);
        lemma_painted_row_len(
            painted_rect(mem, stride, format, px0, w, py0, h - 1, color, width, height),
            stride,
            format,
            px0,
            w,
            py0 + h - 1,
            color,
            width,
            height,
        );
    }
}

/// Where the character cursor stands after one character: a newline or a
/// wrap past the last column starts a new line, and a line past the bottom
/// row scrolls, keeping the cursor on the bottom row.
pub open spec fn advanced_one(wchars: int, hchars: int, cur: (int, int), c: char) -> (int, int) {
    let stepped = if c == '\n' {
        (0int, cur.1 + 1)
    } else {
        if cur.0 + 1 >= wchars {
            (0int, cur.1 + 1)
        } else {
            (cur.0 + 1, cur.1)
        }
    };
    if stepped.1 >= hchars {
        (stepped.0, hchars - 1)
    } else {
        stepped
    }
}

/// Where the character cursor stands after a whole string.
pub open spec fn advanced(wchars: int, hchars: int, cur: (int, int), s: Seq<char>) -> (int, int)
    decreases s.len(),
{
    if s.len() == 0 {
        cur
    } else {
        advanced_one(wchars, hchars, advanced(wchars, hchars, cur, s.drop_last()), s.last())
    }
}

/// The graphics console. `raw_fb` models the hardware's pixel memory:
/// `stride` pixels per scanline (of which `x` are visible), `y` scanlines,
/// four bytes per pixel.
#[derive(Clone)]
pub struct Framebuffer {
    raw_fb: Vec<u8>,
    x: usize,
    y: usize,
    stride: usize,
    cursor_x: usize,
    cursor_y: usize,
    pix_format: PixelFormat,
    fg_color: Color,
    bg_color: Color,
    style: Style,
    font: FramebufferFont,
}

impl Framebuffer {
    /// The widest mode the console accepts.
    pub const MAX_WIDTH: usize = 1920;

    /// The tallest mode the console accepts.
    pub const MAX_HEIGHT: usize = 1080;

    /// The pixel memory.
    pub closed spec fn mem(&self) -> Seq<u8> {
        self.raw_fb@
    }

    pub closed spec fn width_spec(&self) -> int {
        self.x as int
    }

    pub closed spec fn height_spec(&self) -> int {
        self.y as int
    }

    pub closed spec fn stride_spec(&self) -> int {
        self.stride as int
    }

    pub closed spec fn cursor_spec(&self) -> (int, int) {
        (self.cursor_x as int, self.cursor_y as int)
    }

    pub closed spec fn format_spec(&self) -> PixelFormat {
        self.pix_format
    }

    pub closed spec fn font_spec(&self) -> FramebufferFont {
        self.font
    }

    /// The memory holds exactly the scanlines, the visible width fits the
    /// stride, and the font cell is non-empty.
    pub open spec fn wf(&self) -> bool {
        &&& self.mem().len() == self.stride_spec() * self.height_spec() * 4
        &&& self.width_spec() <= self.stride_spec()
        &&& self.font_spec().wf()
    }

    pub closed spec fn fg_color_spec_fb(&self) -> Color {
        self.fg_color
    }

    pub closed spec fn bg_color_spec_fb(&self) -> Color {
        self.bg_color
    }

    /// Whether the console is backed by real pixel memory.
    pub fn is_valid(&self) -> (r: bool)
        requires
            self.wf(),
        ensures
            r == (self.mem().len() > 0 && self.stride_spec() * self.height_spec() * 4 != 0),
    {
        self.raw_fb.len() > 0 && self.size() != 0
    }

    /// The pixel memory, as the hardware scans it out.
    pub fn get_raw(&mut self) -> (r: &Vec<u8>)
        ensures
            *final(self) == *old(self),
            r@ == old(self).mem(),
    {
        &self.raw_fb
    }

    /// Whether any pixel memory stands behind the console.
    pub fn has_memory(&self) -> (r: bool)
        ensures
            r == (self.mem().len() > 0),
    {
        self.raw_fb.len() > 0
    }

    /// The memory's size in bytes.
    pub fn size(&self) -> (r: usize)
        requires
            self.wf(),
        ensures
            r == self.stride_spec() * self.height_spec() * 4,
    {
        let n = self.raw_fb.len();
        proof {
            assert(self.stride_spec() * self.height_spec() >= 0 && self.stride_spec()
                * self.height_spec() <= self.stride_spec() * self.height_spec() * 4)
                by (nonlinear_arith)
                requires
                    self.stride_spec() >= 0,
                    self.height_spec() >= 0,
            ;
            assert(self.stride_spec() * self.height_spec() * 4 == n);
        }
        (self.stride * self.y) * 4
    }

    /// The visible width in pixels.
    pub fn width(&self) -> (r: usize)
        ensures
            r == self.width_spec(),
    {
        self.x
    }

    /// The visible height in pixels.
    pub fn height(&self) -> (r: usize)
        ensures
            r == self.height_spec(),
    {
        self.y
    }

    /// How many character columns fit.
    pub fn width_chars(&self) -> (r: usize)
        requires
            self.wf(),
        ensures
            r == self.width_spec() / self.font_spec().width_spec(),
    {
        self.x / self.font.width()
    }

    /// How many character rows fit.
    pub fn height_chars(&self) -> (r: usize)
        requires
            self.wf(),
        ensures
            r == self.height_spec() / self.font_spec().height_spec(),
    {
        self.y / self.font.height()
    }

    /// Where the character cursor stands: column and row.
    pub fn cursor(&self) -> (r: (usize, usize))
        ensures
            (r.0 as int, r.1 as int) == self.cursor_spec(),
    {
        (self.cursor_x, self.cursor_y)
    }

    /// The console font in use.
    pub fn font(&self) -> (r: FramebufferFont)
        ensures
            r == self.font_spec(),
    {
        self.font
    }

    /// A console over a freshly selected graphics mode: `width` by
    /// `height` visible pixels, `stride` pixels per scanline, rendered in
    /// the given font. The model starts from zeroed pixel memory.
    pub fn from_uefi(
        width: usize,
        height: usize,
        stride: usize,
        pix_format: PixelFormat,
        font: FramebufferFont,
    ) -> (r: Framebuffer)
        requires
            width <= stride,
            stride * height * 4 <= usize::MAX,
            font.wf(),
        ensures
            r.wf(),
            r.width_spec() == width,
            r.height_spec() == height,
            r.stride_spec() == stride,
            r.cursor_spec() == (0int, 0int),
            r.format_spec() == pix_format,
            r.font_spec() == font,
            r.fg_color_spec_fb() == Color::Default,
            r.bg_color_spec_fb() == Color::Black,
            r.style_kind() == Style::Unstyled,
            r.mem().len() == stride * height * 4,
    {
        proof {
            assert(stride * height >= 0) by (nonlinear_arith);
            assert(stride * height * 4 >= 0) by (nonlinear_arith)
                requires
                    stride * height >= 0,
            ;
        }
        let total: usize = (stride * height) * 4;
        let mut raw_fb: Vec<u8> = Vec::new();
        let mut i: usize = 0;
        while i < total
            invariant
                i == raw_fb@.len(),
                i <= total,
            decreases total - i,
        {
            raw_fb.push(0);
            i = i + 1;
        }
        Framebuffer {
            raw_fb,
            x: width,
            y: height,
            stride,
            cursor_x: 0,
            cursor_y: 0,
            pix_format,
            fg_color: Color::Default,
            bg_color: Color::Black,
            style: Style::Unstyled,
            font,
        }
    }

    /// Paints one pixel, matching [`painted_pixel`].
    fn put_pixel(&mut self, px: usize, py: usize, color: (u8, u8, u8))
        requires
            old(self).wf(),
        ensures
            final(self).wf(),
            final(self).mem() == painted_pixel(
                old(self).mem(),
                old(self).stride_spec(),
                old(self).format_spec(),
                px as int,
                py as int,
                color,
                old(self).width_spec(),
                old(self).height_spec(),
            ),
            unchanged_but_mem(*old(self), *final(self)),
    {
        if px < self.x && py < self.y {
            let n = self.raw_fb.len();
            proof {
                assert((py as int) * self.stride_spec() >= 0 && (py as int) * self.stride_spec()
                    + (px as int) + 1 <= self.stride_spec() * self.height_spec())
                    by (nonlinear_arith)
                    requires
                        0 <= (px as int) < self.width_spec(),
                        0 <= (py as int) < self.height_spec(),
                        self.width_spec() <= self.stride_spec(),
                ;
                assert(((py as int) * self.stride_spec() + (px as int)) * 4 + 3 < self.stride_spec()
                    * self.height_spec() * 4) by (nonlinear_arith)
                    requires
                        (py as int) * self.stride_spec() >= 0,
                        (py as int) * self.stride_spec() + (px as int) + 1 <= self.stride_spec()
                            * self.height_spec(),
                ;
                assert(self.stride_spec() * self.height_spec() * 4 == n);
            }
            let off: usize = (py * self.stride + px) * 4;
            self.raw_fb.set(off + 1, color.1);
            if self.pix_format == PixelFormat::Rgb {
                self.raw_fb.set(off + 0, color.0);
                self.raw_fb.set(off + 2, color.2);
            } else if self.pix_format == PixelFormat::Bgr {
                self.raw_fb.set(off + 0, color.2);
                self.raw_fb.set(off + 2, color.0);
            }
        }
    }

    /// Paints a rectangle of pixels, matching [`painted_rect`]; whatever
    /// falls off the visible screen is skipped.
    fn fill_rect(&mut self, px0: usize, w: usize, py0: usize, h: usize, color: (u8, u8, u8))
        requires
            old(self).wf(),
            px0 + w <= usize::MAX,
            py0 + h <= usize::MAX,
        ensures
            final(self).wf(),
            final(self).mem() == painted_rect(
                old(self).mem(),
                old(self).stride_spec(),
                old(self).format_spec(),
                px0 as int,
                w as int,
                py0 as int,
                h as int,
                color,
                old(self).width_spec(),
                old(self).height_spec(),
            ),
            unchanged_but_mem(*old(self), *final(self)),
    {
        let mut row: usize = 0;
        while row < h
            invariant
                old(self).wf(),
                self.wf(),
                px0 + w <= usize::MAX,
                py0 + h <= usize::MAX,
                row <= h,
                self.mem() == painted_rect(
                    old(self).mem(),
                    old(self).stride_spec(),
                    old(self).format_spec(),
                    px0 as int,
                    w as int,
                    py0 as int,
                    row as int,
                    color,
                    old(self).width_spec(),
                    old(self).height_spec(),
                ),
                unchanged_but_mem(*old(self), *self),
            decreases h - row,
        {
            let ghost row_base = self.mem();
            let py = py0 + row;
            let mut col: usize = 0;
            while col < w
                invariant
                    old(self).wf(),
                    self.wf(),
                    px0 + w <= usize::MAX,
                    py == py0 + row,
                    col <= w,
                    self.mem() == painted_row(
                        row_base,
                        old(self).stride_spec(),
                        old(self).format_spec(),
                        px0 as int,
                        col as int,
                        py as int,
                        color,
                        old(self).width_spec(),
                        old(self).height_spec(),
                    ),
                    unchanged_but_mem(*old(self), *self),
                decreases w - col,
            {
                self.put_pixel(px0 + col, py, color);
                col = col + 1;
            }
            row = row + 1;
        }
    }

    /// Fills a rectangle with a solid color; the display's accelerated
    /// fill does this in hardware, and this model writes the same bytes.
    pub fn fill_solid(&mut self, area: &Rect, color: (u8, u8, u8))
        requires
            old(self).wf(),
            area.x + area.width <= usize::MAX,
            area.y + area.height <= usize::MAX,
        ensures
            final(self).wf(),
            final(self).mem() == painted_rect(
                old(self).mem(),
                old(self).stride_spec(),
                old(self).format_spec(),
                area.x as int,
                area.width as int,
                area.y as int,
                area.height as int,
                color,
                old(self).width_spec(),
                old(self).height_spec(),
            ),
            unchanged_but_mem(*old(self), *final(self)),
    {
        self.fill_rect(area.x, area.width, area.y, area.height, color)
    }

    /// Fills the whole screen with a solid color.
    pub fn clear(&mut self, color: (u8, u8, u8))
        requires
            old(self).wf(),
        ensures
            final(self).wf(),
            final(self).mem() == painted_rect(
                old(self).mem(),
                old(self).stride_spec(),
                old(self).format_spec(),
                0,
                old(self).width_spec(),
                0,
                old(self).height_spec(),
                color,
                old(self).width_spec(),
                old(self).height_spec(),
            ),
            unchanged_but_mem(*old(self), *final(self)),
    {
        let width = self.x;
        let height = self.y;
        self.fill_rect(0, width, 0, height, color)
    }

    /// Draws a list of pixels one by one, skipping any that fall off the
    /// visible screen; the slow path the hardware fill cannot cover.
    pub fn draw_iter(&mut self, pixels: &Vec<Pixel>)
        requires
            old(self).wf(),
        ensures
            final(self).wf(),
            final(self).mem() == painted(
                old(self).mem(),
                old(self).stride_spec(),
                old(self).format_spec(),
                pixels@,
                old(self).width_spec(),
                old(self).height_spec(),
            ),
            unchanged_but_mem(*old(self), *final(self)),
    {
        let n = pixels.len();
        let mut i: usize = 0;
        while i < n
            invariant
                old(self).wf(),
                self.wf(),
                n == pixels@.len(),
                i <= n,
                self.mem() == painted(
                    old(self).mem(),
                    old(self).stride_spec(),
                    old(self).format_spec(),
                    pixels@.take(i as int),
                    old(self).width_spec(),
                    old(self).height_spec(),
                ),
                unchanged_but_mem(*old(self), *self),
            decreases n - i,
        {
            let p = pixels[i];
            self.put_pixel(p.x, p.y, p.color);
            proof {
                assert(pixels@.take(i + 1).drop_last() =~= pixels@.take(i as int));
                assert(pixels@.take(i + 1).last() == pixels@[i as int]);
            }
            i = i + 1;
        }
        proof {
            assert(pixels@.take(n as int) =~= pixels@);
        }
    }

    /// Scrolls the visible contents up by `lines` text rows: the scanlines
    /// below the scrolled-off band move up in one block copy, the vacated
    /// band at the bottom is filled with the background color, and the
    /// cursor follows its line up.
    pub fn scroll(&mut self, lines: usize)
        requires
            old(self).wf(),
            lines <= old(self).cursor_spec().1,
            old(self).font_spec().height_spec() * lines <= old(self).height_spec(),
        ensures
            final(self).wf(),
            final(self).cursor_spec() == (
                old(self).cursor_spec().0,
                old(self).cursor_spec().1 - lines,
            ),
            final(self).width_spec() == old(self).width_spec(),
            final(self).height_spec() == old(self).height_spec(),
            final(self).stride_spec() == old(self).stride_spec(),
            final(self).format_spec() == old(self).format_spec(),
            final(self).font_spec() == old(self).font_spec(),
            final(self).fg_color_spec_fb() == old(self).fg_color_spec_fb(),
            final(self).bg_color_spec_fb() == old(self).bg_color_spec_fb(),
            ({
                let fh = old(self).font_spec().height_spec();
                let shift = fh * lines * old(self).stride_spec() * 4;
                let keep = (old(self).height_spec() - fh * lines) * old(self).stride_spec() * 4;
                let copied = Seq::new(
                    old(self).mem().len(),
                    |i: int|
                        if i < keep {
                            old(self).mem()[i + shift]
                        } else {
                            old(self).mem()[i]
                        },
                );
                final(self).mem() == painted_rect(
                    copied,
                    old(self).stride_spec(),
                    old(self).format_spec(),
                    0,
                    old(self).width_spec(),
                    old(self).height_spec() - fh * lines,
                    fh * lines,
                    theme_rgb_spec(old(self).bg_color_spec_fb()),
                    old(self).width_spec(),
                    old(self).height_spec(),
                )
            }),
    {
        let fh = self.font.height();
        let band: usize = fh * lines;
        let keep_rows: usize = self.y - band;
        let total = self.raw_fb.len();
        proof {
            assert((keep_rows as int) * self.stride_spec() >= 0 && (keep_rows as int)
                * self.stride_spec() <= (keep_rows as int) * self.stride_spec() * 4 && (
            keep_rows as int) * self.stride_spec() * 4 <= self.stride_spec() * self.height_spec()
                * 4 && (band as int) * self.stride_spec() >= 0 && (band as int)
                * self.stride_spec() <= (band as int) * self.stride_spec() * 4 && (band as int)
                * self.stride_spec() * 4 <= self.stride_spec() * self.height_spec() * 4 && (
            keep_rows as int) * self.stride_spec() * 4 + (band as int) * self.stride_spec() * 4
                == self.stride_spec() * self.height_spec() * 4) by (nonlinear_arith)
                requires
                    0 <= keep_rows,
                    0 <= band,
                    keep_rows + band == self.height_spec(),
                    self.stride_spec() >= 0,
            ;
            assert(self.stride_spec() * self.height_spec() * 4 == total);
        }
        let keep_bytes: usize = (keep_rows * self.stride) * 4;
        let shift: usize = (band * self.stride) * 4;
        proof {
            assert(keep_bytes + shift == total);
        }
        let ghost pre = self.mem();
        let mut i: usize = 0;
        while i < keep_bytes
            invariant
                keep_bytes + shift == total,
                total == self.raw_fb@.len(),
                pre.len() == total,
                i <= keep_bytes,
                forall|k: int| 0 <= k < i ==> self.raw_fb@[k] == pre[k + shift],
                forall|k: int| i <= k < total ==> self.raw_fb@[k] == pre[k],
                self.width_spec() == old(self).width_spec(),
                self.height_spec() == old(self).height_spec(),
                self.stride_spec() == old(self).stride_spec(),
                self.cursor_spec() == old(self).cursor_spec(),
                self.format_spec() == old(self).format_spec(),
                self.font_spec() == old(self).font_spec(),
                self.fg_color_spec_fb() == old(self).fg_color_spec_fb(),
                self.bg_color_spec_fb() == old(self).bg_color_spec_fb(),
                self.style_kind() == old(self).style_kind(),
                self.wf(),
            decreases keep_bytes - i,
        {
            let b = self.raw_fb[i + shift];
            self.raw_fb.set(i, b);
            i = i + 1;
        }
        proof {
            let fh_s = old(self).font_spec().height_spec();
            let stride_s = old(self).stride_spec();
            let height_s = old(self).height_spec();
            let shift_s = fh_s * (lines as int) * stride_s * 4;
            let keep_s = (height_s - fh_s * (lines as int)) * stride_s * 4;
            assert(shift_s == shift && keep_s == keep_bytes) by (nonlinear_arith)
                requires
                    fh_s == fh,
                    band == fh_s * (lines as int),
                    keep_rows == height_s - fh_s * (lines as int),
                    shift == (band as int) * stride_s * 4,
                    keep_bytes == (keep_rows as int) * stride_s * 4,
                    shift_s == fh_s * (lines as int) * stride_s * 4,
                    keep_s == (height_s - fh_s * (lines as int)) * stride_s * 4,
            ;
            assert(self.mem() =~= Seq::new(
                old(self).mem().len(),
                |i: int|
                    if i < keep_s {
                        old(self).mem()[i + shift_s]
                    } else {
                        old(self).mem()[i]
                    },
            ));
        }
        let ghost copied = self.mem();
        let width = self.x;
        self.fill_rect_colored_bg(0, width, keep_rows, band);
        proof {
            assert(self.mem() == painted_rect(
                copied,
                old(self).stride_spec(),
                old(self).format_spec(),
                0,
                old(self).width_spec(),
                keep_rows as int,
                band as int,
                theme_rgb_spec(old(self).bg_color_spec_fb()),
                old(self).width_spec(),
                old(self).height_spec(),
            ));
        }
        self.cursor_y = self.cursor_y - lines;
    }

    /// Fills a rectangle with the current background color.
    fn fill_rect_colored_bg(&mut self, px0: usize, w: usize, py0: usize, h: usize)
        requires
            old(self).wf(),
            px0 + w <= usize::MAX,
            py0 + h <= usize::MAX,
        ensures
            final(self).wf(),
            final(self).mem() == painted_rect(
                old(self).mem(),
                old(self).stride_spec(),
                old(self).format_spec(),
                px0 as int,
                w as int,
                py0 as int,
                h as int,
                theme_rgb_spec(old(self).bg_color_spec_fb()),
                old(self).width_spec(),
                old(self).height_spec(),
            ),
            unchanged_but_mem(*old(self), *final(self)),
    {
        let bg = self.bg_color.theme_rgb();
        self.fill_rect(px0, w, py0, h, bg)
    }

    /// Writes text at the cursor, one character cell at a time: a newline
    /// or running past the last column starts a new line, and a line past
    /// the bottom row scrolls the screen up one text row first. Each
    /// character paints its cell; the glyph raster itself comes from the
    /// embedded font outside this library, so the model paints the cell in
    /// the foreground color.
    pub fn write_str(&mut self, s: &str)
        requires
            old(self).wf(),
            vstd::string::is_ascii(s),
            old(self).width_spec() / old(self).font_spec().width_spec() >= 1,
            old(self).height_spec() / old(self).font_spec().height_spec() >= 1,
            0 <= old(self).cursor_spec().0 < old(self).width_spec() / old(
                self,
            ).font_spec().width_spec(),
            0 <= old(self).cursor_spec().1 < old(self).height_spec() / old(
                self,
            ).font_spec().height_spec(),
        ensures
            final(self).wf(),
            final(self).cursor_spec() == advanced(
                old(self).width_spec() / old(self).font_spec().width_spec(),
                old(self).height_spec() / old(self).font_spec().height_spec(),
                old(self).cursor_spec(),
                s@,
            ),
            final(self).width_spec() == old(self).width_spec(),
            final(self).height_spec() == old(self).height_spec(),
            final(self).stride_spec() == old(self).stride_spec(),
            final(self).format_spec() == old(self).format_spec(),
            final(self).font_spec() == old(self).font_spec(),
            final(self).fg_color_spec_fb() == old(self).fg_color_spec_fb(),
            final(self).bg_color_spec_fb() == old(self).bg_color_spec_fb(),
            final(self).mem().len() == old(self).mem().len(),
    {
        let wchars = self.width_chars();
        let hchars = self.height_chars();
        let fw = self.font.width();
        let fh = self.font.height();
        proof {
            assert(wchars * fw <= self.width_spec() && hchars * fh <= self.height_spec())
                by (nonlinear_arith)
                requires
                    fw >= 1,
                    fh >= 1,
                    wchars == self.width_spec() / (fw as int),
                    hchars == self.height_spec() / (fh as int),
                    self.width_spec() >= 0,
                    self.height_spec() >= 0,
            ;
            reveal_strlit("\n");
        }
        let n = s.unicode_len();
        let mut i: usize = 0;
        while i < n
            invariant
                old(self).wf(),
                self.wf(),
                vstd::string::is_ascii(s),
                n == s@.len(),
                i <= n,
                wchars == old(self).width_spec() / old(self).font_spec().width_spec(),
                hchars == old(self).height_spec() / old(self).font_spec().height_spec(),
                fw == old(self).font_spec().width_spec(),
                fh == old(self).font_spec().height_spec(),
                wchars >= 1,
                hchars >= 1,
                wchars * fw <= old(self).width_spec(),
                hchars * fh <= old(self).height_spec(),
                self.cursor_spec() == advanced(
                    wchars as int,
                    hchars as int,
                    old(self).cursor_spec(),
                    s@.take(i as int),
                ),
                0 <= self.cursor_spec().0 < wchars,
                0 <= self.cursor_spec().1 < hchars,
                self.width_spec() == old(self).width_spec(),
                self.height_spec() == old(self).height_spec(),
                self.stride_spec() == old(self).stride_spec(),
                self.format_spec() == old(self).format_spec(),
                self.font_spec() == old(self).font_spec(),
                self.fg_color_spec_fb() == old(self).fg_color_spec_fb(),
                self.bg_color_spec_fb() == old(self).bg_color_spec_fb(),
                self.mem().len() == old(self).mem().len(),
            decreases n - i,
        {
            proof {
                reveal_strlit("\n");
            }
            let ghost cur_pre = self.cursor_spec();
            let c = s.get_char(i);
            if c == '\n' {
                self.cursor_x = 0;
                self.cursor_y = self.cursor_y + 1;
            } else {
                proof {
                    assert(self.cursor_spec().0 * (fw as int) + fw <= wchars * fw && self
                        .cursor_spec().1 * (fh as int) + fh <= hchars * fh) by (nonlinear_arith)
                        requires
                            0 <= self.cursor_spec().0 < wchars,
                            0 <= self.cursor_spec().1 < hchars,
                            fw >= 1,
                            fh >= 1,
                    ;
                }
                let fg = self.fg_color.theme_rgb();
                let px0 = self.cursor_x * fw;
                let py0 = self.cursor_y * fh;
                self.fill_rect(px0, fw, py0, fh, fg);
                self.cursor_x = self.cursor_x + 1;
                if self.cursor_x >= wchars {
                    self.cursor_x = 0;
                    self.cursor_y = self.cursor_y + 1;
                }
            }
            if self.cursor_y >= hchars {
                proof {
                    let height_s = self.height_spec();
                    assert((fh as int) * 1 <= height_s) by (nonlinear_arith)
                        requires
                            hchars >= 1,
                            fh >= 1,
                            (hchars as int) * (fh as int) <= height_s,
                    ;
                }
                self.scroll(1);
            }
            proof {
                assert(s@.take(i + 1).drop_last() =~= s@.take(i as int));
                assert(s@.take(i + 1).last() == s@[i as int]);
                assert(self.cursor_spec() == advanced_one(
                    wchars as int,
                    hchars as int,
                    cur_pre,
                    s@[i as int],
                ));
            }
            i = i + 1;
        }
        proof {
            assert(s@.take(n as int) =~= s@);
        }
    }

    /// Clears the screen to the background color and puts the cursor back
    /// at the top left.
    pub fn clear_screen(&mut self)
        requires
            old(self).wf(),
        ensures
            final(self).wf(),
            final(self).mem() == painted_rect(
                old(self).mem(),
                old(self).stride_spec(),
                old(self).format_spec(),
                0,
                old(self).width_spec(),
                0,
                old(self).height_spec(),
                theme_rgb_spec(old(self).bg_color_spec_fb()),
                old(self).width_spec(),
                old(self).height_spec(),
            ),
            final(self).cursor_spec() == (0int, 0int),
            final(self).width_spec() == old(self).width_spec(),
            final(self).height_spec() == old(self).height_spec(),
            final(self).stride_spec() == old(self).stride_spec(),
            final(self).format_spec() == old(self).format_spec(),
            final(self).font_spec() == old(self).font_spec(),
            final(self).fg_color_spec_fb() == old(self).fg_color_spec_fb(),
            final(self).bg_color_spec_fb() == old(self).bg_color_spec_fb(),
            final(self).style_kind() == old(self).style_kind(),
    {
        let bg = self.bg_color.theme_rgb();
        self.clear(bg);
        self.cursor_x = 0;
        self.cursor_y = 0;
    }
}

/// Everything of the console except the pixel memory reads back the same.
pub open spec fn unchanged_but_mem(pre: Framebuffer, post: Framebuffer) -> bool {
    &&& post.width_spec() == pre.width_spec()
    &&& post.height_spec() == pre.height_spec()
    &&& post.stride_spec() == pre.stride_spec()
    &&& post.cursor_spec() == pre.cursor_spec()
    &&& post.format_spec() == pre.format_spec()
    &&& post.font_spec() == pre.font_spec()
    &&& post.fg_color_spec_fb() == pre.fg_color_spec_fb()
    &&& post.bg_color_spec_fb() == pre.bg_color_spec_fb()
    &&& post.style_kind() == pre.style_kind()
}

impl Default for Framebuffer {
    /// The empty console: no pixel memory, used before graphics come up.
    fn default() -> (r: Self)
        ensures
            r.wf(),
            r.mem().len() == 0,
            r.width_spec() == 0,
            r.height_spec() == 0,
            r.stride_spec() == 0,
            r.cursor_spec() == (0int, 0int),
            r.format_spec() == PixelFormat::Rgb,
            r.fg_color_spec_fb() == Color::Default,
            r.bg_color_spec_fb() == Color::Black,
    {
        Framebuffer {
            raw_fb: Vec::new(),
            x: 0,
            y: 0,
            stride: 0,
            cursor_x: 0,
            cursor_y: 0,
            pix_format: PixelFormat::Rgb,
            fg_color: Color::Default,
            bg_color: Color::Black,
            style: Style::Unstyled,
            font: FramebufferFont::new(8, 16),
        }
    }
}

impl Framebuffer {
    /// The current style.
    pub closed spec fn style_kind(&self) -> Style {
        self.style
    }

    /// Sets the foreground used for subsequent text.
    pub fn set_fg_color(&mut self, color: Color)
        ensures
            final(self).fg_color_spec_fb() == color,
            final(self).bg_color_spec_fb() == old(self).bg_color_spec_fb(),
            final(self).style_kind() == old(self).style_kind(),
            final(self).mem() == old(self).mem(),
            final(self).cursor_spec() == old(self).cursor_spec(),
            final(self).width_spec() == old(self).width_spec(),
            final(self).height_spec() == old(self).height_spec(),
            final(self).stride_spec() == old(self).stride_spec(),
            final(self).format_spec() == old(self).format_spec(),
            final(self).font_spec() == old(self).font_spec(),
            final(self).wf() == old(self).wf(),
    {
        self.fg_color = color;
    }

    pub fn get_fg_color(&self) -> (r: Color)
        ensures
            r == self.fg_color_spec_fb(),
    {
        self.fg_color
    }

    /// Sets the background used for clears and scroll fills.
    pub fn set_bg_color(&mut self, color: Color)
        ensures
            final(self).bg_color_spec_fb() == color,
            final(self).fg_color_spec_fb() == old(self).fg_color_spec_fb(),
            final(self).style_kind() == old(self).style_kind(),
            final(self).mem() == old(self).mem(),
            final(self).cursor_spec() == old(self).cursor_spec(),
            final(self).width_spec() == old(self).width_spec(),
            final(self).height_spec() == old(self).height_spec(),
            final(self).stride_spec() == old(self).stride_spec(),
            final(self).format_spec() == old(self).format_spec(),
            final(self).font_spec() == old(self).font_spec(),
            final(self).wf() == old(self).wf(),
    {
        self.bg_color = color;
    }

    pub fn get_bg_color(&self) -> (r: Color)
        ensures
            r == self.bg_color_spec_fb(),
    {
        self.bg_color
    }

    /// Sets the text style.
    pub fn set_style(&mut self, style: Style)
        ensures
            final(self).style_kind() == style,
            final(self).fg_color_spec_fb() == old(self).fg_color_spec_fb(),
            final(self).bg_color_spec_fb() == old(self).bg_color_spec_fb(),
            final(self).mem() == old(self).mem(),
            final(self).cursor_spec() == old(self).cursor_spec(),
            final(self).width_spec() == old(self).width_spec(),
            final(self).height_spec() == old(self).height_spec(),
            final(self).stride_spec() == old(self).stride_spec(),
            final(self).format_spec() == old(self).format_spec(),
            final(self).font_spec() == old(self).font_spec(),
            final(self).wf() == old(self).wf(),
    {
        self.style = style;
    }

    pub fn get_style(&self) -> (r: Style)
        ensures
            r == self.style_kind(),
    {
        self.style
    }
}

} // verus!
