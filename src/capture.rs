//! Cropping a selected rectangle out of a screen snapshot.
use vstd::prelude::*;
use vstd::arithmetic::div_mod::lemma_fundamental_div_mod_converse;
use crate::geometry::Area;

verus! {

/// A full-screen pixel snapshot. Row `y` starts at byte `y * rowstride`;
/// each pixel holds `n_channels` bytes (RGB, or RGBA when four); the last
/// row need not be padded up to `rowstride`.
#[derive(Clone, Debug)]
pub struct ScreenBuffer {
    pub width: u32,
    pub height: u32,
    pub rowstride: usize,
    pub n_channels: usize,
    pub pixels: Vec<u8>,
}

/// Pixels of a cropped region, row by row, four bytes (RGBA) per pixel.
#[derive(Clone, Debug)]
pub struct CroppedImage {
    pub width: u32,
    pub height: u32,
    pub pixels: Vec<u8>,
}

/// A region of a buffer, in pixels, lying wholly inside it.
#[derive(Clone, Copy, Debug, PartialEq, Eq, Structural)]
pub struct Region {
    pub x: u32,
    pub y: u32,
    pub width: u32,
    pub height: u32,
}

/// `v` brought into `[lo, hi]`.
pub open spec fn clamp(v: int, lo: int, hi: int) -> int {
    if v < lo {
        lo
    } else if v > hi {
        hi
    } else {
        v
    }
}

impl ScreenBuffer {
    /// The layout fits the bytes, and an RGBA copy of the whole screen fits
    /// in memory.
    pub open spec fn wf(&self) -> bool {
        &&& self.n_channels == 3 || self.n_channels == 4
        &&& self.rowstride >= self.width * self.n_channels
        &&& self.height == 0 || self.pixels@.len() >= (self.height - 1) * self.rowstride
            + self.width * self.n_channels
        &&& self.width * self.height * 4 <= usize::MAX
    }

    /// Whether the layout fits the bytes, as `wf` states it.
    pub fn is_well_formed(&self) -> (r: bool)
        ensures
            r == self.wf(),
    {
        let w = self.width as u128;
        let h = self.height as u128;
        let rs = self.rowstride as u128;
        let nch = self.n_channels as u128;
        let len = self.pixels.len() as u128;
        if nch != 3 && nch != 4 {
            return false;
        }
        let row_bytes = w * nch;
        if rs < row_bytes {
            return false;
        }
        if h > 0 {
            assert((h - 1) * rs <= 0xffff_ffff * 0xffff_ffff_ffff_ffff) by (nonlinear_arith)
                requires
                    h - 1 <= 0xffff_ffff,
                    rs <= 0xffff_ffff_ffff_ffff,
            ;
            if len < (h - 1) * rs + row_bytes {
                return false;
            }
        }
        assert(w * h <= 0xffff_ffff * 0xffff_ffff) by (nonlinear_arith)
            requires
                w <= 0xffff_ffff,
                h <= 0xffff_ffff,
        ;
        w * h * 4 <= usize::MAX as u128
    }

    /// Channel `k` (red, green, blue, alpha) of the pixel at `(x, y)`; a
    /// buffer without alpha is opaque.
    pub open spec fn rgba_at(&self, x: int, y: int, k: int) -> u8 {
        if k < self.n_channels {
            self.pixels@[y * self.rowstride + x * self.n_channels + k]
        } else {
            255u8
        }
    }
}

impl CroppedImage {
    /// Exactly four bytes per pixel.
    pub open spec fn wf(&self) -> bool {
        self.pixels@.len() == self.width * self.height * 4
    }
}

/// The part of `area` that lies on a `width` by `height` screen.
pub open spec fn clamped_region(area: Area, width: int, height: int) -> Region {
    let x0 = clamp(area.left_spec(), 0, width);
    let y0 = clamp(area.top_spec(), 0, height);
    let x1 = clamp(area.left_spec() + area.width_spec(), 0, width);
    let y1 = clamp(area.top_spec() + area.height_spec(), 0, height);
    Region { x: x0 as u32, y: y0 as u32, width: (x1 - x0) as u32, height: (y1 - y0) as u32 }
}

/// The RGBA bytes of region `r` of `b`, row by row.
pub open spec fn cropped_bytes(b: ScreenBuffer, r: Region) -> Seq<u8> {
    Seq::new(
        (r.width * r.height * 4) as nat,
        |i: int| b.rgba_at(r.x + (i / 4) % (r.width as int), r.y + (i / 4) / (r.width as int), i % 4),
    )
}

/// Clips `area` to a `width` by `height` screen: the result never reaches
/// outside the screen, and is empty when `area` does not meet it.
pub fn clamp_to_buffer(area: &Area, width: u32, height: u32) -> (r: Region)
    ensures
        r == clamped_region(*area, width as int, height as int),
        r.x + r.width <= width,
        r.y + r.height <= height,
{
    let corner = area.top_left();
    let left = corner.x as i64;
    let top = corner.y as i64;
    let right = left + area.get_width() as i64;
    let bottom = top + area.get_height() as i64;
    let x0 = clamp_i64(left, width as i64);
    let y0 = clamp_i64(top, height as i64);
    let x1 = clamp_i64(right, width as i64);
    let y1 = clamp_i64(bottom, height as i64);
    Region { x: x0 as u32, y: y0 as u32, width: (x1 - x0) as u32, height: (y1 - y0) as u32 }
}

fn clamp_i64(v: i64, hi: i64) -> (r: i64)
    requires
        hi >= 0,
    ensures
        r == clamp(v as int, 0, hi as int),
{
    if v < 0 {
        0
    } else if v > hi {
        hi
    } else {
        v
    }
}

/// The clipped region of any selection lies wholly on the screen.
pub proof fn lemma_region_inside_buffer(area: Area, width: u32, height: u32)
    ensures
        clamped_region(area, width as int, height as int).x + clamped_region(
            area,
            width as int,
            height as int,
        ).width <= width,
        clamped_region(area, width as int, height as int).y + clamped_region(
            area,
            width as int,
            height as int,
        ).height <= height,
{
}

/// A selection that lies wholly on the screen is kept as it is: its
/// top-left corner and its size.
pub proof fn lemma_inside_selection_kept(area: Area, width: u32, height: u32)
    requires
        0 <= area.left_spec(),
        area.left_spec() + area.width_spec() <= width,
        0 <= area.top_spec(),
        area.top_spec() + area.height_spec() <= height,
    ensures
        clamped_region(area, width as int, height as int).x == area.left_spec(),
        clamped_region(area, width as int, height as int).y == area.top_spec(),
        clamped_region(area, width as int, height as int).width == area.width_spec(),
        clamped_region(area, width as int, height as int).height == area.height_spec(),
{
}

/// A selection whose two corners coincide covers no pixel, wherever it
/// lies, so cropping it always gives `None`.
pub proof fn lemma_degenerate_selection_empty(p: crate::geometry::Position, width: u32, height: u32)
    ensures
        clamped_region(Area { start: p, end: p }, width as int, height as int).width == 0,
        clamped_region(Area { start: p, end: p }, width as int, height as int).height == 0,
{
}

proof fn lemma_pixel_index(row: int, col: int, k: int, w: int)
    requires
        0 <= row,
        0 <= col < w,
        0 <= k < 4,
    ensures
        ((row * w + col) * 4 + k) / 4 == row * w + col,
        ((row * w + col) * 4 + k) % 4 == k,
        (row * w + col) / w == row,
        (row * w + col) % w == col,
{
    lemma_fundamental_div_mod_converse((row * w + col) * 4 + k, 4, row * w + col, k);
    lemma_fundamental_div_mod_converse(row * w + col, w, row, col);
}

/// Copies the part of `area` that lies on the screen out of `buffer`, as
/// RGBA. A selection that covers no pixel of the screen (zero width or
/// height once clipped, as when start and end coincide) gives `None`.
pub fn crop(buffer: &ScreenBuffer, area: &Area) -> (r: Option<CroppedImage>)
    requires
        buffer.wf(),
    ensures
        ({
            let reg = clamped_region(*area, buffer.width as int, buffer.height as int);
            &&& r is None <==> (reg.width == 0 || reg.height == 0)
            &&& r is Some ==> {
                let img = r->0;
                &&& img.width == reg.width
                &&& img.height == reg.height
                &&& img.pixels@ == cropped_bytes(*buffer, reg)
                &&& img.wf()
            }
        }),
{
    let reg = clamp_to_buffer(area, buffer.width, buffer.height);
    if reg.width == 0 || reg.height == 0 {
        return None;
    }
    let ghost target = cropped_bytes(*buffer, reg);
    let w = reg.width as usize;
    let h = reg.height as usize;
    let rs = buffer.rowstride;
    let nch = buffer.n_channels;
    let total = buffer.pixels.len();
    proof {
        assert(w * h <= buffer.width * buffer.height) by (nonlinear_arith)
            requires
                w <= buffer.width,
                h <= buffer.height,
        ;
    }
    assert(target.len() == w * h * 4);
    let mut out: Vec<u8> = Vec::new();
    let mut row: usize = 0;
    while row < h
        invariant
            buffer.wf(),
            reg == clamped_region(*area, buffer.width as int, buffer.height as int),
            reg.x + reg.width <= buffer.width,
            reg.y + reg.height <= buffer.height,
            w == reg.width,
            h == reg.height,
            w > 0,
            rs == buffer.rowstride,
            nch == buffer.n_channels,
            total == buffer.pixels@.len(),
            target == cropped_bytes(*buffer, reg),
            row <= h,
            out@.len() == row * w * 4,
            target.len() == w * h * 4,
            w * h <= buffer.width * buffer.height,
            forall|i: int| 0 <= i < out@.len() ==> out@[i] == target[i],
        decreases h - row,
    {
        let mut col: usize = 0;
        while col < w
            invariant
                buffer.wf(),
                reg.x + reg.width <= buffer.width,
                reg.y + reg.height <= buffer.height,
                w == reg.width,
                h == reg.height,
                rs == buffer.rowstride,
                nch == buffer.n_channels,
                total == buffer.pixels@.len(),
                target == cropped_bytes(*buffer, reg),
                row < h,
                col <= w,
                out@.len() == (row * w + col) * 4,
                target.len() == w * h * 4,
                w * h <= buffer.width * buffer.height,
                forall|i: int| 0 <= i < out@.len() ==> out@[i] == target[i],
            decreases w - col,
        {
            let y = reg.y as usize + row;
            let x = reg.x as usize + col;
            proof {
                let hh = buffer.height as int;
                let ww = buffer.width as int;
                assert(y * rs <= (hh - 1) * rs) by (nonlinear_arith)
                    requires
                        y <= hh - 1,
                        rs >= 0,
                ;
                assert(x * nch + nch <= ww * nch) by (nonlinear_arith)
                    requires
                        x + 1 <= ww,
                        nch >= 0,
                ;
                assert(row * w + col < w * h) by (nonlinear_arith)
                    requires
                        row + 1 <= h,
                        col < w,
                ;
                assert(y * rs + x * nch + nch <= total);
                assert(0 <= y * rs) by (nonlinear_arith)
                    requires
                        y >= 0,
                        rs >= 0,
                ;
                assert(0 <= x * nch) by (nonlinear_arith)
                    requires
                        x >= 0,
                        nch >= 0,
                ;
            }
            let base = y * rs + x * nch;
            let ghost start = out@.len() as int;
            proof {
                lemma_pixel_index(row as int, col as int, 0, w as int);
                lemma_pixel_index(row as int, col as int, 1, w as int);
                lemma_pixel_index(row as int, col as int, 2, w as int);
                lemma_pixel_index(row as int, col as int, 3, w as int);
            }
            out.push(buffer.pixels[base]);
            out.push(buffer.pixels[base + 1]);
            out.push(buffer.pixels[base + 2]);
            if nch == 4 {
                out.push(buffer.pixels[base + 3]);
            } else {
                out.push(255u8);
            }
            assert(out@.len() == (row * w + col + 1) * 4) by (nonlinear_arith)
                requires
                    out@.len() == start + 4,
                    start == (row * w + col) * 4,
            ;
            col += 1;
        }
        assert(out@.len() == (row + 1) * w * 4) by (nonlinear_arith)
            requires
                out@.len() == (row * w + w) * 4,
        ;
        row += 1;
    }
    assert(out@.len() == target.len()) by (nonlinear_arith)
        requires
            out@.len() == h * w * 4,
            target.len() == w * h * 4,
    ;
    assert(out@ =~= target);
    Some(CroppedImage { width: reg.width, height: reg.height, pixels: out })
}

} // verus!
