//! The sprite compositor: an indexed-colour foreground, a background colour
//! and a sixteen-entry palette.

use vstd::prelude::*;

verus! {

/// Pixels in one row of the frame.
pub const WIDTH: usize = 320;

/// Rows in the frame.
pub const HEIGHT: usize = 240;

/// Pixels in the whole frame.
pub const PIXELS: usize = 76800;

/// The palette a new compositor starts with.
pub open spec fn spec_default_palette() -> Seq<u32> {
    seq![
        0x000000u32,
        0x000000u32,
        0x888888u32,
        0xBF3932u32,
        0xDE7AAEu32,
        0x4C3D21u32,
        0x905F25u32,
        0xE49452u32,
        0xEAD979u32,
        0x537A3Bu32,
        0xABD54Au32,
        0x252E38u32,
        0x00467Fu32,
        0x68ABCCu32,
        0xBCDEE4u32,
        0xFFFFFFu32,
    ]
}

/// Black (twice: index 0 is transparent in the foreground), gray, red, pink,
/// dark brown, brown, orange, yellow, green, light green, dark blue, blue,
/// light blue, sky blue, white.
pub fn default_palette() -> (p: [u32; 16])
    ensures
        p@ == spec_default_palette(),
{
    let p: [u32; 16] = [
        0x000000,
        0x000000,
        0x888888,
        0xBF3932,
        0xDE7AAE,
        0x4C3D21,
        0x905F25,
        0xE49452,
        0xEAD979,
        0x537A3B,
        0xABD54A,
        0x252E38,
        0x00467F,
        0x68ABCC,
        0xBCDEE4,
        0xFFFFFF,
    ];
    assert(p@ =~= spec_default_palette());
    p
}

pub struct Gpu {
    /// Frame foreground buffer
    fg: [u8; 76800],
    /// Frame background color
    bg: u8,
    /// The width of a sprite
    spritew: u8,
    /// The height of a sprite
    spriteh: u8,
    /// Flag to signal that the sprite should be flipped horizontally
    hflip: bool,
    /// Flag to signal that the sprite should be flipped vertically
    vflip: bool,
    /// Color palette
    palette: [u32; 16],
    /// Flag to signal that a new frame has been drawn
    vblank: bool,
}

/// What a compositor holds, as mathematical values.
pub struct GpuView {
    pub fg: Seq<u8>,
    pub bg: u8,
    pub spritew: u8,
    pub spriteh: u8,
    pub hflip: bool,
    pub vflip: bool,
    pub palette: Seq<u32>,
    pub vblank: bool,
}

impl GpuView {
    /// The foreground has one colour index below 16 for each pixel of the
    /// frame, and the palette has sixteen entries.
    pub open spec fn wf(self) -> bool {
        &&& self.fg.len() == PIXELS
        &&& self.palette.len() == 16
        &&& forall|p: int| 0 <= p < PIXELS ==> #[trigger] self.fg[p] < 16
    }

    /// Whether the sprite's pixel in column `c`, row `r`, drawn with its
    /// corner at `(x, y)`, falls inside the frame.
    pub open spec fn visible(self, x: int, y: int, c: int, r: int) -> bool {
        &&& 0 <= c < 2 * self.spritew
        &&& 0 <= r < self.spriteh
        &&& 0 <= x + c < WIDTH
        &&& 0 <= y + r < HEIGHT
    }

    /// The place in the sprite's data of the byte that holds the pixel in
    /// column `c`, row `r`: each byte packs two pixels, and a flip reverses
    /// the order in which columns or rows are taken.
    pub open spec fn source_index(self, c: int, r: int) -> int {
        let a = if self.hflip {
            self.spritew - 1 - c / 2
        } else {
            c / 2
        };
        let b = if self.vflip {
            self.spriteh - 1 - r
        } else {
            r
        };
        a + b * self.spritew
    }

    /// The colour of the sprite's pixel in column `c`, row `r`: the high
    /// half of its byte for an even column, the low half for an odd one, the
    /// other way round under a horizontal flip.
    pub open spec fn sprite_color(self, buf: Seq<u8>, c: int, r: int) -> u8 {
        let byte = buf[self.source_index(c, r)];
        if (c % 2 == 0) != self.hflip {
            (byte / 16) as u8
        } else {
            (byte % 16) as u8
        }
    }

    /// Whether every byte that a draw at `(x, y)` reads lies within `len`
    /// bytes of sprite data.
    pub open spec fn sprite_fits(self, x: int, y: int, len: int) -> bool {
        forall|c: int, r: int|
            self.visible(x, y, c, r) ==> #[trigger] self.source_index(c, r) < len
    }

    /// The colour that a draw at `(x, y)` puts on the frame's pixel `p`, or
    /// 0 where it puts none: outside the sprite, or where the sprite is
    /// transparent.
    pub open spec fn paint(self, x: int, y: int, buf: Seq<u8>, p: int) -> u8 {
        let c = p % (WIDTH as int) - x;
        let r = p / (WIDTH as int) - y;
        if 0 <= p < PIXELS && self.visible(x, y, c, r) {
            self.sprite_color(buf, c, r)
        } else {
            0
        }
    }

    /// Whether a draw at `(x, y)` puts a colour on a pixel that already
    /// holds one.
    pub open spec fn collides(self, x: int, y: int, buf: Seq<u8>, p: int) -> bool {
        self.paint(x, y, buf, p) != 0 && self.fg[p] != 0
    }

    /// Whether a draw at `(x, y)` collides on some pixel of the frame.
    pub open spec fn overlaps(self, x: int, y: int, buf: Seq<u8>) -> bool {
        exists|p: int| 0 <= p < PIXELS && #[trigger] self.collides(x, y, buf, p)
    }

    /// The foreground after a draw at `(x, y)`.
    pub open spec fn drawn(self, x: int, y: int, buf: Seq<u8>) -> Seq<u8> {
        Seq::new(
            PIXELS as nat,
            |p: int|
                if self.paint(x, y, buf, p) != 0 {
                    self.paint(x, y, buf, p)
                } else {
                    self.fg[p]
                },
        )
    }

    /// The packed colour shown for pixel `p`: the background's where the
    /// foreground is transparent.
    pub open spec fn shade(self, p: int) -> u32 {
        if self.fg[p] != 0 {
            self.palette[self.fg[p] as int]
        } else {
            self.palette[self.bg as int]
        }
    }

    /// An output buffer after the frame was rendered into it: as many cells
    /// as the frame has are overwritten, further ones are kept.
    pub open spec fn rendered(self, buffer: Seq<u32>) -> Seq<u32> {
        Seq::new(
            buffer.len(),
            |i: int|
                if i < PIXELS {
                    self.shade(i)
                } else {
                    buffer[i]
                },
        )
    }
}

impl View for Gpu {
    type V = GpuView;

    closed spec fn view(&self) -> GpuView {
        GpuView {
            fg: self.fg@,
            bg: self.bg,
            spritew: self.spritew,
            spriteh: self.spriteh,
            hflip: self.hflip,
            vflip: self.vflip,
            palette: self.palette@,
            vblank: self.vblank,
        }
    }
}

impl Gpu {
    /// The invariant of a compositor: that of its view.
    pub open spec fn wf(&self) -> bool {
        self@.wf()
    }

    pub fn new() -> (gpu: Gpu)
        ensures
            gpu.wf(),
            gpu@ == (GpuView {
                fg: Seq::new(PIXELS as nat, |p: int| 0u8),
                bg: 0,
                spritew: 0,
                spriteh: 0,
                hflip: false,
                vflip: false,
                palette: spec_default_palette(),
                vblank: false,
            }),
    {
        let gpu = Gpu {
            fg: [0; 76800],
            bg: 0,
            spritew: 0,
            spriteh: 0,
            hflip: false,
            vflip: false,
            vblank: false,
            palette: default_palette(),
        };
        assert(gpu@.fg =~= Seq::new(PIXELS as nat, |p: int| 0u8));
        gpu
    }

    pub fn clear(&mut self)
        ensures
            final(self)@ == (GpuView {
                fg: Seq::new(PIXELS as nat, |p: int| 0u8),
                bg: 0,
                ..old(self)@
            }),
            old(self).wf() ==> final(self).wf(),
    {
        self.fg = [0; 76800];
        self.bg = 0;
        assert(self@.fg =~= Seq::new(PIXELS as nat, |p: int| 0u8));
    }

    pub fn vblank(&self) -> (r: bool)
        ensures
            r == self@.vblank,
    {
        self.vblank
    }

    pub fn set_vblank(&mut self, val: bool)
        ensures
            final(self)@ == (GpuView { vblank: val, ..old(self)@ }),
    {
        self.vblank = val;
    }

    /// The background colour's index.
    pub fn bg(&self) -> (r: u8)
        ensures
            r == self@.bg,
    {
        self.bg
    }

    pub fn set_bg(&mut self, n: u8)
        ensures
            final(self)@ == (GpuView { bg: n, ..old(self)@ }),
    {
        self.bg = n;
    }

    pub fn set_sprite_size(&mut self, w: u8, h: u8)
        ensures
            final(self)@ == (GpuView { spritew: w, spriteh: h, ..old(self)@ }),
    {
        self.spritew = w;
        self.spriteh = h;
    }

    pub fn set_hflip(&mut self, val: bool)
        ensures
            final(self)@ == (GpuView { hflip: val, ..old(self)@ }),
    {
        self.hflip = val;
    }

    pub fn set_vflip(&mut self, val: bool)
        ensures
            final(self)@ == (GpuView { vflip: val, ..old(self)@ }),
    {
        self.vflip = val;
    }

    pub fn set_palette(&mut self, buf: [u32; 16])
        ensures
            final(self)@ == (GpuView { palette: buf@, ..old(self)@ }),
    {
        self.palette = buf;
    }

    /// Whether `len` bytes of sprite data hold every byte that a draw at
    /// `(x, y)` reads.
    pub fn sprite_fits(&self, x: i16, y: i16, len: usize) -> (r: bool)
        ensures
            r == self@.sprite_fits(x as int, y as int, len as int),
    {
        let w: i32 = self.spritew as i32;
        let h: i32 = self.spriteh as i32;
        let c0: i32 = if x < 0 { -(x as i32) } else { 0 };
        let c1: i32 = if 2 * w < 320 - x as i32 { 2 * w } else { 320 - x as i32 };
        let r0: i32 = if y < 0 { -(y as i32) } else { 0 };
        let r1: i32 = if h < 240 - y as i32 { h } else { 240 - y as i32 };
        if c0 >= c1 || r0 >= r1 {
            return true;
        }
        let ct: i32 = if self.hflip { c0 } else { c1 - 1 };
        let rt: i32 = if self.vflip { r0 } else { r1 - 1 };
        let a: i32 = if self.hflip { w - 1 - ct / 2 } else { ct / 2 };
        let b: i32 = if self.vflip { h - 1 - rt } else { rt };
        assert(0 <= b * w <= 254 * 255) by (nonlinear_arith)
            requires
                0 <= b <= 254,
                0 <= w <= 255,
        ;
        let top: i32 = a + b * w;
        proof {
            let v = self@;
            assert(v.visible(x as int, y as int, ct as int, rt as int));
            assert(v.source_index(ct as int, rt as int) == top);
            if top < len {
                assert forall|c: int, r: int| v.visible(x as int, y as int, c, r) implies
                    #[trigger] v.source_index(c, r) < len by {
                    let a2 = if v.hflip { w - 1 - c / 2 } else { c / 2 };
                    let b2 = if v.vflip { h - 1 - r } else { r };
                    assert(a2 <= a);
                    assert(b2 <= b);
                    assert(b2 * w <= b * w) by (nonlinear_arith)
                        requires
                            b2 <= b,
                            0 <= w,
                    ;
                }
            }
        }
        top >= 0 && (top as usize) < len
    }

    /// Draw a sprite to the foreground
    pub fn draw(&mut self, x: i16, y: i16, buf: &[u8]) -> (overlap: bool)
        requires
            old(self).wf(),
            old(self)@.sprite_fits(x as int, y as int, buf@.len() as int),
        ensures
            final(self).wf(),
            final(self)@ == (GpuView {
                fg: old(self)@.drawn(x as int, y as int, buf@),
                ..old(self)@
            }),
            overlap == old(self)@.overlaps(x as int, y as int, buf@),
    {
        let ghost before = self@;
        let ghost xi = x as int;
        let ghost yi = y as int;
        let w: i32 = self.spritew as i32;
        let h: i32 = self.spriteh as i32;
        let c0: i32 = if x < 0 { -(x as i32) } else { 0 };
        let c1: i32 = if 2 * w < 320 - x as i32 { 2 * w } else { 320 - x as i32 };
        let r0: i32 = if y < 0 { -(y as i32) } else { 0 };
        let r1: i32 = if h < 240 - y as i32 { h } else { 240 - y as i32 };
        let mut overlap = false;
        if c0 >= c1 || r0 >= r1 {
            proof {
                assert(self@.fg =~= before.drawn(xi, yi, buf@));
            }
            return overlap;
        }
        let mut r: i32 = r0;
        while r < r1
            invariant
                r0 <= r <= r1,
                0 <= c0 < c1,
                0 <= r0 < r1,
                w == before.spritew,
                h == before.spriteh,
                c0 == (if x < 0 { -x } else { 0int }),
                c1 == (if 2 * w < 320 - x { 2 * w } else { 320 - x }),
                r0 == (if y < 0 { -y } else { 0int }),
                r1 == (if h < 240 - y { h as int } else { 240 - y }),
                xi == x,
                yi == y,
                before.wf(),
                before.sprite_fits(xi, yi, buf@.len() as int),
                self@ == (GpuView { fg: self@.fg, ..before }),
                self@.fg.len() == PIXELS,
                forall|p: int| 0 <= p < (y + r) * 320 ==>
                    #[trigger] self@.fg[p] == before.drawn(xi, yi, buf@)[p],
                forall|p: int| (y + r) * 320 <= p < PIXELS ==>
                    #[trigger] self@.fg[p] == before.fg[p],
                overlap <==> exists|p: int| 0 <= p < (y + r) * 320
                    && #[trigger] before.collides(xi, yi, buf@, p),
            decreases r1 - r,
        {
            let mut c: i32 = c0;
            let row: i32 = (y as i32 + r) * 320;
            while c < c1
                invariant
                    r0 <= r < r1,
                    c0 <= c <= c1,
                    0 <= c0 < c1,
                    0 <= r0 < r1,
                    row == (y + r) * 320,
                    w == before.spritew,
                    h == before.spriteh,
                    c0 == (if x < 0 { -x } else { 0int }),
                    c1 == (if 2 * w < 320 - x { 2 * w } else { 320 - x }),
                    r0 == (if y < 0 { -y } else { 0int }),
                    r1 == (if h < 240 - y { h as int } else { 240 - y }),
                    xi == x,
                    yi == y,
                    before.wf(),
                    before.sprite_fits(xi, yi, buf@.len() as int),
                    self@ == (GpuView { fg: self@.fg, ..before }),
                    self@.fg.len() == PIXELS,
                    forall|p: int| 0 <= p < row + x + c ==>
                        #[trigger] self@.fg[p] == before.drawn(xi, yi, buf@)[p],
                    forall|p: int| row + x + c <= p < PIXELS ==>
                        #[trigger] self@.fg[p] == before.fg[p],
                    overlap <==> exists|p: int| 0 <= p < row + x + c
                        && #[trigger] before.collides(xi, yi, buf@, p),
                decreases c1 - c,
            {
                let a: i32 = if self.hflip { w - 1 - c / 2 } else { c / 2 };
                let b: i32 = if self.vflip { h - 1 - r } else { r };
                assert(0 <= b * w <= 254 * 255) by (nonlinear_arith)
                    requires
                        0 <= b <= 254,
                        0 <= w <= 255,
                ;
                let p: i32 = row + x as i32 + c;
                proof {
                    assert(before.source_index(c as int, r as int) == a + b * w);
                }
                let byte: u8 = buf[(a + b * w) as usize];
                let colour: u8 = if (c % 2 == 0) != self.hflip { byte / 16 } else { byte % 16 };
                let ghost was = overlap;
                if colour != 0 {
                    if self.fg[p as usize] != 0 {
                        overlap = true;
                    }
                    self.fg[p as usize] = colour;
                }
                proof {
                    if overlap {
                        if was {
                            let q = choose|q: int| 0 <= q < p && #[trigger] before.collides(xi, yi, buf@, q);
                            assert(0 <= q < p + 1 && before.collides(xi, yi, buf@, q));
                        } else {
                            assert(0 <= p < p + 1 && before.collides(xi, yi, buf@, p as int));
                        }
                    } else {
                        assert forall|q: int| 0 <= q < p + 1 implies
                            !#[trigger] before.collides(xi, yi, buf@, q) by {
                        }
                    }
                }
                c = c + 1;
            }
            proof {
                assert forall|p: int| row + x + c1 <= p < row + 320 implies
                    before.paint(xi, yi, buf@, p) == 0 by {
                }
            }
            r = r + 1;
        }
        proof {
            assert(self@.fg =~= before.drawn(xi, yi, buf@));
        }
        overlap
    }

    /// Render the frame to a buffer of the size 320x240
    pub fn render(&mut self, buffer: &mut [u32])
        requires
            old(self).wf(),
            old(self)@.bg < 16,
        ensures
            final(self)@ == (GpuView { vblank: true, ..old(self)@ }),
            final(buffer)@ == old(self)@.rendered(old(buffer)@),
    {
        let ghost start = buffer@;
        let bgc: u32 = self.palette[self.bg as usize];
        let n: usize = if buffer.len() < PIXELS { buffer.len() } else { PIXELS };
        let mut i: usize = 0;
        while i < n
            invariant
                i <= n,
                n <= PIXELS,
                n <= start.len(),
                buffer@.len() == start.len(),
                self.wf(),
                self@.bg < 16,
                self == old(self),
                bgc == self@.palette[self@.bg as int],
                forall|j: int| 0 <= j < i ==> #[trigger] buffer@[j] == self@.shade(j),
                forall|j: int| i <= j < start.len() ==> #[trigger] buffer@[j] == start[j],
            decreases n - i,
        {
            let fg: u8 = self.fg[i];
            assert(self@.fg[i as int] < 16);
            buffer[i] = if fg != 0 { self.palette[fg as usize] } else { bgc };
            i += 1;
        }
        self.vblank = true;
        assert(buffer@ =~= old(self)@.rendered(start));
    }
}

/// A sprite whose data is all zero is transparent everywhere: drawing it
/// leaves the foreground as it was and reports no overlap.
pub proof fn lemma_transparent_draw(gpu: GpuView, x: int, y: int, buf: Seq<u8>)
    requires
        gpu.wf(),
        gpu.sprite_fits(x, y, buf.len() as int),
        forall|i: int| 0 <= i < buf.len() ==> buf[i] == 0,
    ensures
        gpu.drawn(x, y, buf) == gpu.fg,
        !gpu.overlaps(x, y, buf),
{
    assert forall|p: int| 0 <= p < PIXELS implies gpu.paint(x, y, buf, p) == 0 by {
        let c = p % (WIDTH as int) - x;
        let r = p / (WIDTH as int) - y;
        if gpu.visible(x, y, c, r) {
            lemma_source_index_bounds(gpu, c, r);
            assert(gpu.source_index(c, r) < buf.len());
        }
    }
    assert(gpu.drawn(x, y, buf) =~= gpu.fg);
}

/// Drawing a sprite none of whose pixels is transparent, and then the same
/// sprite again at the same place, reports an overlap the second time,
/// provided that one pixel of it falls inside the frame.
pub proof fn lemma_opaque_redraw_overlaps(gpu: GpuView, x: int, y: int, buf: Seq<u8>, c: int, r: int)
    requires
        gpu.wf(),
        gpu.sprite_fits(x, y, buf.len() as int),
        forall|i: int| 0 <= i < buf.len() ==> buf[i] / 16 != 0 && buf[i] % 16 != 0,
        gpu.visible(x, y, c, r),
    ensures
        (GpuView { fg: gpu.drawn(x, y, buf), ..gpu }).overlaps(x, y, buf),
{
    let after = GpuView { fg: gpu.drawn(x, y, buf), ..gpu };
    let p = (y + r) * (WIDTH as int) + (x + c);
    assert(p % (WIDTH as int) == x + c && p / (WIDTH as int) == y + r);
    lemma_source_index_bounds(gpu, c, r);
    assert(gpu.source_index(c, r) < buf.len());
    assert(after.source_index(c, r) == gpu.source_index(c, r));
    assert(gpu.paint(x, y, buf, p) != 0);
    assert(after.paint(x, y, buf, p) == gpu.paint(x, y, buf, p));
    assert(after.fg[p] == gpu.paint(x, y, buf, p));
    assert(after.collides(x, y, buf, p));
}

/// A pixel of the sprite takes its colour from a byte at a place that is not
/// negative.
pub proof fn lemma_source_index_bounds(gpu: GpuView, c: int, r: int)
    requires
        0 <= c < 2 * gpu.spritew,
        0 <= r < gpu.spriteh,
    ensures
        0 <= gpu.source_index(c, r) < gpu.spritew * gpu.spriteh,
{
    let w = gpu.spritew as int;
    let h = gpu.spriteh as int;
    let a = if gpu.hflip { w - 1 - c / 2 } else { c / 2 };
    let b = if gpu.vflip { h - 1 - r } else { r };
    assert(0 <= a < w);
    assert(0 <= b < h);
    assert(0 <= a + b * w < w * h) by (nonlinear_arith)
        requires
            0 <= a < w,
            0 <= b < h,
    ;
}

} // verus!
