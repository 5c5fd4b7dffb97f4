//! Pixels and rectangular pixel grids.

use vstd::prelude::*;

verus! {

/// One pixel: red, green, blue and alpha, each from 0 to 255.
/// An alpha of 0 means fully transparent.
#[derive(Clone, Copy, Debug, PartialEq, Eq, Structural)]
pub struct Pixel {
    pub r: u8,
    pub g: u8,
    pub b: u8,
    pub a: u8,
}

impl Pixel {
    /// Whether nothing of the pixel shows.
    pub open spec fn transparent(self) -> bool {
        self.a == 0
    }

    /// The pixel that stands for a place outside the grid.
    pub open spec fn clear() -> Pixel {
        Pixel { r: 0, g: 0, b: 0, a: 0 }
    }

    /// Whether nothing of the pixel shows.
    pub fn is_transparent(&self) -> (t: bool)
        ensures
            t == self.transparent(),
    {
        self.a == 0
    }
}

/// The mathematical content of a grid: its extent and its pixels in
/// row-major order, the origin at the top left.
pub struct GridView {
    pub width: nat,
    pub height: nat,
    pub pixels: Seq<Pixel>,
}

impl GridView {
    /// There is exactly one pixel per position.
    pub open spec fn wf(self) -> bool {
        self.pixels.len() == self.width * self.height
    }

    /// Whether `(x, y)` is a position of the grid.
    pub open spec fn contains(self, x: int, y: int) -> bool {
        0 <= x < self.width && 0 <= y < self.height
    }

    /// The pixel in column `x` of row `y`.
    pub open spec fn at(self, x: int, y: int) -> Pixel
        recommends
            self.contains(x, y),
    {
        self.pixels[y * self.width + x]
    }

    /// The pixel at `(x, y)`, or a fully transparent one where the grid
    /// has no such position.
    pub open spec fn at_or_clear(self, x: int, y: int) -> Pixel {
        if self.contains(x, y) {
            self.at(x, y)
        } else {
            Pixel::clear()
        }
    }
}

/// The pixels that `data` holds, four bytes each: red, green, blue and
/// alpha.
pub open spec fn rgba_pixels(data: Seq<u8>) -> Seq<Pixel> {
    Seq::new(
        data.len() / 4,
        |i: int| Pixel { r: data[4 * i], g: data[4 * i + 1], b: data[4 * i + 2], a: data[4 * i + 3] },
    )
}

/// Every position of a well-formed grid has its own index among the pixels.
pub proof fn lemma_index_in_bounds(g: GridView, x: int, y: int)
    requires
        g.wf(),
        g.contains(x, y),
    ensures
        0 <= y * g.width + x < g.pixels.len(),
{
    let w = g.width as int;
    let h = g.height as int;
    assert(y * w >= 0) by (nonlinear_arith)
        requires
            y >= 0,
            w >= 0,
    ;
    assert(y * w + w <= h * w) by (nonlinear_arith)
        requires
            0 <= y < h,
            w >= 0,
    ;
    assert(h * w == w * h) by (nonlinear_arith);
}

/// An immutable rectangle of pixels.
pub struct PixelGrid {
    width: u32,
    height: u32,
    pixels: Vec<Pixel>,
}

impl View for PixelGrid {
    type V = GridView;

    closed spec fn view(&self) -> GridView {
        GridView { width: self.width as nat, height: self.height as nat, pixels: self.pixels@ }
    }
}

impl PixelGrid {
    #[verifier::type_invariant]
    spec fn inv(&self) -> bool {
        self.pixels@.len() == self.width * self.height
    }

    /// A grid of the given extent over `pixels`, taken in row-major
    /// order; `None` unless there is one pixel per position.
    pub fn new(width: u32, height: u32, pixels: Vec<Pixel>) -> (grid: Option<PixelGrid>)
        ensures
            grid is Some <==> pixels@.len() == width * height,
            grid matches Some(g) ==> g@.wf() && g@ == (GridView {
                width: width as nat,
                height: height as nat,
                pixels: pixels@,
            }),
    {
        assert(width * height <= 0xffff_ffff * 0xffff_ffff) by (nonlinear_arith)
            requires
                width <= 0xffff_ffff,
                height <= 0xffff_ffff,
        ;
        let area: u64 = (width as u64) * (height as u64);
        if pixels.len() as u64 == area {
            Some(PixelGrid { width, height, pixels })
        } else {
            None
        }
    }

    /// A grid of the given extent over the pixels that `data` holds, four
    /// bytes each, in row-major order; `None` unless `data` holds exactly
    /// four bytes per position.
    pub fn from_rgba(width: u32, height: u32, data: &[u8]) -> (grid: Option<PixelGrid>)
        ensures
            grid is Some <==> data@.len() == 4 * (width * height),
            grid matches Some(g) ==> g@.wf() && g@ == (GridView {
                width: width as nat,
                height: height as nat,
                pixels: rgba_pixels(data@),
            }),
    {
        let length: usize = data.len();
        if length % 4 != 0 {
            return None;
        }
        let count: usize = length / 4;
        let mut pixels: Vec<Pixel> = Vec::new();
        let mut i: usize = 0;
        while i < count
            invariant
                i <= count,
                length == data@.len(),
                count == length / 4,
                length % 4 == 0,
                pixels@ == rgba_pixels(data@).take(i as int),
            decreases count - i,
        {
            let p = Pixel {
                r: data[4 * i],
                g: data[4 * i + 1],
                b: data[4 * i + 2],
                a: data[4 * i + 3],
            };
            pixels.push(p);
            assert(pixels@ =~= rgba_pixels(data@).take(i + 1));
            i = i + 1;
        }
        assert(pixels@ =~= rgba_pixels(data@));
        PixelGrid::new(width, height, pixels)
    }

    /// The number of columns.
    pub fn width(&self) -> (w: u32)
        ensures
            w == self@.width,
            self@.wf(),
    {
        proof {
            use_type_invariant(self);
        }
        self.width
    }

    /// The number of rows.
    pub fn height(&self) -> (h: u32)
        ensures
            h == self@.height,
            self@.wf(),
    {
        proof {
            use_type_invariant(self);
        }
        self.height
    }

    /// The pixel in column `x` of row `y`.
    pub fn get_pixel(&self, x: u32, y: u32) -> (p: Pixel)
        requires
            self@.contains(x as int, y as int),
        ensures
            p == self@.at(x as int, y as int),
    {
        // The number of pixels fits the machine's integers, and so does
        // every index below it.
        let count: usize = self.pixels.len();
        proof {
            use_type_invariant(self);
            lemma_index_in_bounds(self@, x as int, y as int);
            assert(y * self.width + x < count);
            assert(y * self.width >= 0) by (nonlinear_arith)
                requires
                    y >= 0,
                    self.width >= 0,
            ;
        }
        let index: usize = (y as usize) * (self.width as usize) + (x as usize);
        self.pixels[index]
    }

    /// The pixel at `(x, y)`; a fully transparent one where the grid has
    /// no such position.
    pub fn pixel_or_clear(&self, x: u32, y: u32) -> (p: Pixel)
        ensures
            p == self@.at_or_clear(x as int, y as int),
    {
        if x < self.width && y < self.height {
            self.get_pixel(x, y)
        } else {
            Pixel { r: 0, g: 0, b: 0, a: 0 }
        }
    }
}

} // verus!
