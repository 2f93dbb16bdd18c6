//! The raster and the finished image: which pixel stands where, how a full
//! raster of orbits becomes an image, and the byte buffer handed to the
//! display.

use crate::escape::{shade_of, Orbit};
use crate::palette::ColorTable;
use crate::pixel::{packed, Pixel, BYTES_PER_PIXEL, OPAQUE};
use rayon::iter::{IntoParallelRefIterator, ParallelIterator};
use vstd::prelude::*;

verus! {

/// The smallest raster dimension that can be rendered: the step from one pixel
/// to the next is the viewport's extent divided by the dimension less one.
pub const MIN_DIMENSION: usize = 2;

/// Whether a raster of this size can be rendered: both dimensions are at least
/// `MIN_DIMENSION`, and the byte buffer of the image can be addressed.
pub open spec fn renderable_spec(width: usize, height: usize) -> bool {
    &&& width >= MIN_DIMENSION
    &&& height >= MIN_DIMENSION
    &&& BYTES_PER_PIXEL * width * height <= usize::MAX
}

/// The position of the pixel at column `px` and row `py` in a raster that is
/// `width` pixels wide: rows follow one another from the top.
pub open spec fn index_of(px: int, py: int, width: int) -> int {
    py * width + px
}

/// The bytes of a row of pixels, one packed pixel after the other.
pub open spec fn pack(pixels: Seq<Pixel>) -> Seq<u8> {
    Seq::new(4 * pixels.len(), |i: int| packed(pixels[i / 4])[i % 4])
}

/// The alpha byte of the pixel at position `i` in a byte buffer.
pub open spec fn alpha_at(bytes: Seq<u8>, i: int) -> u8 {
    bytes[4 * i]
}

/// The colours of a row of orbits, each orbit giving the pixel at its own
/// position.
pub open spec fn shades(orbits: Seq<Orbit>) -> Seq<Pixel> {
    orbits.map_values(|orbit: Orbit| shade_of(orbit))
}

/// Decides whether a raster of this size can be rendered.
pub fn renderable(width: usize, height: usize) -> (ok: bool)
    ensures
        ok == renderable_spec(width, height),
{
    if width < MIN_DIMENSION || height < MIN_DIMENSION {
        return false;
    }
    match width.checked_mul(height) {
        None => {
            assert(BYTES_PER_PIXEL * width * height > usize::MAX) by (nonlinear_arith)
                requires
                    width * height > usize::MAX,
                    BYTES_PER_PIXEL == 4,
            ;
            false
        },
        Some(count) => {
            assert(BYTES_PER_PIXEL * width * height == 4 * count) by (nonlinear_arith)
                requires
                    count == width * height,
                    BYTES_PER_PIXEL == 4,
            ;
            count.checked_mul(BYTES_PER_PIXEL).is_some()
        },
    }
}

/// The column and the row of the pixel at position `index`.
pub fn coordinate(index: usize, width: usize) -> (at: (usize, usize))
    requires
        width > 0,
    ensures
        at.0 < width,
        index_of(at.0 as int, at.1 as int, width as int) == index,
        at.0 == index % width,
        at.1 == index / width,
{
    proof {
        vstd::arithmetic::div_mod::lemma_fundamental_div_mod(index as int, width as int);
        vstd::arithmetic::mul::lemma_mul_is_commutative(
            width as int,
            index as int / width as int,
        );
    }
    (index % width, index / width)
}

/// A rendered raster.
pub struct Image {
    pixels: Vec<Pixel>,
    width: usize,
    height: usize,
}

/// What an image holds.
pub struct ImageView {
    pub width: nat,
    pub height: nat,
    pub pixels: Seq<Pixel>,
}

impl View for Image {
    type V = ImageView;

    closed spec fn view(&self) -> ImageView {
        ImageView {
            width: self.width as nat,
            height: self.height as nat,
            pixels: self.pixels@,
        }
    }
}

/// Colours every orbit of a raster, the work being shared out over rayon's
/// thread pool by `par_iter`, `ParallelIterator::map` and
/// `ParallelIterator::collect`.
///
/// The contract claims of rayon that collecting a mapped parallel iterator
/// over a slice into a vector gives one result for each item, in the order of
/// the items, whatever the number of threads. Each result is what
/// `ColorTable::shade` returns for its item.
#[verifier::external_body]
fn shade_all(table: &ColorTable, orbits: &Vec<Orbit>) -> (pixels: Vec<Pixel>)
    ensures
        pixels@.len() == orbits@.len(),
        forall|i: int| 0 <= i < orbits@.len() ==> pixels@[i] == shade_of(#[trigger] orbits@[i]),
{
    orbits.par_iter().map(|orbit| table.shade(*orbit)).collect()
}

/// Fills a raster: the pixel at each position is the colour of the orbit at
/// that position.
///
/// The orbits are those of the raster's points, row by row from the top left.
/// Each pixel depends on its own orbit only, so the image is the same however
/// the work is shared out.
pub fn compose(table: &ColorTable, width: usize, height: usize, orbits: &Vec<Orbit>) -> (image:
    Image)
    requires
        renderable_spec(width, height),
        orbits@.len() == width * height,
    ensures
        image@.width == width,
        image@.height == height,
        image@.pixels.len() == width * height,
        image@.pixels == shades(orbits@),
{
    let pixels = shade_all(table, orbits);
    assert(pixels@ =~= shades(orbits@));
    assert(BYTES_PER_PIXEL * width * height == 4 * (width * height)) by (nonlinear_arith)
        requires
            BYTES_PER_PIXEL == 4,
    ;
    Image { pixels, width, height }
}

impl Image {
    #[verifier::type_invariant]
    spec fn consistent(&self) -> bool {
        &&& self.pixels@.len() == self.width * self.height
        &&& 4 * self.pixels@.len() <= usize::MAX
    }

    /// An image of the given pixels, if there are exactly `width * height` of
    /// them and their bytes can be addressed.
    pub fn new(width: usize, height: usize, pixels: Vec<Pixel>) -> (image: Option<Image>)
        ensures
            image is Some <==> pixels@.len() == width * height && 4 * pixels@.len() <= usize::MAX,
            image matches Some(i) ==> i@ == (ImageView {
                width: width as nat,
                height: height as nat,
                pixels: pixels@,
            }),
    {
        let fits = match width.checked_mul(height) {
            Some(count) => count == pixels.len(),
            None => false,
        };
        if fits && pixels.len() <= usize::MAX / 4 {
            Some(Image { pixels, width, height })
        } else {
            None
        }
    }

    pub fn width(&self) -> (w: usize)
        ensures
            w == self@.width,
    {
        self.width
    }

    pub fn height(&self) -> (h: usize)
        ensures
            h == self@.height,
    {
        self.height
    }

    /// The pixels, row by row from the top left: always `width * height` of
    /// them.
    pub fn pixels(&self) -> (pixels: &Vec<Pixel>)
        ensures
            pixels@ == self@.pixels,
            pixels@.len() == self@.width * self@.height,
    {
        proof {
            use_type_invariant(self);
        }
        &self.pixels
    }

    /// The pixel at column `px` and row `py`, if the image has one there.
    pub fn pixel_at(&self, px: usize, py: usize) -> (p: Option<Pixel>)
        ensures
            p is Some <==> px < self@.width && py < self@.height,
            p matches Some(q) ==> q == self@.pixels[index_of(
                px as int,
                py as int,
                self@.width as int,
            )],
    {
        proof {
            use_type_invariant(self);
        }
        if px < self.width && py < self.height {
            assert(py * self.width + px < self.width * self.height) by (nonlinear_arith)
                requires
                    px < self.width,
                    py < self.height,
            ;
            Some(self.pixels[py * self.width + px])
        } else {
            None
        }
    }

    /// The byte buffer of the image: four bytes per pixel (alpha, red, green,
    /// blue), the pixels row by row from the top left.
    pub fn to_bytes(&self) -> (bytes: Vec<u8>)
        ensures
            bytes@ == pack(self@.pixels),
            bytes@.len() == BYTES_PER_PIXEL * self@.width * self@.height,
    {
        proof {
            use_type_invariant(self);
        }
        let count = self.pixels.len();
        let mut bytes: Vec<u8> = Vec::with_capacity(count * BYTES_PER_PIXEL);
        let mut i: usize = 0;
        while i < count
            invariant
                i <= count,
                count == self.pixels@.len(),
                4 * count <= usize::MAX,
                bytes@.len() == 4 * i,
                forall|k: int| 0 <= k < 4 * i ==> bytes@[k] == packed(self.pixels@[k / 4])[k % 4],
            decreases count - i,
        {
            let p = self.pixels[i];
            bytes.push(OPAQUE);
            bytes.push(p.r);
            bytes.push(p.g);
            bytes.push(p.b);
            i += 1;
        }
        assert(bytes@ =~= pack(self@.pixels));
        assert(BYTES_PER_PIXEL * self.width * self.height == 4 * (self.width * self.height))
            by (nonlinear_arith)
            requires
                BYTES_PER_PIXEL == 4,
        ;
        bytes
    }

    /// Reads an image of the given size back from its byte buffer.
    ///
    /// The buffer must hold exactly four bytes for each pixel, and every alpha
    /// byte must be `OPAQUE`.
    pub fn from_bytes(width: usize, height: usize, bytes: &Vec<u8>) -> (image: Option<Image>)
        ensures
            image is Some <==> bytes@.len() == 4 * (width * height) && forall|i: int|
                0 <= i < width * height ==> #[trigger] alpha_at(bytes@, i) == OPAQUE,
            image matches Some(i) ==> i@.width == width && i@.height == height && pack(i@.pixels)
                == bytes@,
    {
        let len = bytes.len();
        let count = match width.checked_mul(height) {
            Some(count) => count,
            None => {
                return None;
            },
        };
        match count.checked_mul(BYTES_PER_PIXEL) {
            Some(n) => {
                if n != len {
                    return None;
                }
            },
            None => {
                return None;
            },
        }
        let mut pixels: Vec<Pixel> = Vec::with_capacity(count);
        let mut i: usize = 0;
        while i < count
            invariant
                i <= count,
                count == width * height,
                bytes@.len() == 4 * count,
                4 * count <= usize::MAX,
                pixels@.len() == i,
                forall|k: int| 0 <= k < i ==> #[trigger] alpha_at(bytes@, k) == OPAQUE,
                forall|k: int|
                    0 <= k < i ==> bytes@.subrange(4 * k, 4 * k + 4) == packed(#[trigger] pixels@[k]),
            decreases count - i,
        {
            if bytes[4 * i] != OPAQUE {
                assert(alpha_at(bytes@, i as int) != OPAQUE);
                return None;
            }
            let p = Pixel { r: bytes[4 * i + 1], g: bytes[4 * i + 2], b: bytes[4 * i + 3] };
            assert(bytes@.subrange(4 * i, 4 * i + 4) =~= packed(p));
            pixels.push(p);
            i += 1;
        }
        assert(pack(pixels@) =~= bytes@) by {
            assert forall|j: int| 0 <= j < 4 * count implies pack(pixels@)[j] == bytes@[j] by {
                let k = j / 4;
                assert(bytes@.subrange(4 * k, 4 * k + 4) == packed(pixels@[k]));
                assert(bytes@.subrange(4 * k, 4 * k + 4)[j % 4] == bytes@[j]);
            }
        }
        Some(Image { pixels, width, height })
    }
}

/// Each pixel depends on the orbit at its own position and on nothing else:
/// two rasters of orbits that agree at a position give the same pixel there,
/// and the same four bytes in the buffer.
pub proof fn lemma_pixel_depends_on_own_orbit(a: Seq<Orbit>, b: Seq<Orbit>, i: int)
    requires
        0 <= i < a.len(),
        i < b.len(),
        a[i] == b[i],
    ensures
        shades(a)[i] == shades(b)[i],
        pack(shades(a))[4 * i] == pack(shades(b))[4 * i],
        pack(shades(a))[4 * i + 1] == pack(shades(b))[4 * i + 1],
        pack(shades(a))[4 * i + 2] == pack(shades(b))[4 * i + 2],
        pack(shades(a))[4 * i + 3] == pack(shades(b))[4 * i + 3],
{
}

/// A raster of orbits gives as many pixels as it has orbits, and four bytes
/// for each.
pub proof fn lemma_one_pixel_per_orbit(orbits: Seq<Orbit>)
    ensures
        shades(orbits).len() == orbits.len(),
        pack(shades(orbits)).len() == 4 * orbits.len(),
{
}

/// Packing is faithful: two rows of pixels with the same bytes are the same
/// row.
pub proof fn lemma_pack_injective(a: Seq<Pixel>, b: Seq<Pixel>)
    requires
        pack(a) == pack(b),
    ensures
        a == b,
{
    assert(pack(a).len() == 4 * a.len());
    assert(pack(b).len() == 4 * b.len());
    assert forall|i: int| 0 <= i < a.len() implies a[i] == b[i] by {
        assert(pack(a)[4 * i + 1] == a[i].r);
        assert(pack(b)[4 * i + 1] == b[i].r);
        assert(pack(a)[4 * i + 2] == a[i].g);
        assert(pack(b)[4 * i + 2] == b[i].g);
        assert(pack(a)[4 * i + 3] == a[i].b);
        assert(pack(b)[4 * i + 3] == b[i].b);
    }
    assert(a =~= b);
}

/// Every pixel's alpha byte in the buffer is `OPAQUE`, and the buffer holds
/// four bytes for each pixel.
pub proof fn lemma_pack_opaque(pixels: Seq<Pixel>, i: int)
    requires
        0 <= i < pixels.len(),
    ensures
        pack(pixels).len() == 4 * pixels.len(),
        pack(pixels)[4 * i] == OPAQUE,
        pack(pixels)[4 * i + 1] == pixels[i].r,
        pack(pixels)[4 * i + 2] == pixels[i].g,
        pack(pixels)[4 * i + 3] == pixels[i].b,
{
}

/// Positions and coordinates correspond one to one.
pub proof fn lemma_index_of_coordinate(px: int, py: int, width: int)
    requires
        0 <= px < width,
        0 <= py,
    ensures
        index_of(px, py, width) % width == px,
        index_of(px, py, width) / width == py,
{
    vstd::arithmetic::div_mod::lemma_fundamental_div_mod_converse(
        index_of(px, py, width),
        width,
        py,
        px,
    );
}

} // verus!
