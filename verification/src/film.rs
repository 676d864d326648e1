//! The output image: an RGB8 buffer of the `image` crate.
use vstd::prelude::*;

verus! {

/// An RGB image with eight bits per channel, held in an `image::RgbImage`.
#[verifier::external_body]
pub struct Film {
    image: image::RgbImage,
}

/// The width and the height of the image, in pixels.
pub uninterp spec fn film_dimensions(film: Film) -> (u32, u32);

/// The samples of the image: row after row from the top, pixel after pixel
/// from the left, three bytes (red, green, blue) for each pixel.
pub uninterp spec fn film_samples(film: Film) -> Seq<u8>;

impl Film {
    /// The width of the image.
    pub open spec fn width(self) -> u32 {
        film_dimensions(self).0
    }

    /// The height of the image.
    pub open spec fn height(self) -> u32 {
        film_dimensions(self).1
    }

    /// Where the red sample of pixel `(x, y)` stands among the samples.
    pub open spec fn offset(self, x: int, y: int) -> int {
        3 * (y * self.width() + x)
    }

    /// The image holds three samples for each of its pixels.
    pub open spec fn complete(self) -> bool {
        film_samples(self).len() == 3 * self.width() * self.height()
    }

    /// The colour of pixel `(x, y)`.
    pub open spec fn pixel(self, x: int, y: int) -> [u8; 3] {
        [
            film_samples(self)[self.offset(x, y)],
            film_samples(self)[self.offset(x, y) + 1],
            film_samples(self)[self.offset(x, y) + 2],
        ]
    }

    /// `image::RgbImage::new`: an image of the given size whose samples are
    /// all zero.
    #[verifier::external_body]
    fn create(width: u32, height: u32) -> (film: Film)
        requires
            3 * width <= usize::MAX,
            3 * width * height <= isize::MAX,
        ensures
            film_dimensions(film) == (width, height),
            film_samples(film) == Seq::new((3 * width * height) as nat, |i: int| 0u8),
    {
        Film { image: image::RgbImage::new(width, height) }
    }

    /// `image::RgbImage::put_pixel`: overwrites the three samples of the
    /// pixel at `(x, y)`; the size and the other samples stay.
    #[verifier::external_body]
    fn put(&mut self, x: u32, y: u32, rgb: [u8; 3])
        requires
            x < old(self).width(),
            y < old(self).height(),
            old(self).complete(),
        ensures
            film_dimensions(*final(self)) == film_dimensions(*old(self)),
            film_samples(*final(self)) == film_samples(*old(self)).update(
                old(self).offset(x as int, y as int),
                rgb[0],
            ).update(old(self).offset(x as int, y as int) + 1, rgb[1]).update(
                old(self).offset(x as int, y as int) + 2,
                rgb[2],
            ),
    {
        self.image.put_pixel(x, y, image::Rgb(rgb))
    }

    /// `image::RgbImage::dimensions`: width and height.
    #[verifier::external_body]
    fn size(&self) -> (d: (u32, u32))
        ensures
            d == film_dimensions(*self),
    {
        self.image.dimensions()
    }

    /// `image::RgbImage::into_raw`: the buffer of samples.
    #[verifier::external_body]
    fn raw(self) -> (samples: Vec<u8>)
        ensures
            samples@ == film_samples(self),
    {
        self.image.into_raw()
    }

    /// A black image of the given size.
    pub fn new(width: u32, height: u32) -> (film: Film)
        requires
            3 * width <= usize::MAX,
            3 * width * height <= isize::MAX,
        ensures
            film.width() == width,
            film.height() == height,
            film.complete(),
            forall|x: int, y: int| 0 <= x < width && 0 <= y < height ==> #[trigger] film.pixel(x, y) == [0u8, 0u8, 0u8],
    {
        let film = Film::create(width, height);
        proof {
            assert forall|x: int, y: int| 0 <= x < width && 0 <= y < height implies #[trigger] film.pixel(x, y)
                == [0u8, 0u8, 0u8] by {
                lemma_offset_in_range(width as int, height as int, x, y);
                assert(film.pixel(x, y) =~= [0u8, 0u8, 0u8]);
            }
        }
        film
    }

    /// Sets the colour of the pixel at `(x, y)`. No other pixel changes.
    pub fn put_pixel(&mut self, x: u32, y: u32, rgb: [u8; 3])
        requires
            x < old(self).width(),
            y < old(self).height(),
            old(self).complete(),
        ensures
            final(self).width() == old(self).width(),
            final(self).height() == old(self).height(),
            final(self).complete(),
            final(self).pixel(x as int, y as int) == rgb,
            forall|i: int, j: int|
                0 <= i < old(self).width() && 0 <= j < old(self).height() && (i != x || j != y)
                    ==> #[trigger] final(self).pixel(i, j) == old(self).pixel(i, j),
    {
        let ghost before = *self;
        self.put(x, y, rgb);
        proof {
            let w = before.width() as int;
            let h = before.height() as int;
            lemma_offset_in_range(w, h, x as int, y as int);
            assert(self.pixel(x as int, y as int) =~= rgb);
            assert forall|i: int, j: int| 0 <= i < w && 0 <= j < h && (i != x || j != y) implies #[trigger] self.pixel(
                i,
                j,
            ) == before.pixel(i, j) by {
                lemma_offset_in_range(w, h, i, j);
                lemma_offsets_differ(w, x as int, y as int, i, j);
                assert(self.pixel(i, j) =~= before.pixel(i, j));
            }
        }
    }

    /// Width and height of the image.
    pub fn dimensions(&self) -> (d: (u32, u32))
        ensures
            d == (self.width(), self.height()),
    {
        self.size()
    }

    /// The samples of the image: row after row from the top, three bytes
    /// for each pixel.
    pub fn into_raw(self) -> (samples: Vec<u8>)
        ensures
            samples@ == film_samples(self),
    {
        self.raw()
    }
}

/// The three samples of a pixel inside the image stand inside the buffer.
proof fn lemma_offset_in_range(w: int, h: int, x: int, y: int)
    requires
        0 <= x < w,
        0 <= y < h,
    ensures
        0 <= 3 * (y * w + x),
        3 * (y * w + x) + 2 < 3 * w * h,
{
    assert(y * w + x < w * h) by (nonlinear_arith)
        requires
            0 <= x < w,
            0 <= y < h,
    ;
    assert(0 <= y * w) by (nonlinear_arith)
        requires
            0 <= y,
            0 <= w,
    ;
    assert(3 * w * h == 3 * (w * h)) by (nonlinear_arith);
}

/// Different pixels of a row-major image have samples at different places.
proof fn lemma_offsets_differ(w: int, x: int, y: int, i: int, j: int)
    requires
        0 <= x < w,
        0 <= i < w,
        0 <= y,
        0 <= j,
        i != x || j != y,
    ensures
        y * w + x != j * w + i,
{
    if y < j {
        assert(y * w + x < j * w + i) by (nonlinear_arith)
            requires
                0 <= x < w,
                0 <= i,
                0 <= y < j,
        ;
    } else if j < y {
        assert(j * w + i < y * w + x) by (nonlinear_arith)
            requires
                0 <= i < w,
                0 <= x,
                0 <= j < y,
        ;
    }
}

} // verus!
