//! RGBA byte buffers of an atlas, and the image codec that works on them:
//! nearest-neighbour resampling and PNG encoding and decoding are the work of
//! the `image` crate, reached through the three trusted functions of this
//! file.

use crate::atlas::lemma_area_fits;
use crate::atlas::Atlas;
use crate::atlas::Grid;
use crate::atlas::Pixel;
use vstd::prelude::*;

verus! {

/// Channel `c` of a pixel, in the order red, green, blue, alpha.
pub open spec fn channel(p: Pixel, c: int) -> u8 {
    if c == 0 {
        p.r
    } else if c == 1 {
        p.g
    } else if c == 2 {
        p.b
    } else {
        p.a
    }
}

/// The bytes of a run of pixels, four to a pixel.
pub open spec fn rgba_bytes(cells: Seq<Pixel>) -> Seq<u8> {
    Seq::new(4 * cells.len(), |i: int| channel(cells[i / 4], i % 4))
}

/// The pixels that a run of bytes holds, four bytes to a pixel.
pub open spec fn rgba_pixels(raw: Seq<u8>) -> Seq<Pixel> {
    Seq::new(
        raw.len() / 4,
        |i: int| Pixel { r: raw[4 * i], g: raw[4 * i + 1], b: raw[4 * i + 2], a: raw[4 * i + 3] },
    )
}

/// Reading back the bytes of a run of pixels gives the pixels.
pub proof fn lemma_rgba_round_trip(cells: Seq<Pixel>)
    ensures
        rgba_bytes(cells).len() == 4 * cells.len(),
        rgba_pixels(rgba_bytes(cells)) == cells,
{
}

/// What `image::imageops::resize` with the `Nearest` filter returns for
/// an RGBA buffer of `width` by `height` pixels asked to become
/// `new_width` by `new_height`: the bytes of the resized image.
pub uninterp spec fn nearest_resized(
    raw: Seq<u8>,
    width: int,
    height: int,
    new_width: int,
    new_height: int,
) -> Seq<u8>;

/// What `image::DynamicImage::write_to` writes as the PNG encoding of an
/// RGBA buffer of `width` by `height` pixels, `None` where it reports an
/// error.
pub uninterp spec fn png_encoded(raw: Seq<u8>, width: int, height: int) -> Option<Seq<u8>>;

/// What `image::load_from_memory` decodes from an encoded image, taken as
/// RGBA: width, height and the bytes of the pixels; `None` where it
/// reports an error.
pub uninterp spec fn rgba_decoded(encoded: Seq<u8>) -> Option<(int, int, Seq<u8>)>;

/// The sizes between which the resampler can work: no side is empty, and
/// neither the image it returns nor the one it builds on the way, with
/// four 32-bit channels a pixel, outgrows what one allocation may hold.
pub open spec fn resize_in_reach(width: int, height: int, new_width: int, new_height: int) -> bool {
    &&& 0 < width
    &&& 0 < height
    &&& 0 < new_width
    &&& 0 < new_height
    &&& 16 * (width * new_height) <= isize::MAX
    &&& 4 * (new_width * new_height) <= isize::MAX
}

/// `image::ImageError`, the error of the `image` crate: carried from the
/// codec to where it is mapped to an error of this crate, never looked
/// into.
#[verifier::external_type_specification]
#[verifier::external_body]
pub struct ExImageError(image::ImageError);

/// Calls `image::imageops::resize` with `FilterType::Nearest` on the RGBA
/// image that `raw` holds. Trusted: the bytes that come back are the ones
/// named `nearest_resized`, and there are four for each pixel of the new
/// size.
#[verifier::external_body]
fn resize_nearest(raw: Vec<u8>, width: u32, height: u32, new_width: u32, new_height: u32) -> (out:
    Vec<u8>)
    requires
        raw.len() == 4 * (width * height),
        resize_in_reach(width as int, height as int, new_width as int, new_height as int),
    ensures
        out@ == nearest_resized(
            raw@,
            width as int,
            height as int,
            new_width as int,
            new_height as int,
        ),
        out.len() == 4 * (new_width * new_height),
{
    let image: image::RgbaImage = image::ImageBuffer::from_raw(width, height, raw).unwrap();
    let filter = image::imageops::FilterType::Nearest;
    image::imageops::resize(&image, new_width, new_height, filter).into_raw()
}

/// Calls `image::DynamicImage::write_to` with the PNG format on the RGBA
/// image that `raw` holds. Trusted: the bytes written are the ones named
/// `png_encoded`, and an error comes back exactly where that name is
/// `None`.
#[verifier::external_body]
fn write_png(raw: Vec<u8>, width: u32, height: u32) -> (r: Result<Vec<u8>, image::ImageError>)
    requires
        raw.len() == 4 * (width * height),
    ensures
        match r {
            Ok(png) => png_encoded(raw@, width as int, height as int) == Some(png@),
            Err(_) => png_encoded(raw@, width as int, height as int) is None,
        },
{
    let buffer: image::RgbaImage = image::ImageBuffer::from_raw(width, height, raw).unwrap();
    let mut png: Vec<u8> = Vec::new();
    let mut cursor = std::io::Cursor::new(&mut png);
    image::DynamicImage::ImageRgba8(buffer).write_to(&mut cursor, image::ImageOutputFormat::Png)?;
    Ok(png)
}

/// Calls `image::load_from_memory` and takes the image as RGBA. Trusted:
/// width, height and bytes are the ones named `rgba_decoded`, and an error
/// comes back exactly where that name is `None`.
#[verifier::external_body]
fn load_rgba(encoded: &Vec<u8>) -> (r: Result<(u32, u32, Vec<u8>), image::ImageError>)
    ensures
        match r {
            Ok((width, height, raw)) => rgba_decoded(encoded@) == Some(
                (width as int, height as int, raw@),
            ),
            Err(_) => rgba_decoded(encoded@) is None,
        },
{
    let image = image::load_from_memory(encoded)?.to_rgba8();
    Ok((image.width(), image.height(), image.into_raw()))
}

/// An image could not be written as PNG.
#[derive(Clone, Copy, Debug, PartialEq, Eq, Structural)]
pub struct EncodeError;

/// The source atlas could not be had: what was fetched is no image that
/// can be read as a grid of RGBA pixels.
#[derive(Clone, Copy, Debug, PartialEq, Eq, Structural)]
pub struct SourceFetchError;

impl Grid {
    /// The grid as RGBA bytes, row by row.
    pub open spec fn bytes(self) -> Seq<u8> {
        rgba_bytes(self.cells())
    }

    /// The grid of the given size that RGBA bytes hold, row by row.
    pub open spec fn from_bytes(width: nat, height: nat, raw: Seq<u8>) -> Grid {
        Grid::from_cells(width, height, rgba_pixels(raw))
    }

    /// The block resampled to `width` by `height` pixels: itself where it
    /// has that size already, else what the nearest-neighbour resize makes
    /// of it.
    pub open spec fn resampled(self, width: nat, height: nat) -> Grid {
        if self.width == width && self.height == height {
            self
        } else {
            Grid::from_bytes(
                width,
                height,
                nearest_resized(
                    self.bytes(),
                    self.width as int,
                    self.height as int,
                    width as int,
                    height as int,
                ),
            )
        }
    }

    /// Whether the block can be resampled to `width` by `height` pixels.
    pub open spec fn can_resample(self, width: nat, height: nat) -> bool {
        (self.width == width && self.height == height) || resize_in_reach(
            self.width as int,
            self.height as int,
            width as int,
            height as int,
        )
    }
}

impl Atlas {
    /// The pixels as RGBA bytes, row by row.
    pub fn to_rgba_bytes(&self) -> (raw: Vec<u8>)
        ensures
            raw@ == self@.bytes(),
            raw.len() == 4 * (self@.width * self@.height),
    {
        let cells = self.pixels();
        let mut raw: Vec<u8> = Vec::new();
        let mut i: usize = 0;
        while i < cells.len()
            invariant
                i <= cells.len(),
                raw.len() == 4 * i,
                forall|k: int| 0 <= k < raw.len() ==> #[trigger] raw@[k] == channel(cells@[k / 4], k % 4),
            decreases cells.len() - i,
        {
            let p = cells[i];
            raw.push(p.r);
            raw.push(p.g);
            raw.push(p.b);
            raw.push(p.a);
            i += 1;
        }
        raw
    }

    /// The atlas of the given size that RGBA bytes hold, row by row;
    /// `None` where there are not four bytes for each pixel.
    pub fn from_rgba_bytes(width: u32, height: u32, raw: &Vec<u8>) -> (r: Option<Atlas>)
        ensures
            r is Some <==> raw.len() == 4 * (width * height),
            r matches Some(a) ==> a@ == Grid::from_bytes(width as nat, height as nat, raw@),
    {
        proof {
            lemma_area_fits(width as int, height as int);
        }
        let area: u64 = (width as u64) * (height as u64);
        let count: usize = raw.len() / 4;
        if raw.len() % 4 != 0 || count as u64 != area {
            return None;
        }
        let mut pixels: Vec<Pixel> = Vec::new();
        let mut i: usize = 0;
        while i < count
            invariant
                i <= count,
                raw.len() == 4 * count,
                pixels.len() == i,
                forall|k: int| 0 <= k < i ==> #[trigger] pixels@[k] == rgba_pixels(raw@)[k],
            decreases count - i,
        {
            let p = Pixel { r: raw[4 * i], g: raw[4 * i + 1], b: raw[4 * i + 2], a: raw[4 * i + 3] };
            pixels.push(p);
            i += 1;
        }
        assert(pixels@ =~= rgba_pixels(raw@));
        Atlas::from_pixels(width, height, pixels)
    }

    /// The block resampled to `width` by `height` pixels, each pixel of
    /// the result taken from its nearest neighbour in the block.
    pub fn resample(self, width: u32, height: u32) -> (out: Atlas)
        requires
            self@.can_resample(width as nat, height as nat),
        ensures
            out@ == self@.resampled(width as nat, height as nat),
    {
        if self.width() == width && self.height() == height {
            return self;
        }
        let raw = self.to_rgba_bytes();
        let resized = resize_nearest(raw, self.width(), self.height(), width, height);
        let out = Atlas::from_rgba_bytes(width, height, &resized);
        out.unwrap()
    }

    /// The atlas as a PNG image.
    pub fn encode_png(&self) -> (r: Result<Vec<u8>, EncodeError>)
        ensures
            match r {
                Ok(png) => png_encoded(self@.bytes(), self@.width as int, self@.height as int)
                    == Some(png@),
                Err(_) => png_encoded(self@.bytes(), self@.width as int, self@.height as int)
                    is None,
            },
    {
        let raw = self.to_rgba_bytes();
        match write_png(raw, self.width(), self.height()) {
            Ok(png) => Ok(png),
            Err(_) => Err(EncodeError),
        }
    }

    /// The atlas that an encoded image holds, its pixels taken as RGBA.
    pub fn decode(encoded: &Vec<u8>) -> (r: Result<Atlas, SourceFetchError>)
        ensures
            r is Ok <==> Atlas::decodable(encoded@),
            r matches Ok(atlas) ==> atlas@ == Atlas::decoded(encoded@),
    {
        match load_rgba(encoded) {
            Ok((width, height, raw)) => match Atlas::from_rgba_bytes(width, height, &raw) {
                Some(atlas) => Ok(atlas),
                None => Err(SourceFetchError),
            },
            Err(_) => Err(SourceFetchError),
        }
    }

    /// Whether an encoded image decodes to a grid of RGBA pixels.
    pub open spec fn decodable(encoded: Seq<u8>) -> bool {
        match rgba_decoded(encoded) {
            Some((width, height, raw)) => raw.len() == 4 * (width * height),
            None => false,
        }
    }

    /// The grid that an encoded image decodes to.
    pub open spec fn decoded(encoded: Seq<u8>) -> Grid {
        match rgba_decoded(encoded) {
            Some((width, height, raw)) => Grid::from_bytes(width as nat, height as nat, raw),
            None => Grid::from_bytes(0, 0, Seq::empty()),
        }
    }
}

} // verus!
