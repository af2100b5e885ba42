//! Decoded media frames.

use vstd::prelude::*;

use image::GenericImageView;

use crate::error::MediaError;
use crate::locator::MediaLocator;

verus! {

/// What the external decoder returns for a given byte string: `None` when the
/// bytes are not a decodable image, otherwise the image's width and height
/// and its raw RGBA buffer. The result depends on the byte content alone.
pub uninterp spec fn decoded_rgba_of(bytes: Seq<u8>) -> Option<(u32, u32, Seq<u8>)>;

/// Relies on image::load_from_memory (the format is guessed from the bytes),
/// GenericImageView::dimensions and DynamicImage::into_rgba8 /
/// ImageBuffer::into_raw: the outcome is a function of the byte content
/// alone, and every RGBA image buffer holds at least four bytes per pixel
/// (construction validates `4 * width * height <= buffer length`).
#[verifier::external_body]
fn decode_rgba(bytes: &Vec<u8>) -> (r: Option<(u32, u32, Vec<u8>)>)
    ensures
        match r {
            Some((w, h, px)) => {
                &&& decoded_rgba_of(bytes@) == Some((w, h, px@))
                &&& px@.len() >= 4 * (w as nat) * (h as nat)
            },
            None => decoded_rgba_of(bytes@) is None,
        },
{
    match image::load_from_memory(bytes.as_slice()) {
        Ok(img) => {
            let (w, h) = img.dimensions();
            Some((w, h, img.into_rgba8().into_raw()))
        },
        Err(_) => None,
    }
}

/// A decoded media unit ready for presentation: its geometry, the locator it
/// came from, and the raw RGBA pixel buffer (four bytes per pixel).
///
/// The width:height aspect ratio is carried exactly by the `width` and
/// `height` pair rather than as a lossy quotient.
#[derive(Clone, Debug)]
pub struct Frame {
    pub width: u32,
    pub height: u32,
    pub locator: MediaLocator,
    pub data: Vec<u8>,
}

impl Frame {
    /// The pixel buffer holds exactly four bytes for each of the
    /// `width * height` pixels.
    pub open spec fn wf(self) -> bool {
        self.data@.len() == 4 * (self.width as nat) * (self.height as nat)
    }

    /// Assembles a frame from already-decoded parts.
    pub fn from_decoded(locator: MediaLocator, width: u32, height: u32, data: Vec<u8>) -> (f: Frame)
        requires
            data@.len() == 4 * (width as nat) * (height as nat),
        ensures
            f == (Frame { width, height, locator, data }),
            f.wf(),
    {
        Frame { width, height, locator, data }
    }

    /// Decodes one media item. On success the frame carries the decoder's
    /// dimensions and exactly the first `4 * width * height` bytes of the
    /// decoder's RGBA buffer; bytes that are no image give `DecodeFailure`.
    pub fn new(locator: MediaLocator, bytes: &Vec<u8>) -> (r: Result<Frame, MediaError>)
        ensures
            match decoded_rgba_of(bytes@) {
                Some((w, h, px)) => {
                    &&& r matches Ok(f)
                    &&& r->Ok_0.width == w
                    &&& r->Ok_0.height == h
                    &&& r->Ok_0.locator == locator
                    &&& r->Ok_0.data@ == px.take(4 * (w as int) * (h as int))
                    &&& r->Ok_0.wf()
                },
                None => r == Err::<Frame, MediaError>(MediaError::DecodeFailure),
            },
    {
        match decode_rgba(bytes) {
            Some((w, h, mut px)) => {
                let pxlen: usize = px.len();
                assert(4 * (w as int) * (h as int) <= u128::MAX) by (nonlinear_arith)
                    requires
                        w <= u32::MAX,
                        h <= u32::MAX,
                ;
                let needed128: u128 = 4u128 * (w as u128) * (h as u128);
                assert(needed128 <= usize::MAX) by {
                    assert(px@.len() == pxlen);
                };
                let needed: usize = needed128 as usize;
                px.truncate(needed);
                assert(px@ =~= decoded_rgba_of(bytes@)->Some_0.2.take(
                    4 * (w as int) * (h as int),
                ));
                Ok(Frame::from_decoded(locator, w, h, px))
            },
            None => Err(MediaError::DecodeFailure),
        }
    }

    /// The raw byte array of the pixel buffer.
    pub fn get_raw_image(&self) -> (r: Vec<u8>)
        ensures
            r@ == self.data@,
    {
        let mut r: Vec<u8> = Vec::new();
        let mut i: usize = 0;
        while i < self.data.len()
            invariant
                i <= self.data@.len(),
                r@ == self.data@.take(i as int),
            decreases self.data@.len() - i,
        {
            r.push(self.data[i]);
            i = i + 1;
            assert(r@ =~= self.data@.take(i as int));
        }
        assert(r@ =~= self.data@);
        r
    }
}

} // verus!
