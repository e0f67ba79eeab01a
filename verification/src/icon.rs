//! Decoding of the embedded tray-icon bitmap into raw RGBA pixels.
//!
//! The bitmap is compiled into the binary as PNG bytes; the tray needs it
//! as a raw 32-bit-per-pixel RGBA buffer together with its dimensions.
//! Decoding is delegated to the `image` crate; everything downstream works
//! on an [`IconPixels`] value whose size invariant is checked here.

use vstd::prelude::*;

verus! {

/// The RGBA pixel buffer and dimensions that PNG decoding yields for the
/// given bytes, or `None` where the bytes are not a well-formed PNG image.
pub uninterp spec fn png_rgba_decode(bytes: Seq<u8>) -> Option<(Seq<u8>, u32, u32)>;

/// Relies on `image::load_from_memory_with_format` with the PNG format and
/// `image::DynamicImage::into_rgba8`: decoding is a function of the input
/// bytes alone, and the buffer of a decoded image holds exactly four bytes
/// per pixel.
#[verifier::external_body]
fn decode_png_bytes(bytes: &[u8]) -> (r: Option<(Vec<u8>, u32, u32)>)
    ensures
        r matches Some(t) ==> png_rgba_decode(bytes@) == Some((t.0@, t.1, t.2)),
        r matches Some(t) ==> t.0@.len() == 4 * (t.1 as int) * (t.2 as int),
        r is None ==> png_rgba_decode(bytes@) is None,
{
    match image::load_from_memory_with_format(bytes, image::ImageFormat::Png) {
        Ok(img) => {
            let rgba = img.into_rgba8();
            let (width, height) = rgba.dimensions();
            Some((rgba.into_raw(), width, height))
        }
        Err(_) => None,
    }
}

/// A raw 32-bit-per-pixel RGBA bitmap, ready to be handed to the OS tray.
pub struct IconPixels {
    pub rgba: Vec<u8>,
    pub width: u32,
    pub height: u32,
}

impl IconPixels {
    /// The buffer holds exactly four bytes for each of the
    /// `width * height` pixels.
    pub open spec fn wf(&self) -> bool {
        self.rgba@.len() == 4 * (self.width as int) * (self.height as int)
    }

    /// Packages a raw buffer with its claimed dimensions, accepting it
    /// exactly when the buffer holds four bytes per claimed pixel.
    pub fn new(rgba: Vec<u8>, width: u32, height: u32) -> (r: Option<IconPixels>)
        ensures
            r matches Some(p) ==> p.wf() && p.rgba@ == rgba@ && p.width == width
                && p.height == height,
            (r is Some) <==> rgba@.len() == 4 * (width as int) * (height as int),
    {
        let w: u128 = width as u128;
        let h: u128 = height as u128;
        proof {
            assert(w * h <= 0xffff_ffff_ffff_ffffu128) by (nonlinear_arith)
                requires w <= 0xffff_ffffu128 && h <= 0xffff_ffffu128;
        }
        let pixels: u128 = w * h;
        let expected: u128 = 4u128 * pixels;
        proof {
            assert(4 * (width as int) * (height as int)
                == 4 * ((width as int) * (height as int))) by (nonlinear_arith);
        }
        if (rgba.len() as u128) == expected {
            Some(IconPixels { rgba, width, height })
        } else {
            None
        }
    }

    /// Decodes PNG bytes into an icon bitmap; `None` exactly where the
    /// bytes are not a well-formed PNG image.
    pub fn decode(bytes: &[u8]) -> (r: Option<IconPixels>)
        ensures
            r matches Some(p) ==> p.wf()
                && png_rgba_decode(bytes@) == Some((p.rgba@, p.width, p.height)),
            (r is Some) <==> png_rgba_decode(bytes@) is Some,
    {
        match decode_png_bytes(bytes) {
            Some((rgba, width, height)) => {
                let p = IconPixels { rgba, width, height };
                Some(p)
            }
            None => None,
        }
    }
}

} // verus!
