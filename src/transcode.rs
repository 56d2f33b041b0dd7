//! The decode half of transcoding: raw image bytes to RGBA pixels, through
//! the `image` crate. Compressing the pixels is the caller's part.

use vstd::prelude::*;

verus! {

#[verifier::external_type_specification]
#[verifier::external_body]
pub struct ExDynamicImage(image::DynamicImage);

/// What `image::load_from_memory` reports on `data`: `None` when it decodes,
/// the text of its error otherwise. Format sniffing reads the bytes alone.
pub uninterp spec fn decode_error(data: Seq<u8>) -> Option<Seq<char>>;

/// Relies on `image::load_from_memory`: it guesses the format from the bytes
/// and decodes them; its error is rendered through `Display`.
#[verifier::external_body]
fn load_image(data: &[u8]) -> (r: Result<image::DynamicImage, String>)
    ensures
        r is Ok <==> decode_error(data@) is None,
        r is Err ==> decode_error(data@) == Some(r->Err_0@),
{
    image::load_from_memory(data).map_err(|e| e.to_string())
}

/// Relies on `DynamicImage::to_rgba8`: a buffer of width and height whose
/// data holds at least four bytes per pixel (`ImageBuffer::from_raw` and
/// `ImageBuffer::new` both keep that bound).
#[verifier::external_body]
fn rgba_buffer(img: &image::DynamicImage) -> (r: (Vec<u8>, u32, u32))
    ensures
        r.0@.len() >= 4 * r.1 * r.2,
{
    let buf = img.to_rgba8();
    let (width, height) = buf.dimensions();
    (buf.into_raw(), width, height)
}

/// A decoded image: four bytes (R, G, B, A) per pixel, row by row.
pub struct Pixels {
    pub rgba: Vec<u8>,
    pub width: u32,
    pub height: u32,
}

impl Pixels {
    /// The buffer holds exactly one RGBA quadruple per pixel.
    pub open spec fn wf(&self) -> bool {
        self.rgba@.len() == 4 * self.width * self.height
    }
}

/// Decodes raw image bytes into RGBA pixels. Fails, with the decoder's
/// reason, exactly when the decoder rejects the bytes.
pub fn decode_pixels(data: &[u8]) -> (r: Result<Pixels, String>)
    ensures
        r is Ok <==> decode_error(data@) is None,
        r is Ok ==> r->Ok_0.wf(),
        r is Err ==> decode_error(data@) == Some(r->Err_0@),
{
    match load_image(data) {
        Ok(img) => {
            let (mut rgba, width, height) = rgba_buffer(&img);
            let total: usize = rgba.len();
            let w: usize = width as usize;
            let h: usize = height as usize;
            assert(w * h <= total && 4 * (w * h) <= total) by (nonlinear_arith)
                requires
                    total >= 4 * width * height,
                    w == width,
                    h == height,
            ;
            let n: usize = 4 * (w * h);
            rgba.truncate(n);
            assert(4 * width * height == n) by (nonlinear_arith)
                requires
                    n == 4 * (w * h),
                    w == width,
                    h == height,
            ;
            Ok(Pixels { rgba, width, height })
        },
        Err(reason) => Err(reason),
    }
}

} // verus!
