//! Pixel buffers and their encodings: cropping, PNG and standard base64.

use vstd::prelude::*;
use base64::Engine;
use image::{GenericImageView, ImageEncoder};

verus! {

/// An RGBA image with 8 bits per channel, rows top to bottom.
pub struct RgbaFrame {
    width: u32,
    height: u32,
    pixels: Vec<u8>,
}

/// A rectangle of pixels: its top-left corner and its size.
#[derive(PartialEq, Eq, Structural, Clone, Copy, Debug)]
pub struct CropRect {
    pub x: u32,
    pub y: u32,
    pub width: u32,
    pub height: u32,
}

impl RgbaFrame {
    /// Four bytes per pixel.
    #[verifier::type_invariant]
    closed spec fn well_formed(self) -> bool {
        self.pixels@.len() == 4 * (self.width as int) * (self.height as int)
    }

    pub closed spec fn frame_width(self) -> u32 {
        self.width
    }

    pub closed spec fn frame_height(self) -> u32 {
        self.height
    }

    pub closed spec fn frame_pixels(self) -> Seq<u8> {
        self.pixels@
    }

    /// A frame from raw RGBA bytes, when there are exactly four per pixel.
    pub fn from_raw(width: u32, height: u32, pixels: Vec<u8>) -> (r: Option<RgbaFrame>)
        ensures
            r is Some <==> pixels@.len() == 4 * (width as int) * (height as int),
            r matches Some(f) ==> f.frame_width() == width && f.frame_height() == height
                && f.frame_pixels() == pixels@,
    {
        let n = pixels.len();
        let w = width as u64;
        let h = height as u64;
        assert(w * h <= 0xffff_ffff_ffff_ffff) by (nonlinear_arith)
            requires w <= 0xffff_ffff, h <= 0xffff_ffff;
        let area: u64 = w * h;
        assert(4 * (width as int) * (height as int) == 4 * (area as int)) by (nonlinear_arith)
            requires area == w * h, w == width, h == height;
        if area > (usize::MAX / 4) as u64 {
            assert(n as int <= usize::MAX);
            return None;
        }
        if n as u64 != area * 4 {
            return None;
        }
        Some(RgbaFrame { width, height, pixels })
    }

    pub fn width(&self) -> (r: u32)
        ensures
            r == self.frame_width(),
    {
        self.width
    }

    pub fn height(&self) -> (r: u32)
        ensures
            r == self.frame_height(),
    {
        self.height
    }

    /// The raw RGBA bytes.
    pub fn into_raw(self) -> (r: Vec<u8>)
        ensures
            r@ == self.frame_pixels(),
    {
        self.pixels
    }
}

/// The bytes of the `w` by `h` rectangle at (`x`, `y`) of an image `src_w`
/// pixels wide, row by row.
pub open spec fn crop_bytes(src: Seq<u8>, src_w: nat, x: nat, y: nat, w: nat, h: nat) -> Seq<u8> {
    Seq::new(
        4 * w * h,
        |k: int|
            src[(((y + (k / 4) / (w as int)) * src_w + x + (k / 4) % (w as int)) * 4 + k % 4) as int],
    )
}

/// Cuts the rectangle `rect` out of `frame` with the `image` crate: the
/// result is `rect`'s size and holds the frame's pixels under `rect`, row by
/// row. `rect` must lie inside the frame (the crate panics otherwise).
#[verifier::external_body]
pub(crate) fn crop(frame: RgbaFrame, rect: CropRect) -> (r: RgbaFrame)
    requires
        rect.x + rect.width <= frame.frame_width(),
        rect.y + rect.height <= frame.frame_height(),
    ensures
        r.frame_width() == rect.width,
        r.frame_height() == rect.height,
        r.frame_pixels() == crop_bytes(
            frame.frame_pixels(),
            frame.frame_width() as nat,
            rect.x as nat,
            rect.y as nat,
            rect.width as nat,
            rect.height as nat,
        ),
{
    let img = image::RgbaImage::from_raw(frame.width, frame.height, frame.pixels).unwrap();
    let sub = img.view(rect.x, rect.y, rect.width, rect.height).to_image();
    RgbaFrame { width: sub.width(), height: sub.height(), pixels: sub.into_raw() }
}

#[verifier::external_type_specification]
#[verifier::external_body]
pub struct ExImageError(image::ImageError);

/// What the `image` crate's PNG encoder writes for an RGBA8 image, or `None`
/// where it reports an error.
pub uninterp spec fn png_rgba8(width: u32, height: u32, pixels: Seq<u8>) -> Option<Seq<u8>>;

/// Encodes RGBA8 pixels as PNG with `image::codecs::png::PngEncoder::write_image`.
/// The contract ties the outcome to `png_rgba8` of the arguments and says
/// that the bytes, held in a `Vec`, number at most `isize::MAX`. The
/// encoder panics unless there are four bytes per pixel.
#[verifier::external_body]
fn write_png(width: u32, height: u32, pixels: &Vec<u8>) -> (r: Result<Vec<u8>, image::ImageError>)
    requires
        pixels@.len() == 4 * (width as int) * (height as int),
    ensures
        r is Ok <==> png_rgba8(width, height, pixels@) is Some,
        r matches Ok(b) ==> png_rgba8(width, height, pixels@) == Some(b@) && b@.len()
            <= isize::MAX,
{
    let mut buf: Vec<u8> = Vec::new();
    match image::codecs::png::PngEncoder::new(&mut buf).write_image(
        pixels,
        width,
        height,
        image::ExtendedColorType::Rgba8,
    ) {
        Ok(()) => Ok(buf),
        Err(e) => Err(e),
    }
}

/// The text of an `image` crate error, as its `Display` writes it. Nothing
/// is stated of the text.
#[verifier::external_body]
fn image_error_text(e: &image::ImageError) -> String {
    format!("{e}")
}

/// PNG bytes for a frame, or the encoder's error message.
pub fn encode_png_bytes(frame: &RgbaFrame) -> (r: Result<Vec<u8>, String>)
    ensures
        r is Ok <==> png_rgba8(frame.frame_width(), frame.frame_height(), frame.frame_pixels()) is Some,
        r matches Ok(b) ==> png_rgba8(frame.frame_width(), frame.frame_height(), frame.frame_pixels())
            == Some(b@) && b@.len() <= isize::MAX,
{
    proof {
        use_type_invariant(frame);
    }
    match write_png(frame.width, frame.height, &frame.pixels) {
        Ok(b) => Ok(b),
        Err(e) => Err(image_error_text(&e)),
    }
}

/// The character for a 6-bit value in the standard base64 alphabet.
pub open spec fn b64_digit(v: int) -> char {
    if v < 26 {
        (65 + v) as char
    } else if v < 52 {
        (97 + v - 26) as char
    } else if v < 62 {
        (48 + v - 52) as char
    } else if v == 62 {
        '+'
    } else {
        '/'
    }
}

/// Standard base64 (RFC 4648, with `=` padding): each group of three bytes
/// becomes four characters.
pub open spec fn base64_standard(b: Seq<u8>) -> Seq<char>
    decreases b.len(),
{
    if b.len() == 0 {
        Seq::empty()
    } else {
        let b0 = b[0] as int;
        let b1 = if b.len() > 1 { b[1] as int } else { 0 };
        let b2 = if b.len() > 2 { b[2] as int } else { 0 };
        let c0 = b64_digit(b0 / 4);
        let c1 = b64_digit((b0 % 4) * 16 + b1 / 16);
        let c2 = b64_digit((b1 % 16) * 4 + b2 / 64);
        let c3 = b64_digit(b2 % 64);
        if b.len() == 1 {
            seq![c0, c1, '=', '=']
        } else if b.len() == 2 {
            seq![c0, c1, c2, '=']
        } else {
            seq![c0, c1, c2, c3] + base64_standard(b.skip(3))
        }
    }
}

/// Encodes bytes with `base64::engine::general_purpose::STANDARD`, which the
/// contract states to be standard padded base64. The engine panics only
/// when the encoded length overflows `usize`, which no input of at most
/// `isize::MAX` bytes reaches.
#[verifier::external_body]
pub(crate) fn base64_encode(bytes: &Vec<u8>) -> (r: String)
    requires
        bytes@.len() <= isize::MAX,
    ensures
        r@ == base64_standard(bytes@),
{
    base64::engine::general_purpose::STANDARD.encode(bytes)
}

/// Law: standard base64 writes four characters for every started group of
/// three bytes.
pub proof fn law_base64_length(b: Seq<u8>)
    ensures
        base64_standard(b).len() == 4 * ((b.len() + 2) / 3),
    decreases b.len(),
{
    if b.len() > 2 {
        law_base64_length(b.skip(3));
    }
}

/// Law: cropping the whole frame gives the frame's bytes back.
pub proof fn law_crop_whole_frame(src: Seq<u8>, w: nat, h: nat)
    requires
        src.len() == 4 * w * h,
    ensures
        crop_bytes(src, w, 0, 0, w, h) =~= src,
{
    let c = crop_bytes(src, w, 0, 0, w, h);
    assert forall|k: int| 0 <= k < c.len() implies c[k] == src[k] by {
        let p = k / 4;
        let wi = w as int;
        assert(wi > 0) by (nonlinear_arith)
            requires 0 <= k < 4 * w * h, wi == w;
        assert((p / wi) * wi + p % wi == p) by (nonlinear_arith)
            requires wi > 0;
        assert(((0 + p / wi) * wi + 0 + p % wi) * 4 + k % 4 == k) by (nonlinear_arith)
            requires wi > 0, p == k / 4, (p / wi) * wi + p % wi == p, 0 <= k;
    }
}

} // verus!
