//! Screenshots for "ask Gemini about what's on screen": encoding a captured
//! frame as a base64 PNG, and the region-selection flow that keeps the last
//! capture until the user picks a rectangle or cancels.

use vstd::prelude::*;
use crate::codec::{
    base64_encode, base64_standard, crop, crop_bytes, encode_png_bytes, png_rgba8, CropRect,
    RgbaFrame,
};

verus! {

/// A screenshot ready to send: its MIME type and its base64 data.
pub struct ScreenshotPayload {
    pub mime_type: String,
    pub data_base64: String,
}

impl ScreenshotPayload {
    pub fn clone_payload(&self) -> (r: ScreenshotPayload)
        ensures
            r.mime_type@ == self.mime_type@,
            r.data_base64@ == self.data_base64@,
    {
        ScreenshotPayload {
            mime_type: self.mime_type.clone(),
            data_base64: self.data_base64.clone(),
        }
    }
}

/// What can go wrong with a screenshot.
pub enum CaptureError {
    /// The screen could not be captured; the capture library's message.
    Capture { detail: String },
    /// A region was finished with no capture staged.
    NoCachedScreenshot,
    /// The selected region has no area.
    ZeroSizeSelection,
    /// The PNG encoder failed; its message.
    Encode { detail: String },
}

/// The message shown for each capture error.
pub open spec fn capture_error_text(e: CaptureError) -> Seq<char> {
    match e {
        CaptureError::Capture { detail } => detail@,
        CaptureError::NoCachedScreenshot =>
            "no cached screenshot \u{2014} call start_region_capture first"@,
        CaptureError::ZeroSizeSelection => "zero-size selection"@,
        CaptureError::Encode { detail } => "PNG encode: "@ + detail@,
    }
}

impl CaptureError {
    pub fn message(&self) -> (r: String)
        ensures
            r@ == capture_error_text(*self),
    {
        match self {
            CaptureError::Capture { detail } => detail.clone(),
            CaptureError::NoCachedScreenshot => String::from_str(
                "no cached screenshot \u{2014} call start_region_capture first",
            ),
            CaptureError::ZeroSizeSelection => String::from_str("zero-size selection"),
            CaptureError::Encode { detail } => {
                let mut s = String::from_str("PNG encode: ");
                s.append(detail.as_str());
                s
            },
        }
    }
}

/// The base64 PNG that a frame encodes to, if the encoder accepts it.
pub open spec fn png_payload_data(frame: RgbaFrame) -> Option<Seq<char>> {
    match png_rgba8(frame.frame_width(), frame.frame_height(), frame.frame_pixels()) {
        Some(png) => Some(base64_standard(png)),
        None => None,
    }
}

/// Encodes a frame as a PNG screenshot payload: MIME type `image/png` and
/// the PNG bytes in standard base64.
pub fn encode_png(frame: &RgbaFrame) -> (r: Result<ScreenshotPayload, CaptureError>)
    ensures
        r is Ok <==> png_payload_data(*frame) is Some,
        r matches Ok(p) ==> p.mime_type@ == "image/png"@ && Some(p.data_base64@)
            == png_payload_data(*frame),
        r matches Err(e) ==> e is Encode,
{
    match encode_png_bytes(frame) {
        Ok(bytes) => Ok(
            ScreenshotPayload {
                mime_type: String::from_str("image/png"),
                data_base64: base64_encode(&bytes),
            },
        ),
        Err(detail) => Err(CaptureError::Encode { detail }),
    }
}

/// Full-screen screenshot of the primary monitor: the grabbed frame, or
/// the capture library's message when grabbing failed, encoded as a PNG
/// payload.
pub fn capture_primary_monitor(grabbed: Result<RgbaFrame, String>) -> (r: Result<
    ScreenshotPayload,
    CaptureError,
>)
    ensures
        grabbed matches Err(d) ==> (r matches Err(e) && e == (CaptureError::Capture { detail: d })),
        grabbed matches Ok(f) ==> {
            &&& r is Ok <==> png_payload_data(f) is Some
            &&& r matches Ok(p) ==> p.mime_type@ == "image/png"@ && Some(p.data_base64@)
                == png_payload_data(f)
            &&& r matches Err(e) ==> e is Encode
        },
{
    match grabbed {
        Err(detail) => Err(CaptureError::Capture { detail }),
        Ok(frame) => encode_png(&frame),
    }
}

/// The monitor to capture: the first one that reports itself primary.
pub fn primary_monitor_index(is_primary: &Vec<bool>) -> (r: Option<usize>)
    ensures
        r matches Some(i) ==> i < is_primary.len() && is_primary@[i as int] && forall|j: int|
            0 <= j < i ==> !is_primary@[j],
        r is None ==> forall|j: int| 0 <= j < is_primary.len() ==> !is_primary@[j],
{
    let mut i: usize = 0;
    while i < is_primary.len()
        invariant
            i <= is_primary.len(),
            forall|j: int| 0 <= j < i ==> !is_primary@[j],
        decreases is_primary.len() - i,
    {
        if is_primary[i] {
            return Some(i);
        }
        i = i + 1;
    }
    None
}

pub open spec fn min_u32(a: u32, b: u32) -> u32 {
    if a <= b { a } else { b }
}

/// The selection `sel` (in image pixels) moved and shrunk to lie inside an
/// image of `img_w` by `img_h`: the corner is held to the last row and
/// column, the size to what is left of the image from there.
pub open spec fn clamped(sel: CropRect, img_w: u32, img_h: u32) -> CropRect {
    let x = min_u32(sel.x, if img_w == 0 { 0 } else { (img_w - 1) as u32 });
    let y = min_u32(sel.y, if img_h == 0 { 0 } else { (img_h - 1) as u32 });
    CropRect {
        x,
        y,
        width: min_u32(sel.width, (img_w - x) as u32),
        height: min_u32(sel.height, (img_h - y) as u32),
    }
}

/// Holds a selection inside an image of `img_w` by `img_h`.
pub fn clamp_selection(sel: CropRect, img_w: u32, img_h: u32) -> (r: CropRect)
    ensures
        r == clamped(sel, img_w, img_h),
        r.x + r.width <= img_w,
        r.y + r.height <= img_h,
{
    let x = if sel.x <= img_w.saturating_sub(1) { sel.x } else { img_w.saturating_sub(1) };
    let y = if sel.y <= img_h.saturating_sub(1) { sel.y } else { img_h.saturating_sub(1) };
    let width = if sel.width <= img_w - x { sel.width } else { img_w - x };
    let height = if sel.height <= img_h - y { sel.height } else { img_h - y };
    CropRect { x, y, width, height }
}

/// The screenshot being selected from: the captured frame and its payload,
/// staged between the start and the end of a region selection.
pub struct CaptureState {
    image: Option<RgbaFrame>,
    payload: Option<ScreenshotPayload>,
}

/// The payload of a region: the frame under the clamped selection, as PNG.
pub open spec fn region_data(frame: RgbaFrame, sel: CropRect) -> Option<Seq<char>> {
    let c = clamped(sel, frame.frame_width(), frame.frame_height());
    match png_rgba8(
        c.width,
        c.height,
        crop_bytes(
            frame.frame_pixels(),
            frame.frame_width() as nat,
            c.x as nat,
            c.y as nat,
            c.width as nat,
            c.height as nat,
        ),
    ) {
        Some(png) => Some(base64_standard(png)),
        None => None,
    }
}

impl CaptureState {
    pub closed spec fn staged_image(self) -> Option<RgbaFrame> {
        self.image
    }

    /// The staged payload's MIME type and data, if one is staged.
    pub closed spec fn staged_payload(self) -> Option<(Seq<char>, Seq<char>)> {
        match self.payload {
            Some(p) => Some((p.mime_type@, p.data_base64@)),
            None => None,
        }
    }

    /// Nothing staged.
    pub fn new() -> (r: CaptureState)
        ensures
            r.staged_image() is None,
            r.staged_payload() is None,
    {
        CaptureState { image: None, payload: None }
    }

    /// Drops whatever is staged.
    pub fn clear(&mut self)
        ensures
            final(self).staged_image() is None,
            final(self).staged_payload() is None,
    {
        self.image = None;
        self.payload = None;
    }

    /// Stages a fresh capture and its payload for the selector.
    pub fn stage(&mut self, image: RgbaFrame, payload: ScreenshotPayload)
        ensures
            final(self).staged_image() == Some(image),
            final(self).staged_payload() == Some((payload.mime_type@, payload.data_base64@)),
    {
        self.image = Some(image);
        self.payload = Some(payload);
    }

    /// A copy of the staged payload, for the selector window to paint.
    pub fn get_pending_screenshot(&self) -> (r: Option<ScreenshotPayload>)
        ensures
            match r {
                Some(p) => self.staged_payload() == Some((p.mime_type@, p.data_base64@)),
                None => self.staged_payload() is None,
            },
    {
        match &self.payload {
            Some(p) => Some(p.clone_payload()),
            None => None,
        }
    }

    /// Ends a region selection. `width` and `height` are the selection's
    /// size as the user drew it; `scaled` is the selection in image pixels.
    /// With no capture staged this fails and leaves the state as it is.
    /// Otherwise the staged capture and payload are taken out; an empty
    /// selection fails, and any other is clamped to the image, cropped and
    /// encoded as a PNG payload.
    pub fn finish_region_capture(&mut self, width: u32, height: u32, scaled: CropRect) -> (r:
        Result<ScreenshotPayload, CaptureError>)
        ensures
            old(self).staged_image() is None ==> (r matches Err(e) && e is NoCachedScreenshot),
            old(self).staged_image() is None ==> final(self).staged_image() is None
                && final(self).staged_payload() == old(self).staged_payload(),
            old(self).staged_image() matches Some(frame) ==> {
                &&& final(self).staged_image() is None
                &&& final(self).staged_payload() is None
                &&& (width == 0 || height == 0) ==> (r matches Err(e) && e is ZeroSizeSelection)
                &&& (width != 0 && height != 0) ==> {
                    &&& r is Ok <==> region_data(frame, scaled) is Some
                    &&& r matches Ok(p) ==> p.mime_type@ == "image/png"@ && Some(p.data_base64@)
                        == region_data(frame, scaled)
                    &&& r matches Err(e) ==> e is Encode
                }
            },
    {
        let img = match self.image.take() {
            Some(img) => img,
            None => {
                return Err(CaptureError::NoCachedScreenshot);
            },
        };
        self.payload = None;
        if width == 0 || height == 0 {
            return Err(CaptureError::ZeroSizeSelection);
        }
        let rect = clamp_selection(scaled, img.width(), img.height());
        let cropped = crop(img, rect);
        encode_png(&cropped)
    }
}

/// Law: a selection that already lies inside the image is left as it is
/// by clamping.
pub proof fn law_clamp_keeps_inner_selection(sel: CropRect, img_w: u32, img_h: u32)
    requires
        sel.x < img_w,
        sel.y < img_h,
        sel.x + sel.width <= img_w,
        sel.y + sel.height <= img_h,
    ensures
        clamped(sel, img_w, img_h) == sel,
{
}

/// Law: clamping is idempotent, and its result always lies inside the
/// image.
pub proof fn law_clamp_idempotent(sel: CropRect, img_w: u32, img_h: u32)
    ensures
        clamped(clamped(sel, img_w, img_h), img_w, img_h) == clamped(sel, img_w, img_h),
        clamped(sel, img_w, img_h).x + clamped(sel, img_w, img_h).width <= img_w,
        clamped(sel, img_w, img_h).y + clamped(sel, img_w, img_h).height <= img_h,
{
}

} // verus!
