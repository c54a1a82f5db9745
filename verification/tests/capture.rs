use base64::Engine;
use writingagent::capture::{
    capture_primary_monitor, clamp_selection, encode_png, primary_monitor_index, CaptureError,
    CaptureState, ScreenshotPayload,
};
use writingagent::codec::{CropRect, RgbaFrame};

/// A frame whose pixel (x, y) is [x, y, 7, 255].
fn frame(w: u32, h: u32) -> RgbaFrame {
    let mut px = Vec::new();
    for y in 0..h {
        for x in 0..w {
            px.extend_from_slice(&[x as u8, y as u8, 7, 255]);
        }
    }
    RgbaFrame::from_raw(w, h, px).unwrap()
}

fn decode(p: &ScreenshotPayload) -> image::RgbaImage {
    assert_eq!(p.mime_type, "image/png");
    let bytes = base64::engine::general_purpose::STANDARD.decode(&p.data_base64).unwrap();
    image::load_from_memory(&bytes).unwrap().to_rgba8()
}

fn rect(x: u32, y: u32, width: u32, height: u32) -> CropRect {
    CropRect { x, y, width, height }
}

#[test]
fn frame_needs_four_bytes_per_pixel() {
    assert!(RgbaFrame::from_raw(2, 2, vec![0; 15]).is_none());
    assert!(RgbaFrame::from_raw(2, 2, vec![0; 16]).is_some());
    assert!(RgbaFrame::from_raw(0, 5, vec![]).is_some());
}

#[test]
fn payload_is_standard_base64_of_the_png() {
    let p = encode_png(&frame(3, 2)).ok().unwrap();
    let bytes = base64::engine::general_purpose::STANDARD.decode(&p.data_base64).unwrap();
    assert_eq!(&bytes[..8], &[0x89, b'P', b'N', b'G', 0x0D, 0x0A, 0x1A, 0x0A]);
    assert_eq!(p.data_base64, base64::engine::general_purpose::STANDARD.encode(&bytes));
    assert_eq!(p.data_base64.len(), 4 * ((bytes.len() + 2) / 3));
    assert!(p.data_base64.chars().all(|c| c.is_ascii_alphanumeric() || c == '+' || c == '/' || c == '='));
}

#[test]
fn encoded_png_round_trips() {
    let p = encode_png(&frame(3, 2)).ok().unwrap();
    let img = decode(&p);
    assert_eq!(img.dimensions(), (3, 2));
    assert_eq!(img.get_pixel(2, 1).0, [2, 1, 7, 255]);
}

#[test]
fn region_takes_the_rectangle() {
    let mut st = CaptureState::new();
    st.stage(frame(4, 3), encode_png(&frame(1, 1)).ok().unwrap());
    let img = decode(&st.finish_region_capture(2, 2, rect(1, 1, 2, 2)).ok().unwrap());
    assert_eq!(img.into_raw(), vec![1, 1, 7, 255, 2, 1, 7, 255, 1, 2, 7, 255, 2, 2, 7, 255]);
}

#[test]
fn region_of_whole_frame_is_the_frame() {
    let mut st = CaptureState::new();
    st.stage(frame(3, 2), encode_png(&frame(1, 1)).ok().unwrap());
    let img = decode(&st.finish_region_capture(3, 2, rect(0, 0, 3, 2)).ok().unwrap());
    assert_eq!(img.into_raw(), frame(3, 2).into_raw());
}

#[test]
fn clamp_keeps_inner_selection() {
    assert_eq!(clamp_selection(rect(1, 2, 3, 4), 10, 10), rect(1, 2, 3, 4));
}

#[test]
fn clamp_moves_and_shrinks_outer_selection() {
    assert_eq!(clamp_selection(rect(50, 50, 20, 20), 10, 8), rect(9, 7, 1, 1));
    assert_eq!(clamp_selection(rect(5, 1, 20, 20), 10, 8), rect(5, 1, 5, 7));
    assert_eq!(clamp_selection(rect(3, 3, 4, 4), 0, 0), rect(0, 0, 0, 0));
}

#[test]
fn clamp_is_idempotent() {
    let once = clamp_selection(rect(7, 9, 30, 2), 8, 10);
    assert_eq!(clamp_selection(once, 8, 10), once);
    assert!(once.x + once.width <= 8 && once.y + once.height <= 10);
}

#[test]
fn finish_without_capture_fails() {
    let mut st = CaptureState::new();
    let r = st.finish_region_capture(10, 10, rect(0, 0, 10, 10));
    match r {
        Err(e) => {
            assert!(matches!(e, CaptureError::NoCachedScreenshot));
            assert_eq!(
                e.message(),
                "no cached screenshot \u{2014} call start_region_capture first"
            );
        }
        Ok(_) => panic!("expected an error"),
    }
}

#[test]
fn staged_payload_is_pending_until_finished() {
    let mut st = CaptureState::new();
    assert!(st.get_pending_screenshot().is_none());
    let payload = encode_png(&frame(4, 4)).ok().unwrap();
    let data = payload.data_base64.clone();
    st.stage(frame(4, 4), payload);
    let pending = st.get_pending_screenshot().unwrap();
    assert_eq!(pending.data_base64, data);
    let cropped = st.finish_region_capture(2, 2, rect(1, 1, 2, 2)).ok().unwrap();
    let img = decode(&cropped);
    assert_eq!(img.dimensions(), (2, 2));
    assert_eq!(img.get_pixel(0, 0).0, [1, 1, 7, 255]);
    assert!(st.get_pending_screenshot().is_none());
    assert!(matches!(
        st.finish_region_capture(2, 2, rect(0, 0, 1, 1)),
        Err(CaptureError::NoCachedScreenshot)
    ));
}

#[test]
fn zero_size_selection_fails_and_drops_capture() {
    let mut st = CaptureState::new();
    let payload = encode_png(&frame(2, 2)).ok().unwrap();
    st.stage(frame(2, 2), payload);
    match st.finish_region_capture(0, 5, rect(0, 0, 0, 5)) {
        Err(e) => assert_eq!(e.message(), "zero-size selection"),
        Ok(_) => panic!("expected an error"),
    }
    assert!(st.get_pending_screenshot().is_none());
}

#[test]
fn selection_past_the_edge_is_clamped() {
    let mut st = CaptureState::new();
    st.stage(frame(5, 4), encode_png(&frame(1, 1)).ok().unwrap());
    let p = st.finish_region_capture(100, 100, rect(3, 2, 100, 100)).ok().unwrap();
    let img = decode(&p);
    assert_eq!(img.dimensions(), (2, 2));
    assert_eq!(img.get_pixel(1, 1).0, [4, 3, 7, 255]);
}

#[test]
fn clear_drops_everything() {
    let mut st = CaptureState::new();
    st.stage(frame(1, 1), encode_png(&frame(1, 1)).ok().unwrap());
    st.clear();
    assert!(st.get_pending_screenshot().is_none());
    assert!(matches!(
        st.finish_region_capture(1, 1, rect(0, 0, 1, 1)),
        Err(CaptureError::NoCachedScreenshot)
    ));
}

#[test]
fn full_screenshot_encodes_grabbed_frame() {
    let p = capture_primary_monitor(Ok(frame(2, 3))).ok().unwrap();
    assert_eq!(decode(&p).dimensions(), (2, 3));
    match capture_primary_monitor(Err("no monitor found".to_string())) {
        Err(e) => assert_eq!(e.message(), "no monitor found"),
        Ok(_) => panic!("expected an error"),
    }
}

#[test]
fn encoder_error_is_reported() {
    match encode_png(&frame(0, 0)) {
        Err(e) => assert!(e.message().starts_with("PNG encode: ")),
        Ok(p) => assert_eq!(p.mime_type, "image/png"),
    }
}

#[test]
fn first_primary_monitor_is_picked() {
    assert_eq!(primary_monitor_index(&vec![false, true, true]), Some(1));
    assert_eq!(primary_monitor_index(&vec![false, false]), None);
    assert_eq!(primary_monitor_index(&vec![]), None);
}
