//! End-to-end scenarios: everything the pipeline does between receiving the
//! request and answering, with the network transfer simulated by handing over
//! a status, a declared length, and body bytes.

use imgproxy::allowlist::HostAllowlist;
use imgproxy::errors::Error;
use imgproxy::fetch::check_response_meta;
use imgproxy::pipeline::{plan_request, process_body, Mode, ResizeRequest};
use imgproxy::raster::RasterImage;
use imgproxy::urlhost::ParsedUrl;

fn jpeg_bytes(w: u32, h: u32) -> Vec<u8> {
    let img = image::DynamicImage::ImageRgb8(image::RgbImage::new(w, h));
    let mut buf: Vec<u8> = Vec::new();
    let mut cursor = std::io::Cursor::new(&mut buf);
    img.write_to(&mut cursor, image::ImageFormat::Jpeg)
        .expect("encoding a test image must succeed");
    buf
}

fn decoded_dims(bytes: &[u8]) -> (u32, u32) {
    let img = image::load_from_memory(bytes).expect("output must decode");
    (img.width(), img.height())
}

fn allowlist() -> HostAllowlist {
    HostAllowlist::new(vec!["good.example".to_string()])
}

fn request(url: &str, mode: &str, height: u32, width: u32) -> ResizeRequest {
    ResizeRequest {
        url: ParsedUrl::parse(url).expect("test URL must parse"),
        mode: Some(mode.to_string()),
        height: Some(height),
        width: Some(width),
    }
}

#[test]
fn scenario_fit_within_bounds() {
    let req = request("https://good.example/img.jpg", "fit", 100, 200);
    let mode = plan_request(&req, &allowlist()).expect("plan must pass");
    assert_eq!(mode, Mode::Fit);

    let body = jpeg_bytes(400, 400);
    let len = check_response_meta(200, Some(body.len() as u64)).expect("meta must pass");
    assert_eq!(len, body.len() as u64);

    let out = process_body(&body, mode, req.height, req.width).expect("pipeline must pass");
    assert!(out.width <= 200 && out.height <= 100);
    assert!(out.width == 200 || out.height == 100);
    assert_eq!((out.width, out.height), (100, 100));
    assert_eq!(decoded_dims(&out.bytes), (100, 100));
    assert_eq!(out.content_type(), "image/jpeg");
}

#[test]
fn scenario_fill_exact_bounds() {
    let req = request("https://good.example/img.jpg", "fill", 100, 200);
    let mode = plan_request(&req, &allowlist()).expect("plan must pass");
    assert_eq!(mode, Mode::Fill);

    let body = jpeg_bytes(400, 400);
    check_response_meta(200, Some(body.len() as u64)).expect("meta must pass");

    let out = process_body(&body, mode, req.height, req.width).expect("pipeline must pass");
    assert_eq!((out.width, out.height), (200, 100));
    assert_eq!(decoded_dims(&out.bytes), (200, 100));
}

#[test]
fn scenario_forbidden_host_stops_before_fetch() {
    let req = request("https://evil.example/img.jpg", "fit", 100, 200);
    assert_eq!(plan_request(&req, &allowlist()), Err(Error::ForbiddenHost));
}

#[test]
fn scenario_upstream_error_stops_before_decode() {
    let req = request("https://good.example/img.jpg", "fit", 100, 200);
    plan_request(&req, &allowlist()).expect("plan must pass");
    assert_eq!(check_response_meta(404, Some(1000)), Err(Error::Upstream));
}

#[test]
fn decode_reads_dimensions() {
    let body = jpeg_bytes(37, 23);
    let img = RasterImage::decode(&body).expect("JPEG must decode");
    assert_eq!((img.width(), img.height()), (37, 23));
}

#[test]
fn decode_rejects_garbage() {
    assert!(matches!(RasterImage::decode(&vec![1u8, 2, 3, 4]), Err(Error::Decode)));
    assert!(matches!(RasterImage::decode(&Vec::new()), Err(Error::Decode)));
    assert!(matches!(
        process_body(&vec![0u8; 64], Mode::Fit, None, None),
        Err(Error::Decode)
    ));
}

#[test]
fn fit_without_targets_is_identity() {
    let body = jpeg_bytes(40, 30);
    let img = RasterImage::decode(&body).expect("JPEG must decode");
    let out = img.fit(None, None);
    assert_eq!((out.width(), out.height()), (40, 30));
}

#[test]
fn fill_without_targets_keeps_dimensions() {
    let body = jpeg_bytes(40, 30);
    let img = RasterImage::decode(&body).expect("JPEG must decode");
    let out = img.fill(None, None).expect("fill at source size must pass");
    assert_eq!((out.width(), out.height()), (40, 30));
}

#[test]
fn fit_with_one_target_bounds_one_axis() {
    let body = jpeg_bytes(400, 200);
    let img = RasterImage::decode(&body).expect("JPEG must decode");
    // Only the width is bounded; the height target defaults to the source's
    // 200 and the aspect ratio keeps the result under it.
    let out = img.fit(None, Some(100));
    assert_eq!((out.width(), out.height()), (100, 50));
}

#[test]
fn fill_crops_the_overshooting_axis() {
    let body = jpeg_bytes(300, 100);
    let img = RasterImage::decode(&body).expect("JPEG must decode");
    // Covering a 100x100 box from a 3:1 source scales to 300x100 and crops
    // the width down to the box.
    let out = img.fill(Some(100), Some(100)).expect("fill must pass");
    assert_eq!((out.width(), out.height()), (100, 100));
}

#[test]
fn fill_with_one_target_crops_that_axis() {
    let body = jpeg_bytes(100, 100);
    let img = RasterImage::decode(&body).expect("JPEG must decode");
    // The width target defaults to the source's 100, so the scale is the
    // identity and only the height is cropped, centered.
    let out = img.fill(Some(50), None).expect("fill must pass");
    assert_eq!((out.width(), out.height()), (100, 50));
}

#[test]
fn encoding_beyond_jpeg_limits_is_internal() {
    // The JPEG encoder refuses dimensions past 65535; a fill that covers a
    // wider box is a defect surfaced as an internal error, not a user error.
    let body = jpeg_bytes(600, 1);
    assert_eq!(
        process_body(&body, Mode::Fill, Some(110), Some(66000)).err(),
        Some(Error::Internal)
    );
}
