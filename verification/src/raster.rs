//! The in-memory raster and its transforms.
//!
//! A `RasterImage` couples a decoded pixel buffer of the image codec with its
//! dimensions, which are the only part of it this library reasons about. All
//! construction goes through the codec wrappers below, so the recorded
//! dimensions are always those of the underlying buffer. The fit and fill
//! transforms compute their geometry in verified integer code and hand the
//! codec exact target dimensions.

use crate::errors::Error;
use crate::geometry::{
    compute_crop_origin, compute_fill_scaled, compute_fit_dims, effective_target, fill_scaled_dims,
    fit_dims,
};
use vstd::prelude::*;

verus! {

#[verifier::external_type_specification]
#[verifier::external_body]
pub struct ExDynamicImage(image::DynamicImage);

#[verifier::external_type_specification]
#[verifier::external_body]
pub struct ExImageError(image::ImageError);

/// The dimensions of the image that a byte sequence decodes to, or `None`
/// where the bytes are not a decodable image. Decoding is a function of the
/// bytes alone; nothing more is assumed of it.
pub uninterp spec fn decoded_dims(bytes: Seq<u8>) -> Option<(nat, nat)>;

/// A decoded pixel buffer with its width and height in pixels.
pub struct RasterImage {
    img: image::DynamicImage,
    width: u32,
    height: u32,
}

/// The encoded result: JPEG bytes plus the pixel dimensions they encode.
pub struct ResizedOutput {
    pub bytes: Vec<u8>,
    pub width: u32,
    pub height: u32,
}

impl ResizedOutput {
    /// The content-type metadata of every output this library produces.
    pub fn content_type(&self) -> (r: &'static str)
        ensures
            r@ == "image/jpeg"@,
    {
        "image/jpeg"
    }
}

impl RasterImage {
    pub closed spec fn spec_width(&self) -> u32 {
        self.width
    }

    pub closed spec fn spec_height(&self) -> u32 {
        self.height
    }

    /// A raster this library works on has at least one pixel on each axis.
    pub open spec fn wf(&self) -> bool {
        self.spec_width() >= 1 && self.spec_height() >= 1
    }

    pub fn width(&self) -> (r: u32)
        ensures
            r == self.spec_width(),
    {
        self.width
    }

    pub fn height(&self) -> (r: u32)
        ensures
            r == self.spec_height(),
    {
        self.height
    }

    /// Relies on image::load_from_memory: whether a byte sequence decodes,
    /// and the dimensions it decodes to, are functions of the bytes alone.
    #[verifier::external_body]
    fn decode_raw(bytes: &Vec<u8>) -> (r: Result<RasterImage, image::ImageError>)
        ensures
            r is Ok <==> decoded_dims(bytes@) is Some,
            r matches Ok(img) ==> decoded_dims(bytes@) == Some(
                (img.spec_width() as nat, img.spec_height() as nat),
            ),
    {
        match image::load_from_memory(bytes.as_slice()) {
            Ok(img) => {
                let width = img.width();
                let height = img.height();
                Ok(RasterImage { img, width, height })
            },
            Err(e) => Err(e),
        }
    }

    /// Relies on image::DynamicImage::resize_exact: the result has exactly
    /// the dimensions given, without preserving the aspect ratio.
    #[verifier::external_body]
    fn resize_exact_raw(&self, w: u32, h: u32) -> (r: RasterImage)
        ensures
            r.spec_width() == w,
            r.spec_height() == h,
    {
        let img = self.img.resize_exact(w, h, image::imageops::FilterType::Lanczos3);
        RasterImage { img, width: w, height: h }
    }

    /// Relies on image::DynamicImage::crop_imm: a cut-out whose rectangle
    /// lies inside the image has exactly the dimensions of the rectangle.
    #[verifier::external_body]
    fn crop_raw(&self, x: u32, y: u32, w: u32, h: u32) -> (r: RasterImage)
        requires
            x + w <= self.spec_width(),
            y + h <= self.spec_height(),
        ensures
            r.spec_width() == w,
            r.spec_height() == h,
    {
        let img = self.img.crop_imm(x, y, w, h);
        RasterImage { img, width: w, height: h }
    }

    /// Relies on image::DynamicImage::write_to with the JPEG format: the
    /// encoder converts any color type to one it supports (keeping the
    /// dimensions), its only failure is a dimension outside 1..=65535 on
    /// either axis, and the in-memory writer cannot fail; so within those
    /// limits it succeeds. The frame header it writes carries the raster's
    /// own dimensions, so whatever the emitted bytes decode to has exactly
    /// those dimensions.
    #[verifier::external_body]
    fn encode_raw(&self) -> (r: Result<Vec<u8>, image::ImageError>)
        ensures
            1 <= self.spec_width() <= 65535 && 1 <= self.spec_height() <= 65535 ==> r is Ok,
            r matches Ok(bytes) ==> (decoded_dims(bytes@) matches Some(d) ==> d == (
                self.spec_width() as nat,
                self.spec_height() as nat,
            )),
    {
        let mut buf: Vec<u8> = Vec::new();
        let mut cursor = std::io::Cursor::new(&mut buf);
        match self.img.write_to(&mut cursor, image::ImageFormat::Jpeg) {
            Ok(()) => Ok(buf),
            Err(e) => Err(e),
        }
    }

    /// Decodes fetched bytes into a raster. Bytes that do not decode, and
    /// the degenerate case of a raster with a zero-pixel axis, are both
    /// reported as a decode failure.
    pub fn decode(bytes: &Vec<u8>) -> (r: Result<RasterImage, Error>)
        ensures
            r is Ok <==> (decoded_dims(bytes@) matches Some(d) && d.0 >= 1 && d.1 >= 1),
            r matches Ok(img) ==> img.wf() && decoded_dims(bytes@) == Some(
                (img.spec_width() as nat, img.spec_height() as nat),
            ),
            r matches Err(e) ==> e == Error::Decode,
    {
        match Self::decode_raw(bytes) {
            Ok(img) => {
                if img.width >= 1 && img.height >= 1 {
                    Ok(img)
                } else {
                    Err(Error::Decode)
                }
            },
            Err(_) => Err(Error::Decode),
        }
    }

    /// Scales the image uniformly so the whole of it lies inside the box
    /// given by the targets; an absent target defaults to the source's size
    /// on that axis, so that a call with neither target is the identity on
    /// the dimensions.
    pub fn fit(self, height: Option<u32>, width: Option<u32>) -> (r: RasterImage)
        requires
            self.wf(),
            height matches Some(h) ==> h >= 1,
            width matches Some(w) ==> w >= 1,
        ensures
            r.wf(),
            r.spec_width() as int == fit_dims(
                self.spec_width() as int,
                self.spec_height() as int,
                effective_target(width, self.spec_width()),
                effective_target(height, self.spec_height()),
            ).0,
            r.spec_height() as int == fit_dims(
                self.spec_width() as int,
                self.spec_height() as int,
                effective_target(width, self.spec_width()),
                effective_target(height, self.spec_height()),
            ).1,
            height is None && width is None ==> r.spec_width() == self.spec_width()
                && r.spec_height() == self.spec_height(),
    {
        proof {
            if height is None && width is None {
                crate::geometry::lemma_fit_identity(
                    self.spec_width() as int,
                    self.spec_height() as int,
                );
            }
        }
        let th = match height {
            Some(h) => h,
            None => self.height,
        };
        let tw = match width {
            Some(w) => w,
            None => self.width,
        };
        let (nw, nh) = compute_fit_dims(self.width, self.height, tw, th);
        self.resize_exact_raw(nw, nh)
    }

    /// Scales the image uniformly so it covers the box given by the targets,
    /// then center-crops to exactly the box; absent targets default as in
    /// `fit`. Where the covering scale would push the overshooting axis past
    /// what a `u32` holds, the transform reports an internal error rather
    /// than crop outside the scaled raster.
    pub fn fill(self, height: Option<u32>, width: Option<u32>) -> (r: Result<RasterImage, Error>)
        requires
            self.wf(),
            height matches Some(h) ==> h >= 1,
            width matches Some(w) ==> w >= 1,
        ensures
            r is Ok <==> fill_scaled_dims(
                self.spec_width() as int,
                self.spec_height() as int,
                effective_target(width, self.spec_width()),
                effective_target(height, self.spec_height()),
            ).0 <= u32::MAX && fill_scaled_dims(
                self.spec_width() as int,
                self.spec_height() as int,
                effective_target(width, self.spec_width()),
                effective_target(height, self.spec_height()),
            ).1 <= u32::MAX,
            r matches Ok(img) ==> img.wf() && img.spec_width() as int == effective_target(
                width,
                self.spec_width(),
            ) && img.spec_height() as int == effective_target(height, self.spec_height()),
            r matches Err(e) ==> e == Error::Internal,
    {
        let th = match height {
            Some(h) => h,
            None => self.height,
        };
        let tw = match width {
            Some(w) => w,
            None => self.width,
        };
        match compute_fill_scaled(self.width, self.height, tw, th) {
            Some((scaled_w, scaled_h)) => {
                let x0 = compute_crop_origin(scaled_w, tw);
                let y0 = compute_crop_origin(scaled_h, th);
                let scaled = self.resize_exact_raw(scaled_w, scaled_h);
                Ok(scaled.crop_raw(x0, y0, tw, th))
            },
            None => Err(Error::Internal),
        }
    }

    /// Encodes the raster as JPEG bytes. Encoding succeeds for every raster
    /// within the format's dimension limits; a failure outside them is a
    /// defect of this pipeline, not a user error. Whatever the emitted bytes
    /// decode to has exactly the raster's dimensions.
    pub fn encode_jpeg(self) -> (r: Result<ResizedOutput, Error>)
        ensures
            r matches Ok(o) ==> o.width == self.spec_width() && o.height == self.spec_height(),
            r matches Err(e) ==> e == Error::Internal,
            1 <= self.spec_width() <= 65535 && 1 <= self.spec_height() <= 65535 ==> r is Ok,
            r matches Ok(o) ==> (decoded_dims(o.bytes@) matches Some(d) ==> d == (
                o.width as nat,
                o.height as nat,
            )),
    {
        let width = self.width;
        let height = self.height;
        match self.encode_raw() {
            Ok(bytes) => Ok(ResizedOutput { bytes, width, height }),
            Err(_) => Err(Error::Internal),
        }
    }
}

} // verus!
