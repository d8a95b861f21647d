//! The resize pipeline: validate the request, validate the host, and — once
//! the caller has performed the fetch that the plan approved — decode, resize
//! and encode. Every step short-circuits on failure and maps it to one error
//! category; no partial result is ever returned.

use crate::allowlist::HostAllowlist;
use crate::errors::Error;
use crate::geometry::{effective_target, fill_scaled_dims, fit_dims};
use crate::raster::{decoded_dims, RasterImage, ResizedOutput};
use crate::urlhost::{opt_str_view, ParsedUrl};
use vstd::prelude::*;

verus! {

/// The two resize policies.
#[derive(Debug, Clone, Copy, PartialEq, Eq, Structural)]
pub enum Mode {
    Fit,
    Fill,
}

/// An inbound request as the routing layer hands it over: a validated
/// absolute URL, and the optional mode and target dimensions.
pub struct ResizeRequest {
    pub url: ParsedUrl,
    pub mode: Option<String>,
    pub height: Option<u32>,
    pub width: Option<u32>,
}

/// The mode a request names: absent defaults to fit; a string other than
/// "fit" and "fill" names none.
pub open spec fn spec_mode(mode: Option<Seq<char>>) -> Option<Mode> {
    match mode {
        None => Some(Mode::Fit),
        Some(m) => if m == "fit"@ {
            Some(Mode::Fit)
        } else if m == "fill"@ {
            Some(Mode::Fill)
        } else {
            None
        },
    }
}

/// Whether an optional target dimension is acceptable: absent, or positive.
pub open spec fn dim_ok(d: Option<u32>) -> bool {
    d matches Some(v) ==> v >= 1
}

/// What planning a request must answer: a recognized mode and positive
/// targets, else the input is invalid; then a host on the allow-list, else
/// the host is forbidden. Only a plan that comes back `Ok` is fetched.
pub open spec fn plan_spec(req: &ResizeRequest, allowed: Set<Seq<char>>) -> Result<Mode, Error> {
    match spec_mode(opt_str_view(req.mode)) {
        None => Err(Error::InvalidInput),
        Some(mode) => if !(dim_ok(req.height) && dim_ok(req.width)) {
            Err(Error::InvalidInput)
        } else {
            match req.url.spec_host() {
                Some(h) => if allowed.contains(h) {
                    Ok(mode)
                } else {
                    Err(Error::ForbiddenHost)
                },
                None => Err(Error::ForbiddenHost),
            }
        },
    }
}

/// Reads the requested mode; anything but "fit" and "fill" is a caller error.
pub fn parse_mode(mode: &Option<String>) -> (r: Result<Mode, Error>)
    ensures
        match spec_mode(opt_str_view(*mode)) {
            Some(m) => r == Ok::<Mode, Error>(m),
            None => r == Err::<Mode, Error>(Error::InvalidInput),
        },
{
    match mode {
        None => Ok(Mode::Fit),
        Some(m) => {
            let fit_name: String = "fit".to_owned();
            let fill_name: String = "fill".to_owned();
            if *m == fit_name {
                Ok(Mode::Fit)
            } else if *m == fill_name {
                Ok(Mode::Fill)
            } else {
                Err(Error::InvalidInput)
            }
        },
    }
}

/// Validates a request up to the point where fetching is justified: the mode
/// and the target dimensions first, then the host against the allow-list.
/// Nothing is fetched for a request this refuses.
pub fn plan_request(req: &ResizeRequest, allow: &HostAllowlist) -> (r: Result<Mode, Error>)
    ensures
        r == plan_spec(req, allow@),
{
    let mode = match parse_mode(&req.mode) {
        Ok(m) => m,
        Err(e) => {
            return Err(e);
        },
    };
    let height_ok = match req.height {
        Some(v) => v >= 1,
        None => true,
    };
    let width_ok = match req.width {
        Some(v) => v >= 1,
        None => true,
    };
    if !(height_ok && width_ok) {
        return Err(Error::InvalidInput);
    }
    if allow.is_allowed(&req.url) {
        Ok(mode)
    } else {
        Err(Error::ForbiddenHost)
    }
}

/// "fit" and "fill" are the only accepted modes: a request naming any other
/// string is refused as invalid input before the host is looked at, so no
/// fetch is ever planned for it, whatever the rest of the request and the
/// allow-list hold.
pub proof fn lemma_unknown_mode_rejected(req: &ResizeRequest, allowed: Set<Seq<char>>)
    requires
        req.mode matches Some(m) && m@ != "fit"@ && m@ != "fill"@,
    ensures
        plan_spec(req, allowed) == Err::<Mode, Error>(Error::InvalidInput),
{
}

/// The dimensions the pipeline owes for a raster of dimensions `d` under
/// `mode` with the given targets: a fit stays inside the box, a fill matches
/// it exactly; absent targets default to the source dimensions.
pub open spec fn expected_dims(
    d: (nat, nat),
    mode: Mode,
    height: Option<u32>,
    width: Option<u32>,
) -> (int, int) {
    let tw = match width {
        Some(w) => w as int,
        None => d.0 as int,
    };
    let th = match height {
        Some(h) => h as int,
        None => d.1 as int,
    };
    if mode == Mode::Fit {
        fit_dims(d.0 as int, d.1 as int, tw, th)
    } else {
        (tw, th)
    }
}

/// Whether a byte sequence decodes to a usable raster: a decodable image
/// with at least one pixel on each axis.
pub open spec fn body_decodes(bytes: Seq<u8>) -> bool {
    decoded_dims(bytes) matches Some(d) && d.0 >= 1 && d.1 >= 1
}

/// Whether resizing a raster of dimensions `d` can be carried out on machine
/// integers: a fit always can; a fill can when the covering scale keeps both
/// axes within a `u32`.
pub open spec fn resize_representable(
    d: (nat, nat),
    mode: Mode,
    height: Option<u32>,
    width: Option<u32>,
) -> bool {
    let tw = match width {
        Some(w) => w as int,
        None => d.0 as int,
    };
    let th = match height {
        Some(h) => h as int,
        None => d.1 as int,
    };
    mode == Mode::Fill ==> fill_scaled_dims(d.0 as int, d.1 as int, tw, th).0 <= u32::MAX
        && fill_scaled_dims(d.0 as int, d.1 as int, tw, th).1 <= u32::MAX
}

/// Dispatches the decoded raster to the policy the plan chose.
pub fn resize_image(img: RasterImage, mode: Mode, height: Option<u32>, width: Option<u32>) -> (r:
    Result<RasterImage, Error>)
    requires
        img.wf(),
        dim_ok(height),
        dim_ok(width),
    ensures
        r matches Ok(out) ==> out.wf() && out.spec_width() as int == expected_dims(
            (img.spec_width() as nat, img.spec_height() as nat),
            mode,
            height,
            width,
        ).0 && out.spec_height() as int == expected_dims(
            (img.spec_width() as nat, img.spec_height() as nat),
            mode,
            height,
            width,
        ).1,
        r matches Err(e) ==> e == Error::Internal && mode == Mode::Fill,
        mode == Mode::Fit ==> r is Ok,
        mode == Mode::Fill ==> (r is Ok <==> fill_scaled_dims(
            img.spec_width() as int,
            img.spec_height() as int,
            effective_target(width, img.spec_width()),
            effective_target(height, img.spec_height()),
        ).0 <= u32::MAX && fill_scaled_dims(
            img.spec_width() as int,
            img.spec_height() as int,
            effective_target(width, img.spec_width()),
            effective_target(height, img.spec_height()),
        ).1 <= u32::MAX),
{
    match mode {
        Mode::Fit => Ok(img.fit(height, width)),
        Mode::Fill => img.fill(height, width),
    }
}

/// Runs the pipeline from a fetched body to the encoded output: decode,
/// resize under the planned mode, encode as JPEG. Either a complete encoded
/// image comes back, with exactly the dimensions the policy owes, or one
/// mapped error; success is owed whenever the body decodes, the resize is
/// representable, and the owed dimensions lie within the JPEG limits.
pub fn process_body(body: &Vec<u8>, mode: Mode, height: Option<u32>, width: Option<u32>) -> (r:
    Result<ResizedOutput, Error>)
    requires
        dim_ok(height),
        dim_ok(width),
    ensures
        r is Err && r->Err_0 == Error::Decode <==> !body_decodes(body@),
        r matches Err(e) ==> e == Error::Decode || e == Error::Internal,
        r matches Ok(out) ==> decoded_dims(body@) matches Some(d) && out.width as int
            == expected_dims(d, mode, height, width).0 && out.height as int == expected_dims(
            d,
            mode,
            height,
            width,
        ).1,
        match decoded_dims(body@) {
            Some(d) => (d.0 >= 1 && d.1 >= 1 && resize_representable(d, mode, height, width) && 1
                <= expected_dims(d, mode, height, width).0 <= 65535 && 1 <= expected_dims(
                d,
                mode,
                height,
                width,
            ).1 <= 65535) ==> r is Ok,
            None => true,
        },
        r matches Ok(out) ==> (decoded_dims(out.bytes@) matches Some(d) ==> d == (
            out.width as nat,
            out.height as nat,
        )),
{
    let img = match RasterImage::decode(body) {
        Ok(img) => img,
        Err(e) => {
            return Err(e);
        },
    };
    let resized = match resize_image(img, mode, height, width) {
        Ok(out) => out,
        Err(e) => {
            return Err(e);
        },
    };
    resized.encode_jpeg()
}

} // verus!
