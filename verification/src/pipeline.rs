//! The pipeline from source bytes to output bytes: decode, scale, cut,
//! encode.

use vstd::prelude::*;
use crate::content::{last_dot, Encoding};
use crate::error::TransformError;
use crate::plan::{plan, plan_for, Plan, Rect};
use crate::raster::{container_bytes, container_takes, cropped, cut, cut_out, decode, decoded};
use crate::raster::{dimensions, extent, fills, fitted, format_named, format_of_path};
use crate::raster::{proportioned, resample, scaled, webp_bytes, webp_encoder, webp_frame};
use crate::raster::{webp_lossy, webp_takes, write_container};
use crate::raster::{HIGHEST_QUALITY, LONGEST_WEBP_SIDE};
use crate::resize::Resize;

verus! {

/// The extent of a raster of extent `size` after the scaling and the cut of
/// `plan`: the cut is taken from the scaled raster.
pub open spec fn shaped(size: (u32, u32), plan: Plan) -> (u32, u32) {
    let scaled = match plan.fit {
        Some(b) => fitted(size.0, size.1, b.0, b.1),
        None => size,
    };
    match plan.crop {
        Some(rect) => cropped(scaled, rect),
        None => scaled,
    }
}

/// Whether a raster of extent `size` lies inside the box `b`.
pub open spec fn within(size: (u32, u32), b: (u32, u32)) -> bool {
    size.0 <= b.0 && size.1 <= b.1
}

/// Whether `rect` lies inside a raster of extent `size`.
pub open spec fn inside(rect: Rect, size: (u32, u32)) -> bool {
    rect.x + rect.width <= size.0 && rect.y + rect.height <= size.1
}

/// A cut that lies inside the raster comes out in exactly the size asked
/// for.
pub proof fn lemma_crop_exact(size: (u32, u32), rect: Rect)
    requires
        inside(rect, size),
    ensures
        cropped(size, rect) == (rect.width, rect.height),
{
}

/// A cut never makes a raster larger.
pub proof fn lemma_crop_shrinks(size: (u32, u32), rect: Rect)
    ensures
        within(cropped(size, rect), size),
{
}

/// Whether the encoder of `encoding` takes rasters of extent `size` at all:
/// WebP wants a quality of at most 100 and each side between 1 and 16383
/// pixels, a container wants what `container_takes` says. A raster that
/// passes can still be rejected, for its pixel layout or for want of memory.
pub open spec fn encoder_takes(encoding: Encoding, size: (u32, u32)) -> bool {
    match encoding {
        Encoding::WebP { quality } => quality <= HIGHEST_QUALITY && webp_takes(size),
        Encoding::Plain(container) => container_takes(container, size),
    }
}

/// The raster that the source of `image` holds: what the decoder of the
/// format that the identifier's extension names makes of the bytes.
/// `SourceUnreadable` where the identifier holds no `.`, its extension names
/// no format, or the decoder does not take the bytes.
pub open spec fn source_raster(source: Seq<u8>, image: Seq<char>) -> Result<
    image::DynamicImage,
    TransformError,
> {
    if last_dot(image) < 0 {
        Err(TransformError::SourceUnreadable)
    } else {
        match format_named(image) {
            Some(format) => match decoded(source, format) {
                Some(img) => Ok(img),
                None => Err(TransformError::SourceUnreadable),
            },
            None => Err(TransformError::SourceUnreadable),
        }
    }
}

/// The raster that `plan` makes of `img`: `img` scaled into the box of the
/// plan, if it has one, and of that the part inside the plan's rectangle, if
/// it has one.
pub open spec fn shaped_raster(img: image::DynamicImage, plan: Plan) -> image::DynamicImage {
    let sized = match plan.fit {
        Some(b) => scaled(img, b.0, b.1),
        None => img,
    };
    match plan.crop {
        Some(rect) => cut_out(sized, rect),
        None => sized,
    }
}

/// The bytes of `img` under `encoding`: from the lossy WebP encoder at the
/// encoding's quality, or from the encoder of its container.
/// `EncodeFailure` where the encoder does not take the extent of the raster
/// or the quality, or rejects the raster for another reason.
pub open spec fn encoded(img: image::DynamicImage, encoding: Encoding) -> Result<
    Seq<u8>,
    TransformError,
> {
    let bytes = match encoding {
        Encoding::WebP { quality } => match webp_frame(img) {
            Some(frame) => webp_bytes(frame, quality),
            None => None,
        },
        Encoding::Plain(container) => container_bytes(img, container),
    };
    if !encoder_takes(encoding, extent(img)) {
        Err(TransformError::EncodeFailure)
    } else {
        match bytes {
            Some(b) => Ok(b),
            None => Err(TransformError::EncodeFailure),
        }
    }
}

/// The output of `plan` for a decoded raster: the raster shaped as the plan
/// says, under the plan's encoding.
pub open spec fn transformed(img: image::DynamicImage, plan: Plan) -> Result<
    Seq<u8>,
    TransformError,
> {
    encoded(shaped_raster(img, plan), plan.encoding)
}

/// The output of the pipeline for the source bytes of `image` under
/// `resize`: the source's raster, shaped and encoded as the plan of the
/// request says. It fails where the source cannot be decoded or the encoder
/// rejects the shaped raster, and nowhere else.
pub open spec fn rendered(source: Seq<u8>, resize: Resize, image: Seq<char>) -> Result<
    Seq<u8>,
    TransformError,
> {
    match source_raster(source, image) {
        Ok(img) => transformed(img, plan_for(resize, image)),
        Err(e) => Err(e),
    }
}

/// The bytes of an output, as a sequence.
pub open spec fn outcome(out: Result<Vec<u8>, TransformError>) -> Result<Seq<u8>, TransformError> {
    match out {
        Ok(bytes) => Ok(bytes@),
        Err(e) => Err(e),
    }
}

/// The box of a plan that scales, and a box without extent for one that does
/// not.
pub open spec fn frame(plan: Plan) -> (u32, u32) {
    match plan.fit {
        Some(b) => b,
        None => (0, 0),
    }
}

/// What is known of the extent of the raster that `plan` makes of `img`.
/// The scaled raster has the extent that `fitted` names, and the cut is
/// taken from it, so the extent of the result is what `shaped` says. A box
/// of at least one pixel each way bounds the result, whatever is cut
/// afterwards, and without a cut no side of the result is empty. Where `img`
/// has a pixel and nothing is cut, the result is the largest that fits into
/// the box and keeps the proportions of `img` to the pixel. A cut that lies
/// inside an unscaled raster has exactly the size asked for.
pub open spec fn well_shaped(img: image::DynamicImage, plan: Plan) -> bool {
    let out = shaped_raster(img, plan);
    let sized = scaled(img, frame(plan).0, frame(plan).1);
    &&& extent(out) == shaped(extent(img), plan)
    &&& plan.fit is Some ==> extent(sized) == fitted(
        extent(img).0,
        extent(img).1,
        frame(plan).0,
        frame(plan).1,
    )
    &&& plan.fit is Some && within((1, 1), frame(plan)) ==> within(extent(out), frame(plan))
    &&& plan.fit is Some && within((1, 1), frame(plan)) && plan.crop is None ==> within(
        (1, 1),
        extent(out),
    )
    &&& plan.fit is Some && within((1, 1), frame(plan)) && within((1, 1), extent(img))
        && plan.crop is None ==> fills(extent(out), frame(plan)) && proportioned(
        extent(img),
        extent(out),
        frame(plan),
    )
    &&& plan.fit is None && plan.crop is Some && inside(plan.crop->0, extent(img)) ==> extent(out)
        == (plan.crop->0.width, plan.crop->0.height)
}

/// What the pipeline makes of the answer of a decoder or an encoder: the
/// value where there is one, and `error` in place of whatever error the
/// decoder or encoder gave.
pub fn settle<T, E>(outcome: Result<T, E>, error: TransformError) -> (settled: Result<
    T,
    TransformError,
>)
    ensures
        outcome is Ok ==> settled is Ok && settled->Ok_0 == outcome->Ok_0,
        outcome is Err ==> settled is Err && settled->Err_0 == error,
{
    match outcome {
        Ok(value) => Ok(value),
        Err(_) => Err(error),
    }
}

/// Decodes the source of `image`, in the format that the identifier's
/// extension names. An identifier without any `.` names no format, so it
/// fails whatever the bytes are.
pub fn decode_source(source: &[u8], image: &str) -> (decoded: Result<
    image::DynamicImage,
    TransformError,
>)
    ensures
        decoded == source_raster(source@, image@),
        last_dot(image@) < 0 ==> decoded is Err,
{
    match settle(format_of_path(image), TransformError::SourceUnreadable) {
        Ok(format) => settle(decode(source, format), TransformError::SourceUnreadable),
        Err(e) => Err(e),
    }
}

/// Scales `img` into the box of the plan, if it has one, then cuts the
/// plan's rectangle out of the result, if it has one.
pub fn shape(img: image::DynamicImage, plan: &Plan) -> (out: image::DynamicImage)
    ensures
        out == shaped_raster(img, *plan),
        well_shaped(img, *plan),
{
    let sized = match plan.fit {
        Some(b) => resample(&img, b.0, b.1),
        None => img,
    };
    match plan.crop {
        Some(rect) => cut(&sized, rect),
        None => sized,
    }
}

/// Encodes `img` as `encoding` says. A raster or a quality that the encoder
/// does not take fails; a raster that the WebP encoder does not take is
/// turned away before the encoder is called.
pub fn encode(img: &image::DynamicImage, encoding: Encoding) -> (out: Result<
    Vec<u8>,
    TransformError,
>)
    ensures
        outcome(out) == encoded(*img, encoding),
        !encoder_takes(encoding, extent(*img)) ==> out is Err,
{
    match encoding {
        Encoding::WebP { quality } => {
            let size = dimensions(img);
            if size.0 < 1 || size.0 > LONGEST_WEBP_SIDE || size.1 < 1 || size.1
                > LONGEST_WEBP_SIDE {
                Err(TransformError::EncodeFailure)
            } else {
                match settle(webp_encoder(img), TransformError::EncodeFailure) {
                    Ok(encoder) => settle(
                        webp_lossy(img, &encoder, quality),
                        TransformError::EncodeFailure,
                    ),
                    Err(e) => Err(e),
                }
            }
        },
        Encoding::Plain(container) => settle(
            write_container(img, container),
            TransformError::EncodeFailure,
        ),
    }
}

/// Shapes a decoded raster as `plan` says and encodes the result. A plan
/// that leaves a raster which its encoder does not take fails, as one does
/// whose cut lies wholly beside the raster and whose output is a JPEG, a
/// PNG or a WebP.
pub fn transform(img: image::DynamicImage, plan: &Plan) -> (out: Result<Vec<u8>, TransformError>)
    ensures
        outcome(out) == transformed(img, *plan),
        well_shaped(img, *plan),
        !encoder_takes(plan.encoding, shaped(extent(img), *plan)) ==> out is Err,
{
    let raster = shape(img, plan);
    encode(&raster, plan.encoding)
}

/// Whether the pipeline is known to fail on the source bytes of `image`
/// under `resize`: the identifier holds no `.`, the request asks for WebP at
/// a quality above 100, the source does not decode, or the plan of the
/// request leaves a raster whose extent the encoder does not take.
pub open spec fn refused(source: Seq<u8>, resize: Resize, image: Seq<char>) -> bool {
    ||| last_dot(image) < 0
    ||| resize.wants_webp() && resize.webp_quality() > HIGHEST_QUALITY
    ||| source_raster(source, image) is Err
    ||| !encoder_takes(
        plan_for(resize, image).encoding,
        shaped(extent(source_raster(source, image)->Ok_0), plan_for(resize, image)),
    )
}

/// Runs the whole pipeline on the source bytes of `image` under `resize`:
/// decodes them, shapes the raster as the request's plan says, and encodes
/// it with the plan's encoder. Where the source decodes, the raster that is
/// encoded has the extent that the plan gives it. An identifier without any
/// `.` fails as `SourceUnreadable`, and every request that `refused`
/// describes fails.
pub fn render(source: &[u8], resize: &Resize, image: &str) -> (out: Result<
    Vec<u8>,
    TransformError,
>)
    ensures
        outcome(out) == rendered(source@, *resize, image@),
        source_raster(source@, image@) is Ok ==> well_shaped(
            source_raster(source@, image@)->Ok_0,
            plan_for(*resize, image@),
        ),
        last_dot(image@) < 0 ==> out is Err && out->Err_0 == TransformError::SourceUnreadable,
        refused(source@, *resize, image@) ==> out is Err,
{
    let steps = plan(resize, image);
    match decode_source(source, image) {
        Ok(decoded) => transform(decoded, &steps),
        Err(e) => Err(e),
    }
}

/// Without WebP the quality of a request does not reach the output: two
/// requests that differ in nothing else give the same bytes, or fail alike.
pub proof fn lemma_quality_leaves_output(source: Seq<u8>, a: Resize, b: Resize, image: Seq<char>)
    requires
        !a.wants_webp(),
        b == (Resize { quality: b.quality, ..a }),
    ensures
        rendered(source, a, image) == rendered(source, b, image),
{
}

/// A request for WebP that names no quality gives what the same request
/// gives at quality 85.
pub proof fn lemma_default_quality(source: Seq<u8>, a: Resize, image: Seq<char>)
    requires
        a.wants_webp(),
        a.quality is None,
    ensures
        rendered(source, a, image) == rendered(source, (Resize { quality: Some(85), ..a }), image),
{
}

} // verus!
