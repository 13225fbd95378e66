//! Raster images, which the `image` and `webp` crates decode, scale, cut and
//! encode. A raster is carried through the pipeline as it is. What each of
//! these steps gives has a name here, since it depends on what goes into the
//! step alone; of what a raster holds the contracts know its extent only.

use vstd::prelude::*;
use crate::content::{last_dot, Container};
use crate::plan::Rect;

verus! {

/// `image::DynamicImage`, a raster of any of the crate's pixel layouts.
#[verifier::external_type_specification]
#[verifier::external_body]
pub struct ExDynamicImage(image::DynamicImage);

/// `image::ImageError`, the error of the crate's decoders and encoders.
#[verifier::external_type_specification]
#[verifier::external_body]
pub struct ExImageError(image::ImageError);

/// `image::ImageFormat`, the crate's list of file formats.
#[verifier::external_type_specification]
#[verifier::external_body]
pub struct ExImageFormat(image::ImageFormat);

/// `webp::Encoder`, a WebP encoder over the pixels of a borrowed raster.
#[verifier::external_type_specification]
#[verifier::external_body]
pub struct ExWebpEncoder<'a>(webp::Encoder<'a>);

/// `webp::WebPEncodingError`, the error code of libwebp's encoder.
#[verifier::external_type_specification]
#[verifier::external_body]
pub struct ExWebpEncodingError(webp::WebPEncodingError);

/// The width and the height of a raster, in pixels.
pub uninterp spec fn extent(img: image::DynamicImage) -> (u32, u32);

/// The extent that `image::DynamicImage::resize` gives a raster of
/// `width` by `height` pixels when asked to fit it into `nwidth` by
/// `nheight`.
pub uninterp spec fn fitted(width: u32, height: u32, nwidth: u32, nheight: u32) -> (u32, u32);

/// The format that `image::ImageFormat::from_path` reads out of the
/// extension of `path`, if it reads one. Where the extension of a path ends
/// is a matter of the platform's path syntax, so the name stands for the
/// answer on the platform that the crate is built for.
pub uninterp spec fn format_named(path: Seq<char>) -> Option<image::ImageFormat>;

/// The raster that `image::load_from_memory_with_format` decodes `source`
/// into when it reads the bytes as `format`, if it decodes them.
pub uninterp spec fn decoded(source: Seq<u8>, format: image::ImageFormat) -> Option<
    image::DynamicImage,
>;

/// The raster that `image::DynamicImage::resize` makes of `img` for the
/// bounds `nwidth` and `nheight`, with the Lanczos filter of window 3. The
/// filter weighs pixels with `f32::sin`, whose last bit std leaves to the
/// platform: the name stands for the raster that this build computes, and
/// no contract says what a pixel of it is.
pub uninterp spec fn scaled(img: image::DynamicImage, nwidth: u32, nheight: u32) -> image::DynamicImage;

/// The part of `img` that `image::DynamicImage::crop_imm` cuts out for
/// `rect`: the pixels of `img` from the corner of `rect` on, as far as the
/// sides of `rect` and the raster reach.
pub uninterp spec fn cut_out(img: image::DynamicImage, rect: Rect) -> image::DynamicImage;

/// The bytes that `image::DynamicImage::write_to` writes for `img` in
/// `container`, if the encoder takes the raster.
pub uninterp spec fn container_bytes(img: image::DynamicImage, container: Container) -> Option<
    Seq<u8>,
>;

/// The encoder that `webp::Encoder::from_image` makes over the pixels of
/// `img`, if it takes the raster's pixel layout.
pub uninterp spec fn webp_frame(img: image::DynamicImage) -> Option<webp::Encoder<'static>>;

/// The bytes that `webp::Encoder::encode_simple` gives for `encoder` in
/// lossy mode at `quality`, if libwebp takes the raster and the quality.
pub uninterp spec fn webp_bytes(encoder: webp::Encoder<'static>, quality: u8) -> Option<Seq<u8>>;

/// The extent of the part of a raster that lies inside `rect`: the corner is
/// moved onto the raster where it lies outside, and each side ends where the
/// raster ends.
pub open spec fn cropped(size: (u32, u32), rect: Rect) -> (u32, u32) {
    let x = if rect.x <= size.0 {
        rect.x
    } else {
        size.0
    };
    let y = if rect.y <= size.1 {
        rect.y
    } else {
        size.1
    };
    (
        if rect.width <= size.0 - x {
            rect.width
        } else {
            (size.0 - x) as u32
        },
        if rect.height <= size.1 - y {
            rect.height
        } else {
            (size.1 - y) as u32
        },
    )
}

/// The largest side, in pixels, of a raster that the JPEG and the GIF
/// encoder take.
pub const LONGEST_SIDE: u32 = 65535;

/// The highest quality that the WebP encoder takes.
pub const HIGHEST_QUALITY: u8 = 100;

/// The largest side, in pixels, of a raster that the WebP encoder takes.
pub const LONGEST_WEBP_SIDE: u32 = 16383;

/// Whether the WebP encoder takes rasters of extent `size` at all: each side
/// between 1 and 16383 pixels.
pub open spec fn webp_takes(size: (u32, u32)) -> bool {
    1 <= size.0 <= LONGEST_WEBP_SIDE && 1 <= size.1 <= LONGEST_WEBP_SIDE
}

/// Whether the encoder of `container` takes rasters of extent `size` at all:
/// JPEG wants each side between 1 and 65535 pixels, PNG at least one pixel
/// each way, GIF no side above 65535. A raster that passes can still be
/// rejected, for its pixel layout or for want of memory.
pub open spec fn container_takes(container: Container, size: (u32, u32)) -> bool {
    match container {
        Container::Jpeg => 1 <= size.0 <= LONGEST_SIDE && 1 <= size.1 <= LONGEST_SIDE,
        Container::Png => 1 <= size.0 && 1 <= size.1,
        Container::Gif => size.0 <= LONGEST_SIDE && size.1 <= LONGEST_SIDE,
    }
}

/// `image::GenericImageView::dimensions` of a raster: its width and height.
#[verifier::external_body]
pub(crate) fn dimensions(img: &image::DynamicImage) -> (size: (u32, u32))
    ensures
        size == extent(*img),
{
    image::GenericImageView::dimensions(img)
}

/// `image::ImageFormat::from_path`: the format that the extension of a path
/// stands for, or an error where it stands for none. In one build the
/// answer depends on the path alone, and a path without any `.` has no
/// extension, so it gets the error.
#[verifier::external_body]
pub(crate) fn format_of_path(image: &str) -> (format: Result<image::ImageFormat, image::ImageError>)
    ensures
        format is Ok ==> format_named(image@) == Some(format->Ok_0),
        format is Err ==> format_named(image@) is None,
        last_dot(image@) < 0 ==> format is Err,
{
    image::ImageFormat::from_path(image)
}

/// `image::load_from_memory_with_format`: the raster that `source` holds when
/// read as `format`, under the crate's default limits, or the decoder's error.
/// The answer depends on the bytes and the format alone; when the decoder
/// accepts is not claimed.
#[verifier::external_body]
pub(crate) fn decode(source: &[u8], format: image::ImageFormat) -> (img: Result<
    image::DynamicImage,
    image::ImageError,
>)
    ensures
        img is Ok ==> decoded(source@, format) == Some(img->Ok_0),
        img is Err ==> decoded(source@, format) is None,
{
    image::load_from_memory_with_format(source, format)
}

/// Whether a raster of extent `size` is as large as fits into the box
/// `bounds`: it has at least one pixel each way, exceeds neither bound, and
/// reaches one of them.
pub open spec fn fills(size: (u32, u32), bounds: (u32, u32)) -> bool {
    &&& 1 <= size.0 <= bounds.0
    &&& 1 <= size.1 <= bounds.1
    &&& size.0 == bounds.0 || size.1 == bounds.1
}

/// Whether a raster of extent `size` keeps the proportions of one of extent
/// `from` when it is fitted into `bounds`: the side that the box holds
/// tighter has the length of its bound, and the other side is at most one
/// pixel away from the length that the same factor gives it.
pub open spec fn proportioned(from: (u32, u32), size: (u32, u32), bounds: (u32, u32)) -> bool {
    if bounds.0 * from.1 <= bounds.1 * from.0 {
        &&& size.0 == bounds.0
        &&& -from.0 <= size.1 * from.0 - from.1 * bounds.0 <= from.0
    } else {
        &&& size.1 == bounds.1
        &&& -from.1 <= size.0 * from.1 - from.0 * bounds.1 <= from.1
    }
}

/// `image::DynamicImage::resize` with the Lanczos filter of window 3. In one
/// build the result depends on `img` and the bounds alone, and its extent on
/// the extent of `img` and the bounds alone. Bounds of at least 1 hold every
/// result, each side of which is then at least 1 too. Where `img` has a pixel
/// as well, the result is the largest that fits into the bounds and keeps the
/// proportions of `img` to the pixel. A result too large for memory is not
/// accounted for.
#[verifier::external_body]
pub(crate) fn resample(img: &image::DynamicImage, nwidth: u32, nheight: u32) -> (out:
    image::DynamicImage)
    ensures
        out == scaled(*img, nwidth, nheight),
        extent(out) == fitted(extent(*img).0, extent(*img).1, nwidth, nheight),
        nwidth >= 1 && nheight >= 1 ==> 1 <= extent(out).0 <= nwidth && 1 <= extent(out).1
            <= nheight,
        extent(*img).0 >= 1 && extent(*img).1 >= 1 && nwidth >= 1 && nheight >= 1 ==> fills(
            extent(out),
            (nwidth, nheight),
        ) && proportioned(extent(*img), extent(out), (nwidth, nheight)),
{
    img.resize(nwidth, nheight, image::imageops::FilterType::Lanczos3)
}

/// `image::DynamicImage::crop_imm`: the part of `img` inside `rect`, clipped
/// to the raster as `cropped` says. The result depends on `img` and `rect`
/// alone.
#[verifier::external_body]
pub(crate) fn cut(img: &image::DynamicImage, rect: Rect) -> (out: image::DynamicImage)
    ensures
        out == cut_out(*img, rect),
        extent(out) == cropped(extent(*img), rect),
{
    img.crop_imm(rect.x, rect.y, rect.width, rect.height)
}

/// `image::DynamicImage::write_to`, into a buffer in memory: the bytes of
/// `img` in `container`, or the encoder's error. The answer depends on `img`
/// and the container alone, and a raster whose extent the encoder does not
/// take gets the error; that any raster is accepted is not claimed.
#[verifier::external_body]
pub(crate) fn write_container(img: &image::DynamicImage, container: Container) -> (out: Result<
    Vec<u8>,
    image::ImageError,
>)
    ensures
        out is Ok ==> container_bytes(*img, container) == Some(out->Ok_0@),
        out is Err ==> container_bytes(*img, container) is None,
        !container_takes(container, extent(*img)) ==> out is Err,
{
    let format = match container {
        Container::Jpeg => image::ImageFormat::Jpeg,
        Container::Png => image::ImageFormat::Png,
        Container::Gif => image::ImageFormat::Gif,
    };
    let mut buffer = std::io::Cursor::new(Vec::new());
    img.write_to(&mut buffer, format)?;
    Ok(buffer.into_inner())
}

/// `webp::Encoder::from_image`: an encoder over the pixels of `img`, or the
/// crate's message where it does not take the raster's pixel layout. The
/// answer depends on `img` alone.
#[verifier::external_body]
pub(crate) fn webp_encoder<'a>(img: &'a image::DynamicImage) -> (encoder: Result<
    webp::Encoder<'a>,
    &'a str,
>)
    ensures
        encoder is Ok ==> webp_frame(*img) == Some(encoder->Ok_0),
        encoder is Err ==> webp_frame(*img) is None,
{
    webp::Encoder::from_image(img)
}

/// `webp::Encoder::encode_simple`, lossy, at `quality`, for the encoder made
/// over `img`: the WebP bytes, or the error with which libwebp rejected the
/// raster or the quality. It is for rasters of 1 to 16383 pixels each way:
/// the call works out the length of a row in 32 bits, which is sound on
/// those, and libwebp takes no others. The answer depends on the encoder's
/// raster and the quality alone, and a quality above 100 is rejected; that
/// any raster is accepted is not claimed.
#[verifier::external_body]
pub(crate) fn webp_lossy(img: &image::DynamicImage, encoder: &webp::Encoder<'_>, quality: u8) -> (out:
    Result<Vec<u8>, webp::WebPEncodingError>)
    requires
        webp_frame(*img) == Some(*encoder),
        webp_takes(extent(*img)),
    ensures
        out is Ok ==> webp_bytes(*encoder, quality) == Some(out->Ok_0@),
        out is Err ==> webp_bytes(*encoder, quality) is None,
        quality > HIGHEST_QUALITY ==> out is Err,
{
    encoder.encode_simple(false, quality.into()).map(|memory| memory.to_vec())
}

} // verus!
