//! Decoding of image files into RGBA pixels, with Exif orientation applied,
//! and resizing of decoded images into thumbnails.
use vstd::prelude::*;
use fast_image_resize::images::Image;
use fast_image_resize::{PixelType, ResizeOptions, Resizer};

verus! {

/// A decoded image as rows of RGBA bytes, four per pixel.
pub struct DecodedImage {
    pub width: u32,
    pub height: u32,
    pub bytes_size: usize,
    pub pixels: Vec<u8>,
}

/// How an Exif orientation tag says the stored pixels must be turned to be
/// shown upright.
#[derive(Clone, Copy, Debug, PartialEq, Eq, Structural)]
pub enum Orientation {
    Upright,
    FlipHorizontal,
    Rotate180,
    FlipVertical,
    Rotate90ThenFlipHorizontal,
    Rotate90,
    Rotate270ThenFlipHorizontal,
    Rotate270,
}

/// The turn for an Exif orientation value: 2 to 8 name the seven turns, any
/// other value means upright.
pub open spec fn spec_orientation_from_exif(value: u32) -> Orientation {
    if value == 2 {
        Orientation::FlipHorizontal
    } else if value == 3 {
        Orientation::Rotate180
    } else if value == 4 {
        Orientation::FlipVertical
    } else if value == 5 {
        Orientation::Rotate90ThenFlipHorizontal
    } else if value == 6 {
        Orientation::Rotate90
    } else if value == 7 {
        Orientation::Rotate270ThenFlipHorizontal
    } else if value == 8 {
        Orientation::Rotate270
    } else {
        Orientation::Upright
    }
}

/// What the orientation tag of a file's primary image holds, read as an
/// unsigned integer, when the file has Exif data with such a tag.
pub uninterp spec fn exif_orientation_tag(file_bytes: Seq<u8>) -> Option<u32>;

/// Whether `image::load_from_memory` decodes these bytes.
pub uninterp spec fn image_decodes(file_bytes: Seq<u8>) -> bool;

/// What `image::load_from_memory` followed by `DynamicImage::to_rgba8` gives
/// for these bytes: width, height and the raw RGBA buffer.
pub uninterp spec fn decoded_rgba(file_bytes: Seq<u8>) -> (u32, u32, Seq<u8>);

/// The text of the error `image::load_from_memory` gives for these bytes.
pub uninterp spec fn decode_error_text(file_bytes: Seq<u8>) -> Seq<char>;

/// What `DynamicImage::thumbnail(max_dim, max_dim)` followed by
/// `DynamicImage::to_rgba8` gives for the RGBA image `w` x `h` held in `px`:
/// width, height and the raw RGBA buffer.
pub uninterp spec fn rgba_thumbnail(w: u32, h: u32, px: Seq<u8>, max_dim: u32) -> (u32, u32, Seq<u8>);

/// What fast_image_resize's `Resizer::resize` with the default options
/// (Lanczos3 convolution, alpha multiplied in and out) writes for the RGBA
/// image `src_w` x `src_h` held in `px`, resized to `dst_w` x `dst_h`.
pub uninterp spec fn resized_rgba(src_w: u32, src_h: u32, px: Seq<u8>, dst_w: u32, dst_h: u32) -> Seq<u8>;

/// The message for bytes that do not decode.
pub open spec fn decode_failure_message(file_bytes: Seq<u8>) -> Seq<char> {
    "Failed to decode image: "@ + decode_error_text(file_bytes)
}

/// The upright RGBA image of a file that decodes: the decoded image turned
/// as its Exif orientation says.
pub open spec fn upright_decoded(file_bytes: Seq<u8>) -> (u32, u32, Seq<u8>) {
    upright_rgba(
        decoded_rgba(file_bytes).0,
        decoded_rgba(file_bytes).1,
        decoded_rgba(file_bytes).2,
        spec_orientation_from_exif(spec_exif_orientation(file_bytes)),
    )
}

/// The RGBA bytes of an `out_w` x `out_h` image whose pixel at column `x`,
/// row `y` is the pixel `src(x, y)` of the `w`-wide RGBA image `px`.
pub open spec fn remapped(
    w: int,
    px: Seq<u8>,
    out_w: int,
    out_h: int,
    src: spec_fn(int, int) -> (int, int),
) -> Seq<u8> {
    Seq::new(
        (out_w * out_h * 4) as nat,
        |i: int|
            {
                let p = i / 4;
                let (sx, sy) = src(p % out_w, p / out_w);
                px[(sy * w + sx) * 4 + i % 4]
            },
    )
}

/// A `w` x `h` RGBA image mirrored left to right.
pub open spec fn flipped_horizontally(w: int, h: int, px: Seq<u8>) -> Seq<u8> {
    remapped(w, px, w, h, |x: int, y: int| (w - 1 - x, y))
}

/// A `w` x `h` RGBA image mirrored top to bottom.
pub open spec fn flipped_vertically(w: int, h: int, px: Seq<u8>) -> Seq<u8> {
    remapped(w, px, w, h, |x: int, y: int| (x, h - 1 - y))
}

/// A `w` x `h` RGBA image turned half a turn.
pub open spec fn rotated_half(w: int, h: int, px: Seq<u8>) -> Seq<u8> {
    remapped(w, px, w, h, |x: int, y: int| (w - 1 - x, h - 1 - y))
}

/// A `w` x `h` RGBA image turned a quarter turn clockwise; it is `h` wide
/// and `w` high.
pub open spec fn rotated_clockwise(w: int, h: int, px: Seq<u8>) -> Seq<u8> {
    remapped(w, px, h, w, |x: int, y: int| (y, h - 1 - x))
}

/// A `w` x `h` RGBA image turned three quarters clockwise; it is `h` wide
/// and `w` high.
pub open spec fn rotated_counterclockwise(w: int, h: int, px: Seq<u8>) -> Seq<u8> {
    remapped(w, px, h, w, |x: int, y: int| (w - 1 - y, x))
}

/// A `w` x `h` RGBA image turned upright as `o` says: its width, height and bytes.
pub open spec fn upright_rgba(w: u32, h: u32, px: Seq<u8>, o: Orientation) -> (u32, u32, Seq<u8>) {
    match o {
        Orientation::Upright => (w, h, px),
        Orientation::FlipHorizontal => (w, h, flipped_horizontally(w as int, h as int, px)),
        Orientation::Rotate180 => (w, h, rotated_half(w as int, h as int, px)),
        Orientation::FlipVertical => (w, h, flipped_vertically(w as int, h as int, px)),
        Orientation::Rotate90ThenFlipHorizontal => (
            h,
            w,
            flipped_horizontally(h as int, w as int, rotated_clockwise(w as int, h as int, px)),
        ),
        Orientation::Rotate90 => (h, w, rotated_clockwise(w as int, h as int, px)),
        Orientation::Rotate270ThenFlipHorizontal => (
            h,
            w,
            flipped_horizontally(h as int, w as int, rotated_counterclockwise(w as int, h as int, px)),
        ),
        Orientation::Rotate270 => (h, w, rotated_counterclockwise(w as int, h as int, px)),
    }
}

/// The orientation value of a file: the orientation tag of its primary image,
/// or 1 (upright) when the file has no readable orientation tag.
pub open spec fn spec_exif_orientation(file_bytes: Seq<u8>) -> u32 {
    match exif_orientation_tag(file_bytes) {
        Some(v) => v,
        None => 1,
    }
}

/// Reads the orientation tag with kamadak-exif: `Reader::read_from_container`
/// over the bytes, then `Exif::get_field(Tag::Orientation, In::PRIMARY)` and
/// `Value::get_uint(0)`.
///
/// Claimed of it: the answer is a function of the bytes alone, named
/// `exif_orientation_tag`. Nothing is claimed about which files have a tag.
#[verifier::external_body]
fn exif_orientation_value(file_bytes: &[u8]) -> (r: Option<u32>)
    ensures
        r == exif_orientation_tag(file_bytes@),
{
    let mut cursor = std::io::Cursor::new(file_bytes);
    if let Ok(exif_data) = exif::Reader::new().read_from_container(&mut cursor) {
        if let Some(field) = exif_data.get_field(exif::Tag::Orientation, exif::In::PRIMARY) {
            return field.value.get_uint(0);
        }
    }
    None
}

/// Calls `image::load_from_memory` and converts the image with
/// `DynamicImage::to_rgba8`, taking width, height and raw buffer.
///
/// Claimed of it: it succeeds when `load_from_memory` does (named
/// `image_decodes`); the image and the error text are functions of the bytes
/// alone, named `decoded_rgba` and `decode_error_text`; and the buffer holds
/// exactly four bytes per pixel: the decoders fill a buffer of the image's
/// size, and `to_rgba8` keeps it or converts into a new one of that size.
#[verifier::external_body]
fn load_rgba(file_bytes: &[u8]) -> (r: Result<(u32, u32, Vec<u8>), String>)
    ensures
        r is Ok == image_decodes(file_bytes@),
        r matches Ok(p) ==> (p.0, p.1, p.2@) == decoded_rgba(file_bytes@) && p.2@.len() == p.0
            * p.1 * 4,
        r matches Err(e) ==> e@ == decode_error_text(file_bytes@),
{
    match image::load_from_memory(file_bytes) {
        Ok(img) => {
            let rgba = img.to_rgba8();
            Ok((rgba.width(), rgba.height(), rgba.into_raw()))
        },
        Err(e) => Err(e.to_string()),
    }
}

/// Calls `image::imageops::flip_horizontal` on the RGBA image `w` x `h` held in
/// `px`. Claimed of it, as its loop shows: the new buffer is `w` x `h` and
/// pixel (x, y) comes from (w - 1 - x, y).
#[verifier::external_body]
fn rgba_flip_horizontal(w: u32, h: u32, px: Vec<u8>) -> (r: Vec<u8>)
    requires
        px@.len() >= w * h * 4,
    ensures
        r@ == flipped_horizontally(w as int, h as int, px@),
{
    let img = image::RgbaImage::from_raw(w, h, px).unwrap();
    image::imageops::flip_horizontal(&img).into_raw()
}

/// Calls `image::imageops::flip_vertical` on the RGBA image `w` x `h` held in
/// `px`. Claimed of it, as its loop shows: the new buffer is `w` x `h` and
/// pixel (x, y) comes from (x, h - 1 - y).
#[verifier::external_body]
fn rgba_flip_vertical(w: u32, h: u32, px: Vec<u8>) -> (r: Vec<u8>)
    requires
        px@.len() >= w * h * 4,
    ensures
        r@ == flipped_vertically(w as int, h as int, px@),
{
    let img = image::RgbaImage::from_raw(w, h, px).unwrap();
    image::imageops::flip_vertical(&img).into_raw()
}

/// Calls `image::imageops::rotate180` on the RGBA image `w` x `h` held in
/// `px`. Claimed of it, as its loop shows: the new buffer is `w` x `h` and
/// pixel (x, y) comes from (w - 1 - x, h - 1 - y).
#[verifier::external_body]
fn rgba_rotate180(w: u32, h: u32, px: Vec<u8>) -> (r: Vec<u8>)
    requires
        px@.len() >= w * h * 4,
    ensures
        r@ == rotated_half(w as int, h as int, px@),
{
    let img = image::RgbaImage::from_raw(w, h, px).unwrap();
    image::imageops::rotate180(&img).into_raw()
}

/// Calls `image::imageops::rotate90` on the RGBA image `w` x `h` held in
/// `px`. Claimed of it, as its loop shows: the new buffer is `h` x `w` and
/// its pixel (x, y) comes from (y, h - 1 - x).
#[verifier::external_body]
fn rgba_rotate90(w: u32, h: u32, px: Vec<u8>) -> (r: Vec<u8>)
    requires
        px@.len() >= w * h * 4,
    ensures
        r@ == rotated_clockwise(w as int, h as int, px@),
{
    let img = image::RgbaImage::from_raw(w, h, px).unwrap();
    image::imageops::rotate90(&img).into_raw()
}

/// Calls `image::imageops::rotate270` on the RGBA image `w` x `h` held in
/// `px`. Claimed of it, as its loop shows: the new buffer is `h` x `w` and
/// its pixel (x, y) comes from (w - 1 - y, x).
#[verifier::external_body]
fn rgba_rotate270(w: u32, h: u32, px: Vec<u8>) -> (r: Vec<u8>)
    requires
        px@.len() >= w * h * 4,
    ensures
        r@ == rotated_counterclockwise(w as int, h as int, px@),
{
    let img = image::RgbaImage::from_raw(w, h, px).unwrap();
    image::imageops::rotate270(&img).into_raw()
}

/// Calls `DynamicImage::thumbnail(max_dim, max_dim)` on the RGBA image `w` x
/// `h` held in `px`, which scales it to the largest size that fits in a
/// `max_dim` square keeping its aspect ratio, and converts the result with
/// `DynamicImage::to_rgba8`, taking width, height and raw buffer.
///
/// Claimed of it: the result is a function of the arguments alone, named
/// `rgba_thumbnail`; the buffer holds exactly four bytes per pixel, since
/// `imageops::thumbnail` allocates it with `ImageBuffer::new`; and for a
/// positive `max_dim` each side is between 1 and `max_dim`, since
/// `resize_dimensions` rounds the scaled sides, the larger of which is
/// `max_dim`, and keeps each at least 1.
#[verifier::external_body]
fn thumbnail_rgba(w: u32, h: u32, px: Vec<u8>, max_dim: u32) -> (r: (u32, u32, Vec<u8>))
    requires
        px@.len() >= w * h * 4,
    ensures
        (r.0, r.1, r.2@) == rgba_thumbnail(w, h, px@, max_dim),
        r.2@.len() == r.0 * r.1 * 4,
        max_dim > 0 ==> 1 <= r.0 <= max_dim && 1 <= r.1 <= max_dim,
{
    let img = image::DynamicImage::ImageRgba8(image::RgbaImage::from_raw(w, h, px).unwrap());
    let rgba = img.thumbnail(max_dim, max_dim).to_rgba8();
    (rgba.width(), rgba.height(), rgba.into_raw())
}

/// Resizes RGBA pixels with fast_image_resize: `Image::from_vec_u8` for the
/// source, `Image::new` for the destination, and `Resizer::resize` with the
/// default options.
///
/// Claimed of it: it succeeds when the source buffer holds four bytes per
/// pixel, since a short buffer (`Image::from_vec_u8`) and different pixel
/// types (`Resizer::resize`) are its only errors, and both images here are
/// RGBA; on success the result is the destination buffer, which `Image::new`
/// allocates with exactly four bytes per pixel, and its bytes are a function
/// of the arguments alone, named `resized_rgba` (the crate's own tests expect
/// the same result from every CPU extension).
#[verifier::external_body]
fn resize_rgba(src_w: u32, src_h: u32, src_pixels: &Vec<u8>, dst_w: u32, dst_h: u32) -> (r: Result<
    Vec<u8>,
    String,
>)
    requires
        src_w * src_h * 4 <= usize::MAX,
        dst_w * dst_h * 4 <= usize::MAX,
    ensures
        src_pixels@.len() >= src_w * src_h * 4 ==> r is Ok,
        r matches Ok(p) ==> p@.len() == dst_w * dst_h * 4 && p@ == resized_rgba(
            src_w,
            src_h,
            src_pixels@,
            dst_w,
            dst_h,
        ),
{
    let src = match Image::from_vec_u8(src_w, src_h, src_pixels.clone(), PixelType::U8x4) {
        Ok(img) => img,
        Err(e) => return Err(format!("fast_image_resize src error: {:?}", e)),
    };
    let mut dst = Image::new(dst_w, dst_h, PixelType::U8x4);
    match Resizer::new().resize(&src, &mut dst, &ResizeOptions::new()) {
        Ok(()) => Ok(dst.into_vec()),
        Err(e) => Err(format!("Resize error: {:?}", e)),
    }
}

/// The Exif orientation value of a file: the orientation tag of its primary
/// image when it has one, else 1.
pub fn read_exif_orientation(file_bytes: &[u8]) -> (v: u32)
    ensures
        v == spec_exif_orientation(file_bytes@),
{
    match exif_orientation_value(file_bytes) {
        Some(v) => v,
        None => 1,
    }
}

/// The turn for an Exif orientation value.
pub fn orientation_from_exif(value: u32) -> (o: Orientation)
    ensures
        o == spec_orientation_from_exif(value),
{
    match value {
        2 => Orientation::FlipHorizontal,
        3 => Orientation::Rotate180,
        4 => Orientation::FlipVertical,
        5 => Orientation::Rotate90ThenFlipHorizontal,
        6 => Orientation::Rotate90,
        7 => Orientation::Rotate270ThenFlipHorizontal,
        8 => Orientation::Rotate270,
        _ => Orientation::Upright,
    }
}

/// Packs RGBA parts into a decoded image.
fn decoded_from_parts(parts: (u32, u32, Vec<u8>)) -> (d: DecodedImage)
    requires
        parts.2@.len() >= parts.0 * parts.1 * 4,
    ensures
        d.width == parts.0,
        d.height == parts.1,
        d.pixels@ == parts.2@,
        d.bytes_size == d.pixels@.len(),
{
    let (width, height, pixels) = parts;
    let bytes_size = pixels.len();
    DecodedImage { width, height, bytes_size, pixels }
}

/// Turns the RGBA image `w` x `h` held in `px` upright as `o` says.
pub fn upright_pixels(w: u32, h: u32, px: Vec<u8>, o: Orientation) -> (r: (u32, u32, Vec<u8>))
    requires
        px@.len() >= w * h * 4,
    ensures
        (r.0, r.1, r.2@) == upright_rgba(w, h, px@, o),
        r.2@.len() >= r.0 * r.1 * 4,
        px@.len() == w * h * 4 ==> r.2@.len() == r.0 * r.1 * 4,
{
    proof {
        assert(h * w * 4 == w * h * 4) by (nonlinear_arith);
    }
    match o {
        Orientation::Upright => (w, h, px),
        Orientation::FlipHorizontal => (w, h, rgba_flip_horizontal(w, h, px)),
        Orientation::Rotate180 => (w, h, rgba_rotate180(w, h, px)),
        Orientation::FlipVertical => (w, h, rgba_flip_vertical(w, h, px)),
        Orientation::Rotate90ThenFlipHorizontal => (h, w, rgba_flip_horizontal(h, w, rgba_rotate90(w, h, px))),
        Orientation::Rotate90 => (h, w, rgba_rotate90(w, h, px)),
        Orientation::Rotate270ThenFlipHorizontal => (h, w, rgba_flip_horizontal(h, w, rgba_rotate270(w, h, px))),
        Orientation::Rotate270 => (h, w, rgba_rotate270(w, h, px)),
    }
}

/// Decodes the bytes of an image file into upright RGBA pixels, four bytes
/// per pixel. It succeeds exactly when the image crate decodes the bytes; the
/// decoded RGBA image is then turned as the file's Exif orientation says.
/// Bytes that do not decode give "Failed to decode image: " and the image
/// crate's error.
pub fn decode_full_image(file_bytes: &[u8]) -> (r: Result<DecodedImage, String>)
    ensures
        r is Ok == image_decodes(file_bytes@),
        r matches Ok(d) ==> (d.width, d.height, d.pixels@) == upright_decoded(file_bytes@)
            && d.bytes_size == d.pixels@.len() && d.pixels@.len() == d.width * d.height * 4,
        r matches Err(m) ==> m@ == decode_failure_message(file_bytes@),
{
    let orientation = read_exif_orientation(file_bytes);
    let (w, h, px) = match load_rgba(file_bytes) {
        Ok(parts) => parts,
        Err(e) => return Err(String::from_str("Failed to decode image: ").concat(e.as_str())),
    };
    let (width, height, pixels) = upright_pixels(w, h, px, orientation_from_exif(orientation));
    let bytes_size = pixels.len();
    Ok(DecodedImage { width, height, bytes_size, pixels })
}

/// Decodes the bytes of an image file into an upright RGBA thumbnail that fits
/// in a `max_dim` square, four bytes per pixel. It succeeds exactly when the
/// image crate decodes the bytes; the Exif orientation is applied before
/// scaling. Bytes that do not decode give "Failed to decode image: " and the
/// image crate's error.
pub fn decode_thumbnail(file_bytes: &[u8], max_dim: u32) -> (r: Result<DecodedImage, String>)
    ensures
        r is Ok == image_decodes(file_bytes@),
        r matches Ok(d) ==> (d.width, d.height, d.pixels@) == rgba_thumbnail(
            upright_decoded(file_bytes@).0,
            upright_decoded(file_bytes@).1,
            upright_decoded(file_bytes@).2,
            max_dim,
        ) && d.bytes_size == d.pixels@.len() && d.pixels@.len() == d.width * d.height * 4 && (
        max_dim > 0 ==> 1 <= d.width <= max_dim && 1 <= d.height <= max_dim),
        r matches Err(m) ==> m@ == decode_failure_message(file_bytes@),
{
    let orientation = read_exif_orientation(file_bytes);
    let (w, h, px) = match load_rgba(file_bytes) {
        Ok(parts) => parts,
        Err(e) => return Err(String::from_str("Failed to decode image: ").concat(e.as_str())),
    };
    let (uw, uh, upx) = upright_pixels(w, h, px, orientation_from_exif(orientation));
    Ok(decoded_from_parts(thumbnail_rgba(uw, uh, upx, max_dim)))
}

/// The message for an image without pixels.
pub open spec fn zero_dimension_message() -> Seq<char> {
    "Zero dimension image"@
}

/// A thumbnail of a decoded image at the size `dst_w` x `dst_h`: an image
/// with a zero side is refused; at its own size the image is copied; otherwise
/// it is resized to the asked size, which succeeds whenever the image holds
/// four bytes per pixel.
pub fn thumbnail_from_full(full: &DecodedImage, dst_w: u32, dst_h: u32) -> (r: Result<DecodedImage, String>)
    requires
        full.width * full.height * 4 <= usize::MAX,
        dst_w * dst_h * 4 <= usize::MAX,
    ensures
        (full.width == 0 || full.height == 0) ==> (r matches Err(m) && m@ == zero_dimension_message()),
        (full.width != 0 && full.height != 0 && full.pixels@.len() >= full.width * full.height * 4)
            ==> r is Ok,
        (full.width != 0 && full.height != 0 && dst_w == full.width && dst_h == full.height) ==> (
        r matches Ok(d) && d.width == full.width && d.height == full.height && d.pixels@
            == full.pixels@ && d.bytes_size == full.pixels@.len()),
        (full.width != 0 && full.height != 0 && !(dst_w == full.width && dst_h == full.height)) ==> (
        r matches Ok(d) ==> d.width == dst_w && d.height == dst_h && d.pixels@ == resized_rgba(
            full.width,
            full.height,
            full.pixels@,
            dst_w,
            dst_h,
        ) && d.pixels@.len() == dst_w * dst_h * 4 && d.bytes_size == d.pixels@.len()),
{
    if full.width == 0 || full.height == 0 {
        return Err(String::from_str("Zero dimension image"));
    }
    if dst_w == full.width && dst_h == full.height {
        let pixels = full.pixels.clone();
        assert(pixels@ =~= full.pixels@);
        let bytes_size = pixels.len();
        return Ok(DecodedImage { width: full.width, height: full.height, bytes_size, pixels });
    }
    match resize_rgba(full.width, full.height, &full.pixels, dst_w, dst_h) {
        Ok(pixels) => {
            let bytes_size = pixels.len();
            Ok(DecodedImage { width: dst_w, height: dst_h, bytes_size, pixels })
        },
        Err(e) => Err(e),
    }
}

/// Byte `c` (0 red, 1 green, 2 blue, 3 alpha) of the pixel at column `x`,
/// row `y` of a `w`-wide RGBA image.
pub open spec fn pixel_byte(px: Seq<u8>, w: int, x: int, y: int, c: int) -> u8 {
    px[(y * w + x) * 4 + c]
}

/// Where byte `c` of pixel (x, y) sits in a `w` x `h` RGBA buffer, and how the
/// pixel and the byte are found back from that place.
proof fn lemma_pixel_index(w: int, h: int, x: int, y: int, c: int)
    requires
        0 <= x < w,
        0 <= y < h,
        0 <= c < 4,
    ensures
        0 <= (y * w + x) * 4 + c < w * h * 4,
        ((y * w + x) * 4 + c) / 4 == y * w + x,
        ((y * w + x) * 4 + c) % 4 == c,
        (y * w + x) % w == x,
        (y * w + x) / w == y,
{
    assert(0 <= y * w) by (nonlinear_arith)
        requires
            0 <= y,
            0 <= w,
    ;
    assert(y * w + x < h * w) by (nonlinear_arith)
        requires
            0 <= x < w,
            0 <= y < h,
    ;
    assert(h * w * 4 == w * h * 4) by (nonlinear_arith);
    vstd::arithmetic::div_mod::lemma_fundamental_div_mod_converse((y * w + x) * 4 + c, 4, y * w + x, c);
    vstd::arithmetic::div_mod::lemma_fundamental_div_mod_converse(y * w + x, w, y, x);
}

/// Pixel (x, y) of a remapped image is the source pixel `src(x, y)`.
proof fn lemma_remapped_at(
    w: int,
    px: Seq<u8>,
    out_w: int,
    out_h: int,
    src: spec_fn(int, int) -> (int, int),
    x: int,
    y: int,
    c: int,
)
    requires
        0 <= x < out_w,
        0 <= y < out_h,
        0 <= c < 4,
    ensures
        remapped(w, px, out_w, out_h, src).len() == out_w * out_h * 4,
        pixel_byte(remapped(w, px, out_w, out_h, src), out_w, x, y, c) == pixel_byte(
            px,
            w,
            src(x, y).0,
            src(x, y).1,
            c,
        ),
{
    lemma_pixel_index(out_w, out_h, x, y, c);
    assert(out_w * out_h * 4 >= 0) by (nonlinear_arith)
        requires
            0 <= x < out_w,
            0 <= y < out_h,
    ;
}

/// How a file's Exif orientation value turns the stored image `w` x `h` into
/// the upright one, pixel by pixel: 2 mirrors it left to right, 3 turns it
/// half a turn, 4 mirrors it top to bottom, 5 transposes it, 6 turns it a
/// quarter clockwise, 7 transposes it across the other diagonal, 8 turns it a
/// quarter counterclockwise, and any other value leaves it as stored.
pub proof fn lemma_exif_orientation_turns(value: u32, w: u32, h: u32, px: Seq<u8>)
    ensures
        ({
            let r = upright_rgba(w, h, px, spec_orientation_from_exif(value));
            &&& (value < 2 || value > 8) ==> r == (w, h, px)
            &&& value == 2 ==> (r.0 == w && r.1 == h && r.2.len() == w * h * 4 && forall|x: int, y: int, c: int| 0 <= x < w && 0 <= y < h && 0 <= c < 4 ==> #[trigger] pixel_byte(r.2, w as int, x, y, c) == pixel_byte(px, w as int, w - 1 - x, y, c))
            &&& value == 3 ==> (r.0 == w && r.1 == h && r.2.len() == w * h * 4 && forall|x: int, y: int, c: int| 0 <= x < w && 0 <= y < h && 0 <= c < 4 ==> #[trigger] pixel_byte(r.2, w as int, x, y, c) == pixel_byte(px, w as int, w - 1 - x, h - 1 - y, c))
            &&& value == 4 ==> (r.0 == w && r.1 == h && r.2.len() == w * h * 4 && forall|x: int, y: int, c: int| 0 <= x < w && 0 <= y < h && 0 <= c < 4 ==> #[trigger] pixel_byte(r.2, w as int, x, y, c) == pixel_byte(px, w as int, x, h - 1 - y, c))
            &&& value == 5 ==> (r.0 == h && r.1 == w && r.2.len() == h * w * 4 && forall|x: int, y: int, c: int| 0 <= x < h && 0 <= y < w && 0 <= c < 4 ==> #[trigger] pixel_byte(r.2, h as int, x, y, c) == pixel_byte(px, w as int, y, x, c))
            &&& value == 6 ==> (r.0 == h && r.1 == w && r.2.len() == h * w * 4 && forall|x: int, y: int, c: int| 0 <= x < h && 0 <= y < w && 0 <= c < 4 ==> #[trigger] pixel_byte(r.2, h as int, x, y, c) == pixel_byte(px, w as int, y, h - 1 - x, c))
            &&& value == 7 ==> (r.0 == h && r.1 == w && r.2.len() == h * w * 4 && forall|x: int, y: int, c: int| 0 <= x < h && 0 <= y < w && 0 <= c < 4 ==> #[trigger] pixel_byte(r.2, h as int, x, y, c) == pixel_byte(px, w as int, w - 1 - y, h - 1 - x, c))
            &&& value == 8 ==> (r.0 == h && r.1 == w && r.2.len() == h * w * 4 && forall|x: int, y: int, c: int| 0 <= x < h && 0 <= y < w && 0 <= c < 4 ==> #[trigger] pixel_byte(r.2, h as int, x, y, c) == pixel_byte(px, w as int, w - 1 - y, x, c))
        }),
{
    let r = upright_rgba(w, h, px, spec_orientation_from_exif(value));
    let wi = w as int;
    let hi = h as int;
    assert(hi * wi * 4 == wi * hi * 4) by (nonlinear_arith);
    if value == 2 {
        assert forall|x: int, y: int, c: int| 0 <= x < wi && 0 <= y < hi && 0 <= c < 4 implies #[trigger] pixel_byte(r.2, wi, x, y, c)
            == pixel_byte(px, wi, wi - 1 - x, y, c) by {
            lemma_remapped_at(wi, px, wi, hi, |a: int, b: int| (wi - 1 - a, b), x, y, c);
        }
    } else if value == 3 {
        assert forall|x: int, y: int, c: int| 0 <= x < wi && 0 <= y < hi && 0 <= c < 4 implies #[trigger] pixel_byte(r.2, wi, x, y, c)
            == pixel_byte(px, wi, wi - 1 - x, hi - 1 - y, c) by {
            lemma_remapped_at(wi, px, wi, hi, |a: int, b: int| (wi - 1 - a, hi - 1 - b), x, y, c);
        }
    } else if value == 4 {
        assert forall|x: int, y: int, c: int| 0 <= x < wi && 0 <= y < hi && 0 <= c < 4 implies #[trigger] pixel_byte(r.2, wi, x, y, c)
            == pixel_byte(px, wi, x, hi - 1 - y, c) by {
            lemma_remapped_at(wi, px, wi, hi, |a: int, b: int| (a, hi - 1 - b), x, y, c);
        }
    } else if value == 5 {
        let rot = rotated_clockwise(wi, hi, px);
        assert forall|x: int, y: int, c: int| 0 <= x < hi && 0 <= y < wi && 0 <= c < 4 implies #[trigger] pixel_byte(r.2, hi, x, y, c)
            == pixel_byte(px, wi, y, x, c) by {
            lemma_remapped_at(hi, rot, hi, wi, |a: int, b: int| (hi - 1 - a, b), x, y, c);
            lemma_remapped_at(wi, px, hi, wi, |a: int, b: int| (b, hi - 1 - a), hi - 1 - x, y, c);
        }
    } else if value == 6 {
        assert forall|x: int, y: int, c: int| 0 <= x < hi && 0 <= y < wi && 0 <= c < 4 implies #[trigger] pixel_byte(r.2, hi, x, y, c)
            == pixel_byte(px, wi, y, hi - 1 - x, c) by {
            lemma_remapped_at(wi, px, hi, wi, |a: int, b: int| (b, hi - 1 - a), x, y, c);
        }
    } else if value == 7 {
        let rot = rotated_counterclockwise(wi, hi, px);
        assert forall|x: int, y: int, c: int| 0 <= x < hi && 0 <= y < wi && 0 <= c < 4 implies #[trigger] pixel_byte(r.2, hi, x, y, c)
            == pixel_byte(px, wi, wi - 1 - y, hi - 1 - x, c) by {
            lemma_remapped_at(hi, rot, hi, wi, |a: int, b: int| (hi - 1 - a, b), x, y, c);
            lemma_remapped_at(wi, px, hi, wi, |a: int, b: int| (wi - 1 - b, a), hi - 1 - x, y, c);
        }
    } else if value == 8 {
        assert forall|x: int, y: int, c: int| 0 <= x < hi && 0 <= y < wi && 0 <= c < 4 implies #[trigger] pixel_byte(r.2, hi, x, y, c)
            == pixel_byte(px, wi, wi - 1 - y, x, c) by {
            lemma_remapped_at(wi, px, hi, wi, |a: int, b: int| (wi - 1 - b, a), x, y, c);
        }
    }
}

/// What `decode_full_image` gives for a file that decodes is the decoded
/// image turned by the file's Exif orientation value, pixel by pixel (see
/// `lemma_exif_orientation_turns`): value 3, for one, gives pixel (x, y) the
/// stored pixel (w - 1 - x, h - 1 - y).
pub proof fn lemma_decoded_image_upright(file_bytes: Seq<u8>)
    ensures
        ({
            let d = decoded_rgba(file_bytes);
            let u = upright_decoded(file_bytes);
            let v = spec_exif_orientation(file_bytes);
            &&& (v < 2 || v > 8) ==> u == d
            &&& v == 2 ==> (u.0 == d.0 && u.1 == d.1 && forall|x: int, y: int, c: int| 0 <= x < d.0 && 0 <= y < d.1 && 0 <= c < 4 ==> #[trigger] pixel_byte(u.2, d.0 as int, x, y, c) == pixel_byte(d.2, d.0 as int, d.0 - 1 - x, y, c))
            &&& v == 3 ==> (u.0 == d.0 && u.1 == d.1 && forall|x: int, y: int, c: int| 0 <= x < d.0 && 0 <= y < d.1 && 0 <= c < 4 ==> #[trigger] pixel_byte(u.2, d.0 as int, x, y, c) == pixel_byte(d.2, d.0 as int, d.0 - 1 - x, d.1 - 1 - y, c))
            &&& v == 4 ==> (u.0 == d.0 && u.1 == d.1 && forall|x: int, y: int, c: int| 0 <= x < d.0 && 0 <= y < d.1 && 0 <= c < 4 ==> #[trigger] pixel_byte(u.2, d.0 as int, x, y, c) == pixel_byte(d.2, d.0 as int, x, d.1 - 1 - y, c))
            &&& v == 5 ==> (u.0 == d.1 && u.1 == d.0 && forall|x: int, y: int, c: int| 0 <= x < d.1 && 0 <= y < d.0 && 0 <= c < 4 ==> #[trigger] pixel_byte(u.2, d.1 as int, x, y, c) == pixel_byte(d.2, d.0 as int, y, x, c))
            &&& v == 6 ==> (u.0 == d.1 && u.1 == d.0 && forall|x: int, y: int, c: int| 0 <= x < d.1 && 0 <= y < d.0 && 0 <= c < 4 ==> #[trigger] pixel_byte(u.2, d.1 as int, x, y, c) == pixel_byte(d.2, d.0 as int, y, d.1 - 1 - x, c))
            &&& v == 7 ==> (u.0 == d.1 && u.1 == d.0 && forall|x: int, y: int, c: int| 0 <= x < d.1 && 0 <= y < d.0 && 0 <= c < 4 ==> #[trigger] pixel_byte(u.2, d.1 as int, x, y, c) == pixel_byte(d.2, d.0 as int, d.0 - 1 - y, d.1 - 1 - x, c))
            &&& v == 8 ==> (u.0 == d.1 && u.1 == d.0 && forall|x: int, y: int, c: int| 0 <= x < d.1 && 0 <= y < d.0 && 0 <= c < 4 ==> #[trigger] pixel_byte(u.2, d.1 as int, x, y, c) == pixel_byte(d.2, d.0 as int, d.0 - 1 - y, x, c))
        }),
{
    let d = decoded_rgba(file_bytes);
    lemma_exif_orientation_turns(spec_exif_orientation(file_bytes), d.0, d.1, d.2);
}

} // verus!
