//! Album art: when a cover is scaled down, to which size and in which
//! format, and when the placeholder takes its place.
//!
//! Recognising, decoding, resampling and encoding are the work of the
//! `image` crate; what is decided here is proved against the names given
//! to its results. The pixels that decoding hands out are taken as they
//! come: nothing here depends on which pixels they are.

use image::ImageFormat;
use vstd::prelude::*;
use crate::mpd::Song;

verus! {

/// The width, in pixels, beyond which a cover is scaled down.
pub const MAX_ART_WIDTH: u32 = 256;

/// A decoded picture: `height` rows of `width` pixels, each pixel four
/// bytes (red, green, blue, alpha), rows from top to bottom.
#[derive(Clone, Debug, PartialEq, Eq)]
pub struct Bitmap {
    pub width: u32,
    pub height: u32,
    pub pixels: Vec<u8>,
}

/// Why a cover could not be prepared.
#[derive(Clone, Copy, Debug, PartialEq, Eq, Structural)]
pub enum ImageError {
    /// The bytes are not a picture that can be decoded.
    Decode,
    /// The picture could not be resampled to the target size.
    Resize,
    /// The resampled picture could not be encoded.
    Encode,
}

/// The image formats that the `image` crate tells apart.
#[derive(Clone, Copy, Debug, PartialEq, Eq, Structural)]
pub enum ImageKind {
    Png,
    Jpeg,
    Gif,
    WebP,
    Pnm,
    Tiff,
    Tga,
    Dds,
    Bmp,
    Ico,
    Hdr,
    OpenExr,
    Farbfeld,
    Avif,
    Qoi,
}

/// The format that encoded image bytes announce by their first bytes;
/// nothing if they announce none that is known.
pub uninterp spec fn guessed_kind(bytes: Seq<u8>) -> Option<ImageKind>;

/// The width and height of the picture that bytes in the given format
/// decode to; nothing if they do not decode.
pub uninterp spec fn decoded_size(kind: ImageKind, bytes: Seq<u8>) -> Option<(u32, u32)>;

/// The pixels of a picture resampled to a new width and height with a
/// triangle (bilinear) filter; nothing if the pixels do not fill the
/// picture's stated size.
pub uninterp spec fn resampled_rgba(
    width: u32,
    height: u32,
    pixels: Seq<u8>,
    new_width: u32,
    new_height: u32,
) -> Option<Seq<u8>>;

/// The encoding of a picture in the given format; nothing if the picture
/// cannot be written in it.
pub uninterp spec fn encoded(kind: ImageKind, width: u32, height: u32, pixels: Seq<u8>) -> Option<
    Seq<u8>,
>;

/// The pixels hold at least the four bytes of every pixel of a `width` by
/// `height` picture.
pub open spec fn fills(width: u32, height: u32, pixels: Seq<u8>) -> bool {
    4 * width * height <= pixels.len()
}

/// `image::guess_format`: compares the first bytes with the signatures
/// that the crate has built in, and with nothing else. The contract names
/// the format found and says that empty bytes announce none, since every
/// signature has at least two bytes.
#[verifier::external_body]
fn guess_kind(bytes: &Vec<u8>) -> (kind: Option<ImageKind>)
    ensures
        kind == guessed_kind(bytes@),
        kind is Some ==> bytes@.len() > 0,
{
    Some(match image::guess_format(bytes.as_slice()).ok()? {
        ImageFormat::Png => ImageKind::Png, ImageFormat::Jpeg => ImageKind::Jpeg,
        ImageFormat::Gif => ImageKind::Gif, ImageFormat::WebP => ImageKind::WebP,
        ImageFormat::Pnm => ImageKind::Pnm, ImageFormat::Tiff => ImageKind::Tiff,
        ImageFormat::Tga => ImageKind::Tga, ImageFormat::Dds => ImageKind::Dds,
        ImageFormat::Bmp => ImageKind::Bmp, ImageFormat::Ico => ImageKind::Ico,
        ImageFormat::Hdr => ImageKind::Hdr, ImageFormat::OpenExr => ImageKind::OpenExr,
        ImageFormat::Farbfeld => ImageKind::Farbfeld, ImageFormat::Avif => ImageKind::Avif,
        ImageFormat::Qoi => ImageKind::Qoi,
        _ => return None,
    })
}

/// `image::load_from_memory_with_format`: decodes the bytes with the
/// crate's own decoder for the format, consulting no registry. The decoded
/// image is handed out as 8-bit RGBA (`DynamicImage::into_rgba8`) with its
/// dimensions. The contract names whether the bytes decode and to which
/// size, and says that the pixels fill that size, which every image
/// buffer of the crate is checked for when it is made. It says nothing of
/// the pixels themselves.
#[verifier::external_body]
fn decode_rgba(kind: ImageKind, bytes: &Vec<u8>) -> (picture: Option<Bitmap>)
    ensures
        match picture {
            Some(bitmap) => decoded_size(kind, bytes@) == Some((bitmap.width, bitmap.height))
                && fills(bitmap.width, bitmap.height, bitmap.pixels@),
            None => decoded_size(kind, bytes@) is None,
        },
{
    let format = match kind {
        ImageKind::Png => ImageFormat::Png, ImageKind::Jpeg => ImageFormat::Jpeg,
        ImageKind::Gif => ImageFormat::Gif, ImageKind::WebP => ImageFormat::WebP,
        ImageKind::Pnm => ImageFormat::Pnm, ImageKind::Tiff => ImageFormat::Tiff,
        ImageKind::Tga => ImageFormat::Tga, ImageKind::Dds => ImageFormat::Dds,
        ImageKind::Bmp => ImageFormat::Bmp, ImageKind::Ico => ImageFormat::Ico,
        ImageKind::Hdr => ImageFormat::Hdr, ImageKind::OpenExr => ImageFormat::OpenExr,
        ImageKind::Farbfeld => ImageFormat::Farbfeld, ImageKind::Avif => ImageFormat::Avif,
        ImageKind::Qoi => ImageFormat::Qoi,
    };
    let rgba = image::load_from_memory_with_format(bytes.as_slice(), format).ok()?.into_rgba8();
    Some(Bitmap { width: rgba.width(), height: rgba.height(), pixels: rgba.into_raw() })
}

/// `image::imageops::resize` with `FilterType::Triangle`, on the pixels
/// viewed as an RGBA image buffer (`ImageBuffer::from_raw`, which refuses
/// a buffer shorter than the stated size and nothing else). Only
/// downscaling to a non-empty size is asked for, so that no buffer is
/// larger than the source. The contract names the outcome, says that
/// there is one exactly if the pixels fill the picture's size, and that
/// it holds exactly the four bytes of every pixel of the new size, as a
/// freshly made image buffer does.
#[verifier::external_body]
fn resample_rgba(source: &Bitmap, new_width: u32, new_height: u32) -> (pixels: Option<Vec<u8>>)
    requires
        0 < new_width <= source.width,
        0 < new_height <= source.height,
    ensures
        match pixels {
            Some(resampled) => resampled_rgba(
                source.width,
                source.height,
                source.pixels@,
                new_width,
                new_height,
            ) == Some(resampled@) && resampled@.len() == 4 * new_width * new_height,
            None => resampled_rgba(
                source.width,
                source.height,
                source.pixels@,
                new_width,
                new_height,
            ) is None,
        },
        pixels is Some <==> fills(source.width, source.height, source.pixels@),
{
    let view = image::ImageBuffer::<image::Rgba<u8>, &[u8]>::from_raw(
        source.width,
        source.height,
        source.pixels.as_slice(),
    )?;
    let filter = image::imageops::FilterType::Triangle;
    Some(image::imageops::resize(&view, new_width, new_height, filter).into_raw())
}

/// `DynamicImage::write_to`, on a copy of the pixels taken as an RGBA
/// image (`ImageBuffer::from_raw`), into a buffer in memory. The encoder
/// of the format converts the picture to a colour type that it can write,
/// or refuses it. The pixels must be exactly as many as the size asks
/// for, which the encoders insist on. The contract only names the outcome.
#[verifier::external_body]
fn encode(kind: ImageKind, width: u32, height: u32, pixels: &Vec<u8>) -> (bytes: Option<Vec<u8>>)
    requires
        0 < width,
        0 < height,
        pixels@.len() == 4 * width * height,
    ensures
        match bytes {
            Some(written) => encoded(kind, width, height, pixels@) == Some(written@),
            None => encoded(kind, width, height, pixels@) is None,
        },
{
    let format = match kind {
        ImageKind::Png => ImageFormat::Png, ImageKind::Jpeg => ImageFormat::Jpeg,
        ImageKind::Gif => ImageFormat::Gif, ImageKind::WebP => ImageFormat::WebP,
        ImageKind::Pnm => ImageFormat::Pnm, ImageKind::Tiff => ImageFormat::Tiff,
        ImageKind::Tga => ImageFormat::Tga, ImageKind::Dds => ImageFormat::Dds,
        ImageKind::Bmp => ImageFormat::Bmp, ImageKind::Ico => ImageFormat::Ico,
        ImageKind::Hdr => ImageFormat::Hdr, ImageKind::OpenExr => ImageFormat::OpenExr,
        ImageKind::Farbfeld => ImageFormat::Farbfeld, ImageKind::Avif => ImageFormat::Avif,
        ImageKind::Qoi => ImageFormat::Qoi,
    };
    let picture = image::RgbaImage::from_raw(width, height, pixels.clone())?;
    let mut out = std::io::Cursor::new(Vec::new());
    image::DynamicImage::ImageRgba8(picture).write_to(&mut out, format).ok()?;
    Some(out.into_inner())
}

/// The height that keeps the proportions of a `width` by `height` picture
/// when its width becomes `new_width`, rounded down but at least one.
pub open spec fn proportional_height(width: u32, height: u32, new_width: u32) -> int
    recommends
        width > 0,
{
    let exact = (height * new_width) / (width as int);
    if exact < 1 {
        1
    } else {
        exact
    }
}

/// What becomes of an encoding: it stands if it announces the format it
/// was asked for, and is refused otherwise.
pub open spec fn accepted(kind: ImageKind, written: Option<Seq<u8>>) -> Result<Seq<u8>, ImageError> {
    match written {
        Some(bytes) => if guessed_kind(bytes) == Some(kind) {
            Ok(bytes)
        } else {
            Err(ImageError::Encode)
        },
        None => Err(ImageError::Encode),
    }
}

/// The bytes that stand for a decoded picture in the dashboard.
///
/// A picture no wider than `max_size` keeps its original bytes. A wider
/// one is resampled to the width `max_size` and the proportional height,
/// and encoded in the format `kind` of the original bytes.
pub open spec fn scaled(
    original: Seq<u8>,
    kind: ImageKind,
    width: u32,
    height: u32,
    pixels: Seq<u8>,
    max_size: u32,
) -> Result<Seq<u8>, ImageError> {
    if width <= max_size {
        Ok(original)
    } else if max_size == 0 || height == 0 {
        Err(ImageError::Resize)
    } else {
        let new_height = proportional_height(width, height, max_size) as u32;
        match resampled_rgba(width, height, pixels, max_size, new_height) {
            None => Err(ImageError::Resize),
            Some(resampled) => accepted(kind, encoded(kind, max_size, new_height, resampled)),
        }
    }
}

/// The view of a result that holds bytes.
pub open spec fn bytes_view(result: Result<Vec<u8>, ImageError>) -> Result<Seq<u8>, ImageError> {
    match result {
        Ok(bytes) => Ok(bytes@),
        Err(error) => Err(error),
    }
}

/// Computes [`proportional_height`].
fn fit_height(width: u32, height: u32, new_width: u32) -> (new_height: u32)
    requires
        0 < new_width < width,
        0 < height,
    ensures
        new_height == proportional_height(width, height, new_width),
        0 < new_height <= height,
{
    assert((height as u64) * (new_width as u64) <= 0xffff_ffff * 0xffff_ffff) by (nonlinear_arith)
        requires
            height <= 0xffff_ffff,
            new_width <= 0xffff_ffff,
    ;
    let product: u64 = (height as u64) * (new_width as u64);
    assert(product < (height as u64) * (width as u64)) by (nonlinear_arith)
        requires
            product == (height as u64) * (new_width as u64),
            new_width < width,
            0 < height,
    ;
    let exact: u64 = product / (width as u64);
    assert(exact < height) by (nonlinear_arith)
        requires
            exact == product / (width as u64),
            product < (height as u64) * (width as u64),
            0 < width,
    ;
    if exact < 1 {
        1
    } else {
        exact as u32
    }
}

/// Scales a decoded picture down if it is wider than `max_size`.
///
/// `original` holds the encoded bytes that `bitmap` was decoded from, and
/// `kind` is their format. The bytes are handed back untouched if the
/// picture is narrow enough. A scaled picture is written in the same
/// format, and is refused if the format cannot be written. Scaling is
/// refused for a picture without pixels, for a target width of zero, and
/// for pixels that do not fill the picture's size.
pub fn scale_bitmap(original: Vec<u8>, kind: ImageKind, bitmap: &Bitmap, max_size: u32) -> (result:
    Result<Vec<u8>, ImageError>)
    ensures
        bytes_view(result) == scaled(
            original@,
            kind,
            bitmap.width,
            bitmap.height,
            bitmap.pixels@,
            max_size,
        ),
        bitmap.width <= max_size ==> result == Ok::<Vec<u8>, ImageError>(original),
        match result {
            Ok(bytes) => bitmap.width > max_size ==> guessed_kind(bytes@) == Some(kind)
                && bytes@.len() > 0,
            Err(error) => bitmap.width > max_size && error != ImageError::Decode && (error
                == ImageError::Resize <==> max_size == 0 || bitmap.height == 0 || !fills(
                bitmap.width,
                bitmap.height,
                bitmap.pixels@,
            )),
        },
{
    if bitmap.width <= max_size {
        return Ok(original);
    }
    if max_size == 0 || bitmap.height == 0 {
        return Err(ImageError::Resize);
    }
    let new_height = fit_height(bitmap.width, bitmap.height, max_size);
    match resample_rgba(bitmap, max_size, new_height) {
        None => Err(ImageError::Resize),
        Some(resampled) => match encode(kind, max_size, new_height, &resampled) {
            None => Err(ImageError::Encode),
            Some(written) => match guess_kind(&written) {
                Some(announced) => if announced == kind {
                    Ok(written)
                } else {
                    Err(ImageError::Encode)
                },
                None => Err(ImageError::Encode),
            },
        },
    }
}

/// The width and height of the picture that encoded image bytes decode
/// to, in the format they announce; nothing if they announce none or do
/// not decode.
pub open spec fn picture_size(bytes: Seq<u8>) -> Option<(u32, u32)> {
    match guessed_kind(bytes) {
        Some(kind) => decoded_size(kind, bytes),
        None => None,
    }
}

/// `result` is what becomes of encoded image bytes with the limit
/// `max_size`.
///
/// Bytes that are no picture are refused. A picture no wider than the
/// limit keeps its bytes. A wider one is scaled as [`scaled`] says, from
/// pixels that fill its size.
pub open spec fn is_scaled_down(
    result: Result<Seq<u8>, ImageError>,
    bytes: Seq<u8>,
    max_size: u32,
) -> bool {
    match picture_size(bytes) {
        None => result == Err::<Seq<u8>, ImageError>(ImageError::Decode),
        Some((width, height)) => if width <= max_size {
            result == Ok::<Seq<u8>, ImageError>(bytes)
        } else {
            exists|pixels: Seq<u8>|
                fills(width, height, pixels) && result == #[trigger] scaled(
                    bytes,
                    guessed_kind(bytes).unwrap(),
                    width,
                    height,
                    pixels,
                    max_size,
                )
        },
    }
}

/// Decodes encoded image bytes and scales the picture down if it is wider
/// than `max_size`.
///
/// What comes back is never empty and is in the format of the bytes given,
/// scaled or not; a picture whose format cannot be written is refused
/// rather than written in another. Resampling is refused only for a
/// picture that is wider than `max_size` while it has no rows or
/// `max_size` is zero.
pub fn scale_down_if_needed(bytes: Vec<u8>, max_size: u32) -> (result: Result<Vec<u8>, ImageError>)
    ensures
        is_scaled_down(bytes_view(result), bytes@, max_size),
        match result {
            Ok(out) => out@.len() > 0 && guessed_kind(out@) == guessed_kind(bytes@)
                && guessed_kind(out@) is Some,
            Err(error) => (error == ImageError::Decode <==> picture_size(bytes@) is None) && (
            error == ImageError::Resize <==> picture_size(bytes@) is Some && ({
                let (width, height) = picture_size(bytes@).unwrap();
                width > max_size && (max_size == 0 || height == 0)
            })),
        },
{
    let kind = match guess_kind(&bytes) {
        Some(kind) => kind,
        None => return Err(ImageError::Decode),
    };
    match decode_rgba(kind, &bytes) {
        None => Err(ImageError::Decode),
        Some(bitmap) => {
            let result = scale_bitmap(bytes, kind, &bitmap, max_size);
            assert(bitmap.width > max_size ==> bytes_view(result) == scaled(
                bytes@,
                kind,
                bitmap.width,
                bitmap.height,
                bitmap.pixels@,
                max_size,
            ));
            result
        },
    }
}

/// What is shown as the cover of an album.
#[derive(Clone, Debug, PartialEq, Eq)]
pub enum Art {
    /// The album's own cover, encoded.
    Cover(Vec<u8>),
    /// The bundled placeholder picture.
    Placeholder,
}

/// The view of an [`Art`]: the cover's bytes, or nothing for the
/// placeholder.
pub open spec fn art_view(art: Art) -> Option<Seq<u8>> {
    match art {
        Art::Cover(bytes) => Some(bytes@),
        Art::Placeholder => None,
    }
}

/// `art` is what is shown for the raw art that the daemon delivered: the
/// placeholder if there is no art or it is empty; else the art, scaled
/// down to [`MAX_ART_WIDTH`] if needed, or the placeholder if it cannot be
/// decoded, resampled or written.
pub open spec fn is_art_for(art: Option<Seq<u8>>, fetched: Option<Seq<u8>>) -> bool {
    match fetched {
        None => art is None,
        Some(bytes) => if bytes.len() == 0 {
            art is None
        } else {
            exists|result: Result<Seq<u8>, ImageError>|
                #[trigger] is_scaled_down(result, bytes, MAX_ART_WIDTH) && art == (match result {
                    Ok(cover) => Some(cover),
                    Err(_) => None,
                })
        },
    }
}

/// Chooses between the art that the daemon delivered and the placeholder.
/// There is always something to show: a failure never reaches the caller,
/// and a cover is never empty.
pub fn album_art(fetched: Option<Vec<u8>>) -> (art: Art)
    ensures
        is_art_for(art_view(art), fetched.deep_view()),
        match art {
            Art::Cover(cover) => cover@.len() > 0 && fetched is Some && guessed_kind(cover@)
                == guessed_kind(fetched.unwrap()@),
            Art::Placeholder => true,
        },
{
    match fetched {
        None => Art::Placeholder,
        Some(bytes) => {
            assert(bytes.deep_view() =~= bytes@);
            if bytes.len() == 0 {
                Art::Placeholder
            } else {
                let result = scale_down_if_needed(bytes, MAX_ART_WIDTH);
                assert(is_scaled_down(bytes_view(result), bytes@, MAX_ART_WIDTH));
                match result {
                    Ok(cover) => Art::Cover(cover),
                    Err(_) => Art::Placeholder,
                }
            }
        },
    }
}

/// The song whose art stands for an album: the first of its song listing.
pub fn cover_source(songs: &Vec<Song>) -> (url: Option<String>)
    ensures
        url.deep_view() == (if songs.len() == 0 {
            None
        } else {
            Some(songs.deep_view()[0].url)
        }),
{
    if songs.len() == 0 {
        None
    } else {
        assert(songs.deep_view()[0] == songs@[0].deep_view());
        Some(songs[0].url.clone())
    }
}

} // verus!
