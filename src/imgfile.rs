//! Turning a row-major RGB byte buffer into the bytes of a PNG image.

use vstd::prelude::*;

verus! {

#[verifier::external_type_specification]
#[verifier::external_body]
pub struct ExIoError(std::io::Error);

#[verifier::external_type_specification]
#[verifier::external_body]
pub struct ExEncodingError(png::EncodingError);

/// Why a pixel buffer could not be stored as a PNG image.
#[derive(Debug)]
pub enum ImageError {
    /// The width or the height is zero.
    InvalidDimensions,
    /// The buffer length (first field) does not match width (second) times
    /// height (third) times three.
    InvalidDataLength(usize, u32, u32),
    /// The destination could not be created or written.
    IoError(std::io::Error),
    /// The PNG encoder rejected the image.
    PngError(png::EncodingError),
}

/// Number of bytes an RGB image of the given size occupies: three per pixel.
pub open spec fn rgb_len(width: int, height: int) -> int {
    width * height * 3
}

/// What validation of a `len`-byte buffer against `width` x `height` yields:
/// the dimensions are checked first, the length second.
pub open spec fn validation_result(width: u32, height: u32, len: usize) -> Result<(), ImageError> {
    if width == 0 || height == 0 {
        Err(ImageError::InvalidDimensions)
    } else if len != rgb_len(width as int, height as int) {
        Err(ImageError::InvalidDataLength(len, width, height))
    } else {
        Ok(())
    }
}

/// Checks a buffer length against the image dimensions, without touching
/// any data.
pub fn validate_rgb_buffer(width: u32, height: u32, len: usize) -> (r: Result<(), ImageError>)
    ensures
        r == validation_result(width, height, len),
{
    if width == 0 || height == 0 {
        return Err(ImageError::InvalidDimensions);
    }
    let w: u128 = width as u128;
    let h: u128 = height as u128;
    assert(w * h <= 0xffff_ffff_ffff_ffff_ffff_ffff) by (nonlinear_arith)
        requires
            w <= 0xffff_ffff,
            h <= 0xffff_ffff,
    ;
    let expected: u128 = w * h * 3;
    if len as u128 != expected {
        return Err(ImageError::InvalidDataLength(len, width, height));
    }
    Ok(())
}

/// The bytes that the PNG encoder produces for an 8-bit RGB image of the
/// given size and pixel data.
pub uninterp spec fn png_rgb_encoding(width: u32, height: u32, rgb: Seq<u8>) -> Seq<u8>;

/// The eight bytes every PNG stream starts with.
pub open spec fn png_signature() -> Seq<u8> {
    seq![137u8, 80u8, 78u8, 71u8, 13u8, 10u8, 26u8, 10u8]
}

/// Relies on png's `Encoder::new`, `Encoder::set_color`, `Encoder::set_depth`,
/// `Encoder::write_header`, `Writer::write_image_data` and `Writer::finish`,
/// writing into memory: the stream depends on the size and pixels alone, and
/// `write_header` emits the PNG signature before anything else. With nonzero
/// dimensions and a buffer of exactly three bytes per pixel none of them fails:
/// a `Vec` sink never reports an I/O error and sequence validation is off by
/// default. The bound on length plus height keeps png's internal size
/// arithmetic (`(3 * width + 1) * height` filtered bytes, and the stored-block
/// bound on them) within `usize`. The bound on the width keeps one filtered
/// row (`3 * width + 1` bytes), which png hands to fdeflate's
/// `Compressor::write_data` in a single call, within that function's `u32`
/// count of a run of zero bytes.
#[verifier::external_body]
fn png_encode_rgb(width: u32, height: u32, rgb_data: &[u8]) -> (r: Result<Vec<u8>, png::EncodingError>)
    requires
        width > 0,
        height > 0,
        rgb_data@.len() == rgb_len(width as int, height as int),
        rgb_data@.len() + height <= isize::MAX,
        3 * width + 1 <= u32::MAX,
    ensures
        r is Ok,
        r matches Ok(bytes) ==> {
            &&& bytes@ == png_rgb_encoding(width, height, rgb_data@)
            &&& bytes@.len() >= 8
            &&& bytes@.subrange(0, 8) == png_signature()
        },
{
    let mut out: Vec<u8> = Vec::new();
    let mut encoder = png::Encoder::new(&mut out, width, height);
    encoder.set_color(png::ColorType::Rgb);
    encoder.set_depth(png::BitDepth::Eight);
    let mut writer = encoder.write_header()?;
    writer.write_image_data(rgb_data)?;
    writer.finish()?;
    Ok(out)
}

/// Encodes a row-major RGB buffer as an 8-bit RGB PNG stream.
///
/// The dimensions and the buffer length are validated before the encoder is
/// involved; a buffer that passes is always encoded. The bound on the buffer
/// length is a machine limit: no slice exceeds `isize::MAX` bytes, and the
/// height adds at most one filter byte per row on top. The bound on the width
/// is a limit of the encoder: one row, with its filter byte, is compressed in
/// a single pass whose run counter is 32 bits wide.
pub fn encode_rgb_png(width: u32, height: u32, rgb_data: &[u8]) -> (r: Result<Vec<u8>, ImageError>)
    requires
        rgb_data@.len() + height <= isize::MAX,
        3 * width + 1 <= u32::MAX,
    ensures
        match validation_result(width, height, rgb_data@.len() as usize) {
            Err(e) => r == Err::<Vec<u8>, ImageError>(e),
            Ok(_) => match r {
                Ok(bytes) => {
                    &&& bytes@ == png_rgb_encoding(width, height, rgb_data@)
                    &&& bytes@.len() > 0
                    &&& bytes@.subrange(0, 8) == png_signature()
                },
                Err(_) => false,
            },
        },
{
    match validate_rgb_buffer(width, height, rgb_data.len()) {
        Err(e) => Err(e),
        Ok(()) => match png_encode_rgb(width, height, rgb_data) {
            Ok(bytes) => Ok(bytes),
            Err(e) => Err(ImageError::PngError(e)),
        },
    }
}

} // verus!
