use vstd::prelude::*;

use crate::credentials::encoded_payload;
use crate::credentials::WifiCredentials;
use qrcode_generator::QRCodeError;
use qrcode_generator::QrCodeEcc;

verus! {

/// The error-correction level of a QR code: how much redundancy is added so
/// that a dirty or partly hidden code still scans. A higher level is more
/// robust but leaves less room for payload data.
#[derive(Clone, Copy, Debug, PartialEq, Eq, Structural)]
pub enum EccLevel {
    /// Tolerates about 7% erroneous codewords.
    Low,
    /// Tolerates about 15% erroneous codewords.
    Medium,
    /// Tolerates about 25% erroneous codewords.
    Quartile,
    /// Tolerates about 30% erroneous codewords.
    High,
}

/// A failure reported by the QR renderer. Encoding the credentials into
/// payload text never fails; these arise only when the payload is turned
/// into a matrix or an image.
#[derive(Clone, Copy, Debug, PartialEq, Eq, Structural)]
pub enum RenderError {
    /// The payload fits no QR code version at the requested
    /// error-correction level.
    DataTooLong,
    /// Writing the rendered image to its destination failed.
    Io,
    /// The image encoder rejected the rendered image.
    Image,
    /// The requested image size is too small to draw the whole QR code.
    ImageSizeTooSmall,
    /// The requested image size is too large to generate.
    ImageSizeTooLarge,
}

/// The position of an error-correction level on the renderer's
/// low-to-high scale.
pub open spec fn ecc_level_index(level: EccLevel) -> int {
    match level {
        EccLevel::Low => 0,
        EccLevel::Medium => 1,
        EccLevel::Quartile => 2,
        EccLevel::High => 3,
    }
}

/// What the QR renderer produces from a payload text at an error-correction
/// level: either the square grid of modules (`true` is a dark module) or the
/// failure that the payload fits no QR code version at that level.
pub uninterp spec fn qr_matrix_render(data: Seq<char>, ecc: int) -> Result<
    Seq<Seq<bool>>,
    RenderError,
>;

/// Relies on `qrcode_generator::to_matrix`: the module grid is a function of
/// the payload and the error-correction level alone; the grid is square,
/// with a side of 21 to 177 modules; the one failure, when the payload fits
/// no QR code version at that level, is reported as data-too-long.
#[verifier::external_body]
fn render_matrix(data: &str, ecc: EccLevel) -> (r: Result<Vec<Vec<bool>>, RenderError>)
    ensures
        (r is Ok) == (qr_matrix_render(data@, ecc_level_index(ecc)) is Ok),
        r is Ok ==> r->Ok_0.deep_view() == qr_matrix_render(data@, ecc_level_index(ecc))->Ok_0,
        r is Ok ==> 21 <= r->Ok_0@.len() <= 177,
        r is Ok ==> forall|i: int|
            0 <= i < r->Ok_0@.len() ==> r->Ok_0@[i]@.len() == r->Ok_0@.len(),
        r is Err ==> r->Err_0 == RenderError::DataTooLong && r->Err_0 == qr_matrix_render(
            data@,
            ecc_level_index(ecc),
        )->Err_0,
{
    let level = match ecc {
        EccLevel::Low => QrCodeEcc::Low,
        EccLevel::Medium => QrCodeEcc::Medium,
        EccLevel::Quartile => QrCodeEcc::Quartile,
        EccLevel::High => QrCodeEcc::High,
    };
    match qrcode_generator::to_matrix(data, level) {
        Ok(m) => Ok(m),
        Err(QRCodeError::DataTooLong) => Err(RenderError::DataTooLong),
        Err(QRCodeError::IOError(_)) => Err(RenderError::Io),
        Err(QRCodeError::ImageError(_)) => Err(RenderError::Image),
        Err(QRCodeError::ImageSizeTooSmall) => Err(RenderError::ImageSizeTooSmall),
        Err(QRCodeError::ImageSizeTooLarge) => Err(RenderError::ImageSizeTooLarge),
    }
}

/// Relies on `qrcode_generator::to_image`: renders the payload as a square
/// grayscale image of `size` by `size` bytes, one byte per pixel. It fails
/// with data-too-long exactly when the module grid itself cannot be built,
/// with size-too-small when `size` holds less than one pixel per module and
/// margin, and with size-too-large only when `size` is at least 65536.
#[verifier::external_body]
fn render_image(data: &str, ecc: EccLevel, size: usize) -> (r: Result<Vec<u8>, RenderError>)
    ensures
        r is Ok ==> r->Ok_0@.len() == size * size,
        r is Err ==> (r->Err_0 == RenderError::DataTooLong || r->Err_0
            == RenderError::ImageSizeTooSmall || r->Err_0 == RenderError::ImageSizeTooLarge),
        (r is Err && r->Err_0 == RenderError::DataTooLong) == (qr_matrix_render(
            data@,
            ecc_level_index(ecc),
        ) is Err),
        r is Err && r->Err_0 == RenderError::ImageSizeTooSmall ==> size < qr_matrix_render(
            data@,
            ecc_level_index(ecc),
        )->Ok_0.len() + 2,
        r is Err && r->Err_0 == RenderError::ImageSizeTooLarge ==> size >= 65536,
        qr_matrix_render(data@, ecc_level_index(ecc)) is Ok && qr_matrix_render(
            data@,
            ecc_level_index(ecc),
        )->Ok_0.len() + 2 <= size && size < 65536 ==> r is Ok,
{
    let level = match ecc {
        EccLevel::Low => QrCodeEcc::Low,
        EccLevel::Medium => QrCodeEcc::Medium,
        EccLevel::Quartile => QrCodeEcc::Quartile,
        EccLevel::High => QrCodeEcc::High,
    };
    match qrcode_generator::to_image(data, level, size) {
        Ok(v) => Ok(v),
        Err(QRCodeError::DataTooLong) => Err(RenderError::DataTooLong),
        Err(QRCodeError::IOError(_)) => Err(RenderError::Io),
        Err(QRCodeError::ImageError(_)) => Err(RenderError::Image),
        Err(QRCodeError::ImageSizeTooSmall) => Err(RenderError::ImageSizeTooSmall),
        Err(QRCodeError::ImageSizeTooLarge) => Err(RenderError::ImageSizeTooLarge),
    }
}

/// Encode credentials as a matrix of boolean values, where `true` is a dark
/// module. This is useful when manually generating an image.
pub fn encode_as_matrix(
    wifi_credentials: &WifiCredentials,
    qr_code_error_checking: EccLevel,
) -> (r: Result<Vec<Vec<bool>>, RenderError>)
    ensures
        (r is Ok) == (qr_matrix_render(
            encoded_payload(*wifi_credentials),
            ecc_level_index(qr_code_error_checking),
        ) is Ok),
        r is Ok ==> r->Ok_0.deep_view() == qr_matrix_render(
            encoded_payload(*wifi_credentials),
            ecc_level_index(qr_code_error_checking),
        )->Ok_0,
        r is Ok ==> 21 <= r->Ok_0@.len() <= 177,
        r is Ok ==> forall|i: int|
            0 <= i < r->Ok_0@.len() ==> r->Ok_0@[i]@.len() == r->Ok_0@.len(),
        r is Err ==> r->Err_0 == RenderError::DataTooLong,
{
    let payload = wifi_credentials.encode();
    render_matrix(payload.as_str(), qr_code_error_checking)
}

/// Encode credentials as raw grayscale image data of `image_size` by
/// `image_size` bytes. This is useful when generating the QR code and then
/// manipulating it with an image library.
pub fn encode_as_image(
    wifi_credentials: &WifiCredentials,
    qr_code_error_checking: EccLevel,
    image_size: usize,
) -> (r: Result<Vec<u8>, RenderError>)
    ensures
        r is Ok ==> r->Ok_0@.len() == image_size * image_size,
        r is Err ==> (r->Err_0 == RenderError::DataTooLong || r->Err_0
            == RenderError::ImageSizeTooSmall || r->Err_0 == RenderError::ImageSizeTooLarge),
        (r is Err && r->Err_0 == RenderError::DataTooLong) == (qr_matrix_render(
            encoded_payload(*wifi_credentials),
            ecc_level_index(qr_code_error_checking),
        ) is Err),
        qr_matrix_render(
            encoded_payload(*wifi_credentials),
            ecc_level_index(qr_code_error_checking),
        ) is Ok && qr_matrix_render(
            encoded_payload(*wifi_credentials),
            ecc_level_index(qr_code_error_checking),
        )->Ok_0.len() + 2 <= image_size && image_size < 65536 ==> r is Ok,
{
    let payload = wifi_credentials.encode();
    render_image(payload.as_str(), qr_code_error_checking, image_size)
}

} // verus!
