//! Text recognition of a cropped image through the tesseract backend.
use vstd::prelude::*;
use vstd::string::*;
use rusty_tesseract::image::DynamicImage;
use rusty_tesseract::{Image, TessError};
use crate::capture::CroppedImage;

verus! {

#[verifier::external_type_specification]
#[verifier::external_body]
pub struct ExImage(Image);

#[verifier::external_type_specification]
#[verifier::external_body]
pub struct ExTessError(TessError);

/// Why recognition failed. Each ends the session.
#[derive(Clone, Copy, Debug, PartialEq, Eq, Structural)]
pub enum RecognitionError {
    /// The tesseract program could not be started.
    BackendUnavailable,
    /// The image could not be handed to the backend in a format it reads.
    ImageNotEncodable,
    /// The backend ran and reported an error.
    BackendFailed,
}

/// The fixed settings of a recognition run.
#[derive(Clone, Debug)]
pub struct RecognitionConfig {
    /// Language pack.
    pub lang: String,
    /// Name of the backend setting that restricts the characters recognized.
    pub whitelist_variable: String,
    /// The characters that may be recognized.
    pub whitelist: String,
    /// Resolution hint, in dots per inch.
    pub dpi: i32,
    /// Page segmentation mode.
    pub psm: i32,
    /// Engine mode.
    pub oem: i32,
}

/// Letters (a few accented ones among them), digits, punctuation and symbols.
pub open spec fn whitelist_chars() -> Seq<char> {
    "éãúabcdefghijklmnopqrstuvwxyzABCDEFGHIJKLMNOPQRSTUVWXYZ0123456789:-_ ();,.[]{}´'\"`!-=+*/%$#@&|\\/<>\t"@
}

/// English only, one uniform block of text (mode 6), the default available
/// engine (mode 3), the character whitelist, at 150 DPI.
pub fn recognition_config() -> (c: RecognitionConfig)
    ensures
        c.lang@ == "eng"@,
        c.whitelist_variable@ == "tessedit_char_whitelist"@,
        c.whitelist@ == whitelist_chars(),
        c.dpi == 150,
        c.psm == 6,
        c.oem == 3,
{
    RecognitionConfig {
        lang: String::from_str("eng"),
        whitelist_variable: String::from_str("tessedit_char_whitelist"),
        whitelist: String::from_str(
            "éãúabcdefghijklmnopqrstuvwxyzABCDEFGHIJKLMNOPQRSTUVWXYZ0123456789:-_ ();,.[]{}´'\"`!-=+*/%$#@&|\\/<>\t",
        ),
        dpi: 150,
        psm: 6,
        oem: 3,
    }
}

/// Relies on image::ImageBuffer::from_vec, which takes RGBA bytes for a
/// `width` by `height` image, and on rusty_tesseract::Image::from_dynamic_image,
/// which saves that image as a temporary PNG file. The PNG encoder asserts
/// that the bytes are exactly four per pixel, hence the `requires`. Whether
/// the file can be written depends on the file system, so nothing is promised.
#[verifier::external_body]
fn tesseract_image(width: u32, height: u32, pixels: Vec<u8>) -> (r: Result<Image, TessError>)
    requires
        pixels@.len() == width * height * 4,
{
    match rusty_tesseract::image::RgbaImage::from_vec(width, height, pixels) {
        Some(buffer) => Image::from_dynamic_image(&DynamicImage::ImageRgba8(buffer)),
        None => Err(TessError::ImageFormatError),
    }
}

/// Relies on rusty_tesseract::image_to_string, which runs the tesseract
/// program with these settings and returns what it printed. The program and
/// its language data lie outside this library, so nothing is promised.
#[verifier::external_body]
fn tesseract_text(image: &Image, config: &RecognitionConfig) -> (r: Result<String, TessError>) {
    let args = rusty_tesseract::Args {
        lang: config.lang.clone(),
        config_variables: std::collections::HashMap::from(
            [(config.whitelist_variable.clone(), config.whitelist.clone())],
        ),
        dpi: Some(config.dpi),
        psm: Some(config.psm),
        oem: Some(config.oem),
    };
    rusty_tesseract::image_to_string(image, &args)
}

/// Relies on the variants of rusty_tesseract::TessError: sorts each into
/// the kind of failure it reports.
#[verifier::external_body]
fn recognition_error(e: TessError) -> (r: RecognitionError) {
    match e {
        TessError::TesseractNotFoundError => RecognitionError::BackendUnavailable,
        TessError::CommandExitStatusError(_, _) => RecognitionError::BackendFailed,
        TessError::ImageFormatError => RecognitionError::ImageNotEncodable,
        TessError::ImageNotFoundError => RecognitionError::ImageNotEncodable,
        TessError::ParseError(_) => RecognitionError::BackendFailed,
        TessError::TempfileError(_) => RecognitionError::ImageNotEncodable,
        TessError::DynamicImageError(_) => RecognitionError::ImageNotEncodable,
    }
}

/// Runs the backend on `image` with the fixed settings of
/// `recognition_config`. The text may be empty; any failure of the backend
/// is returned, never turned into text.
pub fn recognize(image: &CroppedImage) -> (r: Result<String, RecognitionError>)
    requires
        image.wf(),
{
    let pixels = image.pixels.clone();
    match tesseract_image(image.width, image.height, pixels) {
        Err(e) => Err(recognition_error(e)),
        Ok(input) => {
            let config = recognition_config();
            match tesseract_text(&input, &config) {
                Ok(text) => Ok(text),
                Err(e) => Err(recognition_error(e)),
            }
        },
    }
}

} // verus!
