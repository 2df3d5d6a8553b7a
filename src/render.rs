use vstd::prelude::*;

use crate::record::{EpcQr, InvalidEpcCode};

verus! {

/// The QR code that qrcode builds, carried through unopened.
#[verifier::external_type_specification]
#[verifier::external_body]
pub struct ExQrCode(qrcode::QrCode);

/// qrcode's error for data it cannot encode.
#[verifier::external_type_specification]
#[verifier::external_body]
pub struct ExQrError(qrcode::types::QrError);

/// image's error for an image it cannot encode or write.
#[verifier::external_type_specification]
#[verifier::external_body]
pub struct ExImageError(image::ImageError);

/// std's error for a file that cannot be written.
#[verifier::external_type_specification]
#[verifier::external_body]
pub struct ExIoError(std::io::Error);

/// Why no image of a payment could be made.
#[derive(Debug)]
pub enum GenerationError {
    /// The QR encoder refused the payload.
    QrError(qrcode::types::QrError),
    /// The image could not be encoded or written.
    ImageError(image::ImageError),
    /// The image file could not be written.
    Io(std::io::Error),
    /// The payment itself has no valid payload.
    InvalidEpcCode(InvalidEpcCode),
}

/// The modules of the QR code of `data`, row by row with `true` for dark,
/// or `None` where the data does not fit any QR code.
pub uninterp spec fn qr_modules(data: Seq<u8>) -> Option<Seq<bool>>;

/// Relies on `qrcode::QrCode::new`: the smallest QR code at error correction
/// level M that holds the bytes, which depends on them alone, and whose
/// modules `QrCode::to_colors` lists row by row. Data of at most 331 bytes
/// always fits: the largest version holds 18672 data bits at level M, and
/// `encode_auto` goes on to it.
#[verifier::external_body]
fn qr_encode(data: &Vec<u8>) -> (r: Result<(qrcode::QrCode, Vec<bool>), qrcode::types::QrError>)
    ensures
        match r {
            Ok((_, modules)) => qr_modules(data@) == Some(modules@),
            Err(_) => qr_modules(data@) is None,
        },
        data@.len() <= 331 ==> r is Ok,
{
    let code = qrcode::QrCode::new(data)?;
    let modules = code.to_colors().into_iter().map(|c| c == qrcode::Color::Dark).collect();
    Ok((code, modules))
}

/// A QR code and its modules.
pub struct QrSymbol {
    code: qrcode::QrCode,
    modules: Vec<bool>,
}

impl QrSymbol {
    /// The modules, row by row, `true` for dark.
    pub closed spec fn modules(&self) -> Seq<bool> {
        self.modules@
    }

    /// The QR code, for rendering.
    pub fn code(&self) -> &qrcode::QrCode {
        &self.code
    }

    /// The modules, row by row, `true` for dark.
    pub fn dark_modules(&self) -> (r: &Vec<bool>)
        ensures
            r@ == self.modules(),
    {
        &self.modules
    }
}

/// The bytes of the QOI image with an RGB, sRGB header of the given size and
/// the given RGBA pixels, row by row.
pub uninterp spec fn qoi_rgb_image(size: (u32, u32), pixels: Seq<(u8, u8, u8, u8)>) -> Seq<u8>;

/// Relies on `arqoii::QoiEncoder`: the QOI encoding of a header and the
/// pixels that follow it, which depends on these alone.
#[verifier::external_body]
fn qoi_encode(width: u32, height: u32, pixels: &Vec<(u8, u8, u8, u8)>) -> (r: Vec<u8>)
    requires
        pixels@.len() == width * height,
    ensures
        r@ == qoi_rgb_image((width, height), pixels@),
{
    let header = arqoii::types::QoiHeader::new(
        width,
        height,
        arqoii::types::QoiChannels::Rgb,
        arqoii::types::QoiColorSpace::SRgbWithLinearAlpha,
    );
    let pixels = pixels.iter().map(|p| arqoii::types::Pixel { r: p.0, g: p.1, b: p.2, a: p.3 });
    arqoii::encode::QoiEncoder::new(header, pixels).collect()
}

/// The RGBA pixel that shows a gray level: the level in each colour channel,
/// fully opaque.
pub open spec fn gray_pixel(level: u8) -> (u8, u8, u8, u8) {
    (level, level, level, 255u8)
}

/// The RGBA pixels that show the gray levels, one for one.
pub fn gray_to_rgba(levels: &Vec<u8>) -> (r: Vec<(u8, u8, u8, u8)>)
    ensures
        r@.len() == levels@.len(),
        forall|i: int| 0 <= i < levels@.len() ==> r@[i] == gray_pixel(#[trigger] levels@[i]),
{
    let mut out: Vec<(u8, u8, u8, u8)> = Vec::new();
    let mut i: usize = 0;
    while i < levels.len()
        invariant
            i <= levels@.len(),
            out@.len() == i,
            forall|j: int| 0 <= j < i ==> out@[j] == gray_pixel(#[trigger] levels@[j]),
        decreases levels@.len() - i,
    {
        let level = levels[i];
        out.push((level, level, level, 255u8));
        i = i + 1;
    }
    out
}

/// The QOI image of a gray image of the given size, whose levels are given
/// row by row.
pub fn gray_to_qoi(width: u32, height: u32, levels: &Vec<u8>) -> (r: Vec<u8>)
    requires
        levels@.len() == width * height,
    ensures
        r@ == qoi_rgb_image((width, height), levels@.map_values(|l: u8| gray_pixel(l))),
{
    let pixels = gray_to_rgba(levels);
    assert(pixels@ =~= levels@.map_values(|l: u8| gray_pixel(l)));
    qoi_encode(width, height, &pixels)
}

/// The encodings that an image of a payment can be written in.
#[derive(Debug, Clone, Copy, PartialEq, Eq)]
pub enum FileFormat {
    Png,
    Jpeg,
    Qoi,
}

/// The encoding that a file extension names: QOI for `qoi`, JPEG for `jpg`
/// and `jpeg`, and PNG for any other extension or none.
pub open spec fn format_of_extension(extension: Option<Seq<char>>) -> FileFormat {
    match extension {
        Some(e) => if e == seq!['q', 'o', 'i'] {
            FileFormat::Qoi
        } else if e == seq!['j', 'p', 'g'] || e == seq!['j', 'p', 'e', 'g'] {
            FileFormat::Jpeg
        } else {
            FileFormat::Png
        },
        None => FileFormat::Png,
    }
}

/// Whether two texts hold the same characters.
fn same_text(a: &str, b: &str) -> (r: bool)
    ensures
        r == (a@ == b@),
{
    let n = a.unicode_len();
    if n != b.unicode_len() {
        return false;
    }
    let mut i: usize = 0;
    while i < n
        invariant
            n == a@.len(),
            n == b@.len(),
            i <= n,
            forall|j: int| 0 <= j < i ==> a@[j] == b@[j],
        decreases n - i,
    {
        if a.get_char(i) != b.get_char(i) {
            return false;
        }
        i = i + 1;
    }
    assert(a@ =~= b@);
    true
}

/// The encoding to write a file in, from its extension.
pub fn format_for_extension(extension: Option<&str>) -> (r: FileFormat)
    ensures
        r == format_of_extension(
            match extension {
                Some(e) => Some(e@),
                None => None,
            },
        ),
{
    proof {
        reveal_strlit("qoi");
        reveal_strlit("jpg");
        reveal_strlit("jpeg");
        assert("qoi"@ =~= seq!['q', 'o', 'i']);
        assert("jpg"@ =~= seq!['j', 'p', 'g']);
        assert("jpeg"@ =~= seq!['j', 'p', 'e', 'g']);
    }
    match extension {
        Some(e) => if same_text(e, "qoi") {
            FileFormat::Qoi
        } else if same_text(e, "jpg") || same_text(e, "jpeg") {
            FileFormat::Jpeg
        } else {
            FileFormat::Png
        },
        None => FileFormat::Png,
    }
}

impl EpcQr {
    /// The QR code of the payment's payload.
    pub fn qr_code(&self) -> (r: Result<QrSymbol, GenerationError>)
        ensures
            match r {
                Ok(symbol) => {
                    &&& self.payload_error() is None
                    &&& qr_modules(self.payload_bytes()) == Some(symbol.modules())
                },
                Err(GenerationError::InvalidEpcCode(e)) => self.payload_error() == Some(e),
                Err(GenerationError::QrError(_)) => {
                    &&& self.payload_error() is None
                    &&& qr_modules(self.payload_bytes()) is None
                },
                Err(GenerationError::ImageError(_)) => false,
                Err(GenerationError::Io(_)) => false,
            },
            self.payload_error() is None ==> r is Ok,
    {
        match self.data() {
            Ok(bytes) => match qr_encode(&bytes) {
                Ok((code, modules)) => Ok(QrSymbol { code, modules }),
                Err(e) => Err(GenerationError::QrError(e)),
            },
            Err(e) => Err(GenerationError::InvalidEpcCode(e)),
        }
    }
}

} // verus!
