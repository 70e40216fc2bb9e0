//! The encoder: text, image size and two colours in, a data URL holding an
//! SVG QR code out, or an error when the text does not fit in any QR code.

use vstd::prelude::*;
use vstd::string::*;
use vstd::utf8::encode_utf8;
use qrcode::render::svg;
use qrcode::types::QrError;
use qrcode::QrCode;
use crate::data_url::{svg_data_url, svg_to_data_url};

verus! {

#[verifier::external_type_specification]
#[verifier::external_body]
pub struct ExQrCode(QrCode);

#[verifier::external_type_specification]
#[verifier::external_body]
pub struct ExQrError(QrError);

/// The modules of a QR code, row by row, `true` for a dark one.
pub uninterp spec fn qr_modules(code: QrCode) -> Seq<bool>;

/// The modules of the smallest QR code at error-correction level M that
/// holds `data`, or `None` when no QR code version can hold it.
pub uninterp spec fn qr_symbol(data: Seq<u8>) -> Option<Seq<bool>>;

/// The SVG document that draws `modules` with a quiet zone, scaled to at
/// least `width` by `height` pixels, in the colours `dark` and `light`.
pub uninterp spec fn qr_svg(
    modules: Seq<bool>,
    width: u32,
    height: u32,
    dark: Seq<char>,
    light: Seq<char>,
) -> Seq<char>;

/// Largest width or height accepted: the renderer adds the symbol's width
/// in modules to these in 32-bit arithmetic.
pub const MAX_SIDE: u32 = 0x7fff_ffff;

/// Relies on `qrcode::QrCode::new`: it picks the smallest version at level
/// M that holds the bytes, and fails only when none does.
#[verifier::external_body]
fn new_qr_code(data: &[u8]) -> (r: Result<QrCode, QrError>)
    ensures
        match r {
            Ok(code) => qr_symbol(data@) == Some(qr_modules(code)),
            Err(_) => qr_symbol(data@) is None,
        },
{
    QrCode::new(data)
}

/// Relies on `QrCode::render` with the SVG pixel type, followed by
/// `min_dimensions`, `dark_color`, `light_color` and `build`: the document
/// depends on the code's modules and on these settings alone.
#[verifier::external_body]
fn render_svg(code: &QrCode, width: u32, height: u32, dark: &str, light: &str) -> (r: String)
    requires
        width <= MAX_SIDE,
        height <= MAX_SIDE,
    ensures
        r@ == qr_svg(qr_modules(*code), width, height, dark@, light@),
{
    code.render().min_dimensions(width, height).dark_color(svg::Color(dark)).light_color(
        svg::Color(light),
    ).build()
}

/// What to encode and how to draw it.
pub struct EncodeRequest {
    pub text: String,
    pub width: u32,
    pub height: u32,
    pub dark_color: String,
    pub light_color: String,
}

pub const DEFAULT_SIDE: u32 = 200;

pub const DEFAULT_DARK_COLOR: &'static str = "#000000";

pub const DEFAULT_LIGHT_COLOR: &'static str = "#ffffff";

/// The one way encoding fails: the text cannot be held by any QR code.
#[derive(PartialEq, Eq, Structural, Debug, Clone, Copy)]
pub enum EncodeError {
    Unrepresentable,
}

/// The request of the page's form: `text` at the default size, black on
/// white.
pub open spec fn is_default_request(req: EncodeRequest, text: Seq<char>) -> bool {
    &&& req.text@ == text
    &&& req.width == DEFAULT_SIDE
    &&& req.height == DEFAULT_SIDE
    &&& req.dark_color@ == DEFAULT_DARK_COLOR@
    &&& req.light_color@ == DEFAULT_LIGHT_COLOR@
}

impl EncodeRequest {
    /// A request for `text` at the default size and colours.
    pub fn with_text(text: &str) -> (r: EncodeRequest)
        ensures
            is_default_request(r, text@),
    {
        EncodeRequest {
            text: String::from_str(text),
            width: DEFAULT_SIDE,
            height: DEFAULT_SIDE,
            dark_color: String::from_str(DEFAULT_DARK_COLOR),
            light_color: String::from_str(DEFAULT_LIGHT_COLOR),
        }
    }
}

impl Default for EncodeRequest {
    fn default() -> (r: EncodeRequest)
        ensures
            is_default_request(r, Seq::empty()),
    {
        proof {
            reveal_strlit("");
            assert(""@ =~= Seq::<char>::empty());
        }
        EncodeRequest::with_text("")
    }
}

/// What encoding `req` gives: the data URL of the SVG drawing of the QR code
/// of the text's UTF-8 bytes, or `Unrepresentable` when no QR code holds them.
pub open spec fn encoded(
    text: Seq<char>,
    width: u32,
    height: u32,
    dark: Seq<char>,
    light: Seq<char>,
) -> Result<Seq<char>, EncodeError> {
    match qr_symbol(encode_utf8(text)) {
        Some(modules) => Ok(svg_data_url(qr_svg(modules, width, height, dark, light))),
        None => Err(EncodeError::Unrepresentable),
    }
}

/// `encoded` of the fields of a request.
pub open spec fn request_encoded(req: EncodeRequest) -> Result<Seq<char>, EncodeError> {
    encoded(req.text@, req.width, req.height, req.dark_color@, req.light_color@)
}

/// Encoding is a function of the request's values: two requests with the
/// same text, size and colours give the same URL, character for character,
/// or both fail.
pub proof fn lemma_encoding_repeatable(a: EncodeRequest, b: EncodeRequest)
    requires
        a.text@ == b.text@,
        a.width == b.width,
        a.height == b.height,
        a.dark_color@ == b.dark_color@,
        a.light_color@ == b.light_color@,
    ensures
        request_encoded(a) == request_encoded(b),
{
}

/// Encodes the request's text as a QR code and returns the SVG drawing of it
/// as a data URL.
pub fn make_qr_code(props: EncodeRequest) -> (r: Result<String, EncodeError>)
    requires
        props.width <= MAX_SIDE,
        props.height <= MAX_SIDE,
    ensures
        r matches Ok(url) ==> request_encoded(props) == Ok::<Seq<char>, EncodeError>(url@),
        r matches Err(e) ==> request_encoded(props) == Err::<Seq<char>, EncodeError>(e),
{
    match new_qr_code(props.text.as_str().as_bytes()) {
        Ok(code) => {
            let image = render_svg(
                &code,
                props.width,
                props.height,
                props.dark_color.as_str(),
                props.light_color.as_str(),
            );
            Ok(svg_to_data_url(image.as_str()))
        },
        Err(_) => Err(EncodeError::Unrepresentable),
    }
}

} // verus!
