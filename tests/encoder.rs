use base64::engine::general_purpose;
use base64::Engine as _;
use qrcode::render::svg;
use qrcode::QrCode;
use zeqra::data_url::{svg_to_data_url, SVG_DATA_URL_PREFIX};
use zeqra::encoder::{make_qr_code, EncodeError, EncodeRequest};

fn request(text: &str, width: u32, height: u32, dark: &str, light: &str) -> EncodeRequest {
    EncodeRequest {
        text: text.to_string(),
        width,
        height,
        dark_color: dark.to_string(),
        light_color: light.to_string(),
    }
}

fn payload_svg(url: &str) -> String {
    assert!(url.starts_with(SVG_DATA_URL_PREFIX));
    let bytes = general_purpose::STANDARD
        .decode(&url[SVG_DATA_URL_PREFIX.len()..])
        .unwrap();
    String::from_utf8(bytes).unwrap()
}

fn direct_svg(text: &str, width: u32, height: u32, dark: &str, light: &str) -> String {
    QrCode::new(text.as_bytes())
        .unwrap()
        .render()
        .min_dimensions(width, height)
        .dark_color(svg::Color(dark))
        .light_color(svg::Color(light))
        .build()
}

#[test]
fn default_request_is_200_black_on_white() {
    let r = EncodeRequest::default();
    assert_eq!(r.text, "");
    assert_eq!(r.width, 200);
    assert_eq!(r.height, 200);
    assert_eq!(r.dark_color, "#000000");
    assert_eq!(r.light_color, "#ffffff");
    let t = EncodeRequest::with_text("hello");
    assert_eq!(t.text, "hello");
    assert_eq!(t.width, 200);
}

#[test]
fn data_url_base64_exact_values() {
    assert_eq!(svg_to_data_url(""), "data:image/svg+xml;base64,");
    assert_eq!(svg_to_data_url("a"), "data:image/svg+xml;base64,YQ==");
    assert_eq!(svg_to_data_url("ab"), "data:image/svg+xml;base64,YWI=");
    assert_eq!(svg_to_data_url("abc"), "data:image/svg+xml;base64,YWJj");
    assert_eq!(svg_to_data_url("<svg/>"), "data:image/svg+xml;base64,PHN2Zy8+");
    assert_eq!(svg_to_data_url("é"), "data:image/svg+xml;base64,w6k=");
}

#[test]
fn hello_encodes_to_the_qr_code_svg() {
    let url = make_qr_code(EncodeRequest::with_text("hello")).unwrap();
    let svg = payload_svg(&url);
    assert_eq!(svg, direct_svg("hello", 200, 200, "#000000", "#ffffff"));
    assert!(svg.starts_with("<?xml"));
    assert!(svg.contains("fill=\"#000000\""));
    assert!(svg.contains("fill=\"#ffffff\""));
}

#[test]
fn size_and_colours_are_passed_to_the_renderer() {
    let url = make_qr_code(request("size", 400, 300, "#123456", "#abcdef")).unwrap();
    let svg = payload_svg(&url);
    assert_eq!(svg, direct_svg("size", 400, 300, "#123456", "#abcdef"));
    assert!(svg.contains("fill=\"#123456\""));
    assert!(svg.contains("fill=\"#abcdef\""));
    assert_ne!(svg, direct_svg("size", 200, 200, "#000000", "#ffffff"));
}

#[test]
fn encoding_twice_gives_identical_output() {
    let a = make_qr_code(EncodeRequest::with_text("same input")).unwrap();
    let b = make_qr_code(EncodeRequest::with_text("same input")).unwrap();
    assert_eq!(a, b);
    let c = make_qr_code(EncodeRequest::with_text("other input")).unwrap();
    assert_ne!(a, c);
}

#[test]
fn empty_and_non_ascii_text_encode() {
    let empty = make_qr_code(EncodeRequest::with_text("")).unwrap();
    assert_eq!(payload_svg(&empty), direct_svg("", 200, 200, "#000000", "#ffffff"));
    let kana = make_qr_code(EncodeRequest::with_text("テキスト")).unwrap();
    assert_eq!(payload_svg(&kana), direct_svg("テキスト", 200, 200, "#000000", "#ffffff"));
}

#[test]
fn capacity_boundary_for_byte_text() {
    let below = "a".repeat(2330);
    let at = "a".repeat(2331);
    let above = "a".repeat(2332);
    assert!(make_qr_code(EncodeRequest::with_text(&below)).is_ok());
    assert!(make_qr_code(EncodeRequest::with_text(&at)).is_ok());
    assert_eq!(
        make_qr_code(EncodeRequest::with_text(&above)),
        Err(EncodeError::Unrepresentable)
    );
}

#[test]
fn far_too_long_text_is_unrepresentable() {
    let long = "x".repeat(10000);
    assert_eq!(
        make_qr_code(EncodeRequest::with_text(&long)),
        Err(EncodeError::Unrepresentable)
    );
}
