use poppler_utils::decimal::Decimal;
use poppler_utils::numeral::{i32_to_text, u64_to_text};
use poppler_utils::pdf_images::{pdf_image, PdfImagesConfig};
use poppler_utils::pdf_info::{self, PdfInfoConfig};
use poppler_utils::pdf_separate::{self, PdfSeparateConfig};
use poppler_utils::pdf_to_html::{self, PdfToHtmlConfig};
use poppler_utils::pdf_to_text::{self, PdfToTextConfig};
use poppler_utils::utils::AsPopplerPath;

#[test]
fn integers_render_in_base_ten() {
    assert_eq!(u64_to_text(0), "0");
    assert_eq!(u64_to_text(7), "7");
    assert_eq!(u64_to_text(1234567890), "1234567890");
    assert_eq!(i32_to_text(-45), "-45");
    assert_eq!(i32_to_text(2147483647), "2147483647");
    assert_eq!(i32_to_text(-2147483648), "-2147483648");
}

#[test]
fn decimals_render_shortest_and_lossless() {
    assert_eq!(Decimal::new(15, 1).to_text(), "1.5");
    assert_eq!(Decimal::new(7, 1).to_text(), "0.7");
    assert_eq!(Decimal::new(20, 1).to_text(), "2");
    assert_eq!(Decimal::new(70, 2).to_text(), "0.7");
    assert_eq!(Decimal::new(0, 3).to_text(), "0");
    assert_eq!(Decimal::new(1025, 2).to_text(), "10.25");
    assert_eq!(Decimal::whole(72).to_text(), "72");
}

#[test]
fn default_configs_emit_no_tokens() {
    assert!(pdf_info::parse_options(&PdfInfoConfig::default()).is_empty());
    assert!(pdf_separate::parse_options(&PdfSeparateConfig::default()).is_empty());
    assert!(pdf_to_text::parse_options(&PdfToTextConfig::default()).is_empty());
    assert!(pdf_to_html::parse_options(&PdfToHtmlConfig::default()).is_empty());
    assert!(
        poppler_utils::pdf_images::parse_options(&PdfImagesConfig::default()).is_empty()
    );
    assert!(
        poppler_utils::pdf_unite::parse_options(
            &poppler_utils::pdf_unite::PdfUniteConfig::default()
        )
        .is_empty()
    );
}

#[test]
fn boolean_field_adds_exactly_its_token() {
    let config = PdfInfoConfig { print_boxes: true, ..PdfInfoConfig::default() };
    assert_eq!(pdf_info::parse_options(&config), vec!["-b".to_string()]);

    let config = PdfImagesConfig { png_file: true, ..PdfImagesConfig::default() };
    assert_eq!(
        poppler_utils::pdf_images::parse_options(&config),
        vec!["-png".to_string()]
    );
}

#[test]
fn numeric_field_emits_single_joined_token() {
    let config = PdfInfoConfig { first_page: 3, last_page: 9, ..PdfInfoConfig::default() };
    assert_eq!(
        pdf_info::parse_options(&config),
        vec!["-f 3".to_string(), "-l 9".to_string()]
    );

    let config = PdfSeparateConfig { first_page: -2, ..PdfSeparateConfig::default() };
    assert_eq!(pdf_separate::parse_options(&config), vec!["-f -2".to_string()]);
}

#[test]
fn string_field_emits_single_joined_token() {
    let config = PdfInfoConfig {
        output_encoding: "UTF-8",
        owner_password: "hunter",
        ..PdfInfoConfig::default()
    };
    assert_eq!(
        pdf_info::parse_options(&config),
        vec!["-enc UTF-8".to_string(), "-opw hunter".to_string()]
    );
}

#[test]
fn decimal_field_emits_rendered_value() {
    let config = PdfToTextConfig {
        resolution: Decimal::new(300, 0),
        column_spacing: Decimal::new(20, 1),
        ..PdfToTextConfig::default()
    };
    assert_eq!(
        pdf_to_text::parse_options(&config),
        vec!["-r 300".to_string(), "-colspacing 2".to_string()]
    );
}

#[test]
fn decimal_field_at_default_value_is_silent_after_normalising() {
    // 7.0 tenths-of-tenths is the documented 0.7 default: no token.
    let config = PdfToTextConfig {
        column_spacing: Decimal::new(70, 2),
        ..PdfToTextConfig::default()
    };
    assert!(pdf_to_text::parse_options(&config).is_empty());
}

#[test]
fn pdf_to_text_layout_scenario() {
    let config = PdfToTextConfig { maintain_layout: true, ..PdfToTextConfig::default() };
    let invocation = pdf_to_text::pdf_to_text("sample.pdf".as_poppler_path(), config);
    assert_eq!(invocation.program, "pdftotext");
    assert_eq!(
        invocation.args,
        vec!["sample.pdf".to_string(), "-layout".to_string()]
    );
    assert!(invocation.stdin_payload.is_none());
}

#[test]
fn pdf_to_html_format_zoom_and_output_path() {
    let config = PdfToHtmlConfig {
        image_format: "jpg",
        zoom: Decimal::new(2, 0),
        output_path: "outdir",
        ..PdfToHtmlConfig::default()
    };
    assert_eq!(
        pdf_to_html::parse_options(&config),
        vec!["-fmt jpg".to_string(), "-zoom 2".to_string(), "outdir".to_string()]
    );
}

#[test]
fn pdf_image_plans_the_pdfimages_call() {
    let config = PdfImagesConfig { list: true, ..PdfImagesConfig::default() };
    let invocation = pdf_image("book.pdf".as_poppler_path(), config);
    assert_eq!(invocation.program, "pdfimages");
    assert_eq!(invocation.args, vec!["book.pdf".to_string(), "-list".to_string()]);
    assert!(invocation.stdin_payload.is_none());
}
