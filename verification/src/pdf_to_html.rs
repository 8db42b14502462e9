//! The `pdftohtml` facade: HTML conversion.

use vstd::prelude::*;
use crate::decimal::Decimal;
use crate::encode::{
    opt_dec, opt_flag, opt_i32, opt_text, push_dec, push_flag, push_i32, push_text, toks,
};
use crate::utils::{build_invocation, Invocation, PopplerFile};

verus! {

/// Options for `pdftohtml`; a flag is passed to the tool only when the field
/// deviates from its default. The output directory, a positional value with
/// no flag of its own, trails the option tokens when set.
pub struct PdfToHtmlConfig<'a> {
    pub output_path: &'a str,
    pub first_page_to_convert: i32,
    pub last_page_to_convert: i32,
    pub quiet: bool,
    pub raw_order: bool,
    pub print_commands: bool,
    pub print_help: bool,
    pub exchange_pdf_links: bool,
    pub complex_output: bool,
    pub single_page: bool,
    pub data_urls: bool,
    pub ignore_images: bool,
    pub no_frames: bool,
    pub stdout: bool,
    pub zoom: Decimal,
    pub xml_output: bool,
    pub no_rounded_coordinates: bool,
    pub extract_hidden: bool,
    pub no_merge_paragraph: bool,
    pub output_encoding: &'a str,
    pub image_format: &'a str,
    pub print_version_info: bool,
    pub owner_password: &'a str,
    pub user_password: &'a str,
    pub no_drm: bool,
    pub word_break_threshold: Decimal,
    pub font_full_name: bool,
}

impl<'a> PdfToHtmlConfig<'a> {
    /// Every decimal field in canonical form.
    pub open spec fn wf(self) -> bool {
        &&& self.zoom.wf()
        &&& self.word_break_threshold.wf()
    }

    /// Decides well-formedness, as `wf` says.
    pub fn check_wf(&self) -> (r: bool)
        ensures
            r == self.wf(),
    {
        self.zoom.check_wf() && self.word_break_threshold.check_wf()
    }

    /// Every field at its documented default.
    pub open spec fn is_default(self) -> bool {
        &&& self.output_path@ == ""@
        &&& self.first_page_to_convert == 1
        &&& self.last_page_to_convert == 0
        &&& !self.quiet
        &&& !self.raw_order
        &&& !self.print_commands
        &&& !self.print_help
        &&& !self.exchange_pdf_links
        &&& !self.complex_output
        &&& !self.single_page
        &&& !self.data_urls
        &&& !self.ignore_images
        &&& !self.no_frames
        &&& !self.stdout
        &&& self.zoom == (Decimal { mantissa: 15, scale: 1 })
        &&& !self.xml_output
        &&& !self.no_rounded_coordinates
        &&& !self.extract_hidden
        &&& !self.no_merge_paragraph
        &&& self.output_encoding@ == ""@
        &&& self.image_format@ == "png"@
        &&& !self.print_version_info
        &&& self.owner_password@ == ""@
        &&& self.user_password@ == ""@
        &&& !self.no_drm
        &&& self.word_break_threshold == (Decimal { mantissa: 10, scale: 0 })
        &&& !self.font_full_name
    }
}

impl<'a> Default for PdfToHtmlConfig<'a> {
    fn default() -> (r: Self)
        ensures
            r.is_default(),
            r.wf(),
    {
        Self {
            output_path: "",
            first_page_to_convert: 1,
            last_page_to_convert: 0,
            raw_order: false,
            print_commands: false,
            print_help: false,
            quiet: false,
            exchange_pdf_links: false,
            complex_output: false,
            single_page: false,
            data_urls: false,
            ignore_images: false,
            no_frames: false,
            stdout: false,
            zoom: Decimal { mantissa: 15, scale: 1 },
            xml_output: false,
            no_rounded_coordinates: false,
            extract_hidden: false,
            no_merge_paragraph: false,
            output_encoding: "",
            image_format: "png",
            print_version_info: false,
            owner_password: "",
            user_password: "",
            no_drm: false,
            word_break_threshold: Decimal { mantissa: 10, scale: 0 },
            font_full_name: false,
        }
    }
}

/// The full ordered token list `pdftohtml` is given for a configuration.
pub open spec fn pdf_to_html_tokens(c: PdfToHtmlConfig) -> Seq<Seq<char>> {
    opt_i32(c.first_page_to_convert, 1, "-f"@) + opt_i32(c.last_page_to_convert, 0, "-l"@)
        + opt_flag(c.quiet, "-q"@) + opt_flag(c.exchange_pdf_links, "-p"@) + opt_flag(
        c.single_page,
        "-s"@,
    ) + opt_flag(c.raw_order, "-raw"@) + opt_flag(c.print_commands, "-c"@) + opt_flag(
        c.print_help,
        "-h"@,
    ) + opt_flag(c.complex_output, "-c"@) + opt_flag(c.data_urls, "-dataurls"@) + opt_flag(
        c.ignore_images,
        "-i"@,
    ) + opt_text(c.image_format@, "png"@, "-fmt"@) + opt_dec(
        c.zoom,
        Decimal { mantissa: 15, scale: 1 },
        "-zoom"@,
    ) + opt_flag(c.no_frames, "-noframes"@) + opt_flag(c.stdout, "-stdout"@) + opt_flag(
        c.xml_output,
        "-xml"@,
    ) + opt_flag(c.no_rounded_coordinates, "-noroundcoord"@) + opt_flag(
        c.extract_hidden,
        "-hidden"@,
    ) + opt_flag(c.no_merge_paragraph, "-nomerge"@) + opt_text(c.output_encoding@, ""@, "-enc"@)
        + opt_flag(c.print_version_info, "-v"@) + opt_text(c.owner_password@, ""@, "-opw"@)
        + opt_text(c.user_password@, ""@, "-upw"@) + opt_flag(c.no_drm, "-nodrm"@) + opt_dec(
        c.word_break_threshold,
        Decimal { mantissa: 10, scale: 0 },
        "-wbt"@,
    ) + opt_flag(c.font_full_name, "-fontfullname"@) + opt_flag(
        c.output_path@.len() != 0,
        c.output_path@,
    )
}

/// A configuration left wholly at its defaults encodes to no tokens at all.
pub proof fn lemma_pdf_to_html_defaults_silent(c: PdfToHtmlConfig)
    requires
        c.is_default(),
    ensures
        pdf_to_html_tokens(c) == Seq::<Seq<char>>::empty(),
{
    reveal_strlit("");
    assert(pdf_to_html_tokens(c) =~= Seq::<Seq<char>>::empty());
}

/// Encodes the configuration's leading fields, `-f` through `-zoom`, in the
/// tool's fixed order.
fn parse_options_front(options: &PdfToHtmlConfig) -> (r: Vec<String>)
    requires
        options.wf(),
    ensures
        toks(r@) == opt_i32(options.first_page_to_convert, 1, "-f"@) + opt_i32(
            options.last_page_to_convert,
            0,
            "-l"@,
        ) + opt_flag(options.quiet, "-q"@) + opt_flag(options.exchange_pdf_links, "-p"@) + opt_flag(
            options.single_page,
            "-s"@,
        ) + opt_flag(options.raw_order, "-raw"@) + opt_flag(options.print_commands, "-c"@)
            + opt_flag(options.print_help, "-h"@) + opt_flag(options.complex_output, "-c"@)
            + opt_flag(options.data_urls, "-dataurls"@) + opt_flag(options.ignore_images, "-i"@)
            + opt_text(options.image_format@, "png"@, "-fmt"@) + opt_dec(
            options.zoom,
            Decimal { mantissa: 15, scale: 1 },
            "-zoom"@,
        ),
{
    let mut v: Vec<String> = Vec::new();
    push_i32(&mut v, options.first_page_to_convert, 1, "-f");
    proof {
        assert(toks(v@) =~= opt_i32(options.first_page_to_convert, 1, "-f"@));
    }
    push_i32(&mut v, options.last_page_to_convert, 0, "-l");
    push_flag(&mut v, options.quiet, "-q");
    push_flag(&mut v, options.exchange_pdf_links, "-p");
    push_flag(&mut v, options.single_page, "-s");
    push_flag(&mut v, options.raw_order, "-raw");
    push_flag(&mut v, options.print_commands, "-c");
    push_flag(&mut v, options.print_help, "-h");
    push_flag(&mut v, options.complex_output, "-c");
    push_flag(&mut v, options.data_urls, "-dataurls");
    push_flag(&mut v, options.ignore_images, "-i");
    push_text(&mut v, options.image_format, "png", "-fmt");
    push_dec(&mut v, options.zoom, Decimal { mantissa: 15, scale: 1 }, "-zoom");
    v
}

/// Encodes the configuration into `pdftohtml`'s argument tokens, field by
/// field in the tool's fixed order, the output directory last.
pub fn parse_options(options: &PdfToHtmlConfig) -> (r: Vec<String>)
    requires
        options.wf(),
    ensures
        toks(r@) == pdf_to_html_tokens(*options),
{
    let mut v = parse_options_front(options);
    push_flag(&mut v, options.no_frames, "-noframes");
    push_flag(&mut v, options.stdout, "-stdout");
    push_flag(&mut v, options.xml_output, "-xml");
    push_flag(&mut v, options.no_rounded_coordinates, "-noroundcoord");
    push_flag(&mut v, options.extract_hidden, "-hidden");
    push_flag(&mut v, options.no_merge_paragraph, "-nomerge");
    push_text(&mut v, options.output_encoding, "", "-enc");
    push_flag(&mut v, options.print_version_info, "-v");
    push_text(&mut v, options.owner_password, "", "-opw");
    push_text(&mut v, options.user_password, "", "-upw");
    push_flag(&mut v, options.no_drm, "-nodrm");
    push_dec(&mut v, options.word_break_threshold, Decimal { mantissa: 10, scale: 0 }, "-wbt");
    push_flag(&mut v, options.font_full_name, "-fontfullname");
    push_flag(&mut v, !options.output_path.is_empty(), options.output_path);
    v
}

/// Plans a `pdftohtml` call: the input's leading argument, then the encoded
/// options; a buffer input is owed to standard input.
pub fn pdf_to_html(file: PopplerFile, options: PdfToHtmlConfig<'static>) -> (r: Invocation)
    requires
        options.wf(),
    ensures
        r.program@ == "pdftohtml"@,
        toks(r.args@) == seq![file.input_token()] + pdf_to_html_tokens(options),
        file.is_buffer() ==> r.stdin_bytes() == Some(file.buffer_bytes()),
        !file.is_buffer() ==> r.stdin_payload is None,
{
    let parsed_options = parse_options(&options);
    build_invocation(file, "pdftohtml", parsed_options)
}

} // verus!
