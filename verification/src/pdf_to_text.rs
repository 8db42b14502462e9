//! The `pdftotext` facade: text extraction.

use vstd::prelude::*;
use crate::decimal::Decimal;
use crate::encode::{
    opt_dec, opt_flag, opt_i32, opt_text, push_dec, push_flag, push_i32, push_text, toks,
};
use crate::utils::{build_invocation, Invocation, PopplerFile};

verus! {

/// Options for `pdftotext`; a flag is passed to the tool only when the field
/// deviates from its default. Fractional values (crop sizes, resolution,
/// column spacing) are exact decimals.
pub struct PdfToTextConfig<'a> {
    pub bounding_box_xhtml: bool,
    pub bounding_box_xhtml_layout: bool,
    pub crop_box: bool,
    pub h: Decimal,
    pub w: Decimal,
    pub x: Decimal,
    pub y: Decimal,
    pub eol_convention: &'a str,
    pub first_page_to_convert: i32,
    pub fixed_width_layout: Decimal,
    pub generate_html_meta_file: bool,
    pub generate_tsv_file: bool,
    pub last_page_to_convert: i32,
    pub list_encoding_options: bool,
    pub maintain_layout: bool,
    pub no_diagonal_text: bool,
    pub no_page_breaks: bool,
    pub output_encoding: &'a str,
    pub owner_password: &'a str,
    pub print_version_info: bool,
    pub quiet: bool,
    pub raw_layout: bool,
    pub resolution: Decimal,
    pub user_password: &'a str,
    pub print_help: bool,
    pub column_spacing: Decimal,
}

impl<'a> PdfToTextConfig<'a> {
    /// Every decimal field in canonical form.
    pub open spec fn wf(self) -> bool {
        &&& self.h.wf()
        &&& self.w.wf()
        &&& self.x.wf()
        &&& self.y.wf()
        &&& self.fixed_width_layout.wf()
        &&& self.resolution.wf()
        &&& self.column_spacing.wf()
    }

    /// Decides well-formedness, as `wf` says.
    pub fn check_wf(&self) -> (r: bool)
        ensures
            r == self.wf(),
    {
        self.h.check_wf() && self.w.check_wf() && self.x.check_wf() && self.y.check_wf()
            && self.fixed_width_layout.check_wf() && self.resolution.check_wf()
            && self.column_spacing.check_wf()
    }

    /// Every field at its documented default.
    pub open spec fn is_default(self) -> bool {
        &&& !self.bounding_box_xhtml
        &&& !self.bounding_box_xhtml_layout
        &&& !self.crop_box
        &&& self.h == (Decimal { mantissa: 0, scale: 0 })
        &&& self.w == (Decimal { mantissa: 0, scale: 0 })
        &&& self.x == (Decimal { mantissa: 0, scale: 0 })
        &&& self.y == (Decimal { mantissa: 0, scale: 0 })
        &&& self.eol_convention@ == ""@
        &&& self.first_page_to_convert == 1
        &&& self.fixed_width_layout == (Decimal { mantissa: 0, scale: 0 })
        &&& !self.generate_html_meta_file
        &&& !self.generate_tsv_file
        &&& self.last_page_to_convert == 0
        &&& !self.list_encoding_options
        &&& !self.maintain_layout
        &&& !self.no_diagonal_text
        &&& !self.no_page_breaks
        &&& self.output_encoding@ == ""@
        &&& self.owner_password@ == ""@
        &&& !self.print_version_info
        &&& !self.quiet
        &&& !self.raw_layout
        &&& self.resolution == (Decimal { mantissa: 72, scale: 0 })
        &&& self.user_password@ == ""@
        &&& !self.print_help
        &&& self.column_spacing == (Decimal { mantissa: 7, scale: 1 })
    }
}

impl<'a> Default for PdfToTextConfig<'a> {
    fn default() -> (r: Self)
        ensures
            r.is_default(),
            r.wf(),
    {
        Self {
            bounding_box_xhtml: false,
            bounding_box_xhtml_layout: false,
            crop_box: false,
            h: Decimal { mantissa: 0, scale: 0 },
            w: Decimal { mantissa: 0, scale: 0 },
            x: Decimal { mantissa: 0, scale: 0 },
            y: Decimal { mantissa: 0, scale: 0 },
            column_spacing: Decimal { mantissa: 7, scale: 1 },
            eol_convention: "",
            first_page_to_convert: 1,
            fixed_width_layout: Decimal { mantissa: 0, scale: 0 },
            generate_html_meta_file: false,
            generate_tsv_file: false,
            last_page_to_convert: 0,
            list_encoding_options: false,
            maintain_layout: false,
            no_diagonal_text: false,
            no_page_breaks: false,
            output_encoding: "",
            owner_password: "",
            print_version_info: false,
            quiet: false,
            raw_layout: false,
            resolution: Decimal { mantissa: 72, scale: 0 },
            user_password: "",
            print_help: false,
        }
    }
}

/// The full ordered token list `pdftotext` is given for a configuration.
pub open spec fn pdf_to_text_tokens(c: PdfToTextConfig) -> Seq<Seq<char>> {
    opt_flag(c.bounding_box_xhtml, "-bbox"@) + opt_flag(c.bounding_box_xhtml_layout, "-bbox-layout"@)
        + opt_flag(c.crop_box, "-cropbox"@) + opt_dec(
        c.h,
        Decimal { mantissa: 0, scale: 0 },
        "-H"@,
    ) + opt_dec(c.w, Decimal { mantissa: 0, scale: 0 }, "-W"@) + opt_dec(
        c.x,
        Decimal { mantissa: 0, scale: 0 },
        "-x"@,
    ) + opt_dec(c.y, Decimal { mantissa: 0, scale: 0 }, "-y"@) + opt_text(
        c.eol_convention@,
        ""@,
        "-eol"@,
    ) + opt_i32(c.first_page_to_convert, 1, "-f"@) + opt_dec(
        c.fixed_width_layout,
        Decimal { mantissa: 0, scale: 0 },
        "-fixed"@,
    ) + opt_flag(c.generate_html_meta_file, "-htmlmeta"@) + opt_flag(c.generate_tsv_file, "-tsv"@)
        + opt_i32(c.last_page_to_convert, 0, "-l"@) + opt_flag(c.list_encoding_options, "-listenc"@)
        + opt_flag(c.maintain_layout, "-layout"@) + opt_flag(c.no_diagonal_text, "-nodiag"@)
        + opt_flag(c.no_page_breaks, "-nopgbrk"@) + opt_text(c.output_encoding@, ""@, "-enc"@)
        + opt_text(c.owner_password@, ""@, "-opw"@) + opt_flag(c.print_version_info, "-v"@)
        + opt_flag(c.quiet, "-q"@) + opt_flag(c.raw_layout, "-raw"@) + opt_dec(
        c.resolution,
        Decimal { mantissa: 72, scale: 0 },
        "-r"@,
    ) + opt_text(c.user_password@, ""@, "-upw"@) + opt_flag(c.print_help, "-h"@) + opt_dec(
        c.column_spacing,
        Decimal { mantissa: 7, scale: 1 },
        "-colspacing"@,
    )
}

/// A configuration left wholly at its defaults encodes to no tokens at all.
pub proof fn lemma_pdf_to_text_defaults_silent(c: PdfToTextConfig)
    requires
        c.is_default(),
    ensures
        pdf_to_text_tokens(c) == Seq::<Seq<char>>::empty(),
{
    assert(pdf_to_text_tokens(c) =~= Seq::<Seq<char>>::empty());
}

/// Encodes the configuration into `pdftotext`'s argument tokens, field by
/// field in the tool's fixed order.
pub fn parse_options(options: &PdfToTextConfig) -> (r: Vec<String>)
    requires
        options.wf(),
    ensures
        toks(r@) == pdf_to_text_tokens(*options),
{
    let mut v: Vec<String> = Vec::new();
    push_flag(&mut v, options.bounding_box_xhtml, "-bbox");
    proof {
        assert(toks(v@) =~= opt_flag(options.bounding_box_xhtml, "-bbox"@));
    }
    push_flag(&mut v, options.bounding_box_xhtml_layout, "-bbox-layout");
    push_flag(&mut v, options.crop_box, "-cropbox");
    push_dec(&mut v, options.h, Decimal { mantissa: 0, scale: 0 }, "-H");
    push_dec(&mut v, options.w, Decimal { mantissa: 0, scale: 0 }, "-W");
    push_dec(&mut v, options.x, Decimal { mantissa: 0, scale: 0 }, "-x");
    push_dec(&mut v, options.y, Decimal { mantissa: 0, scale: 0 }, "-y");
    push_text(&mut v, options.eol_convention, "", "-eol");
    push_i32(&mut v, options.first_page_to_convert, 1, "-f");
    push_dec(&mut v, options.fixed_width_layout, Decimal { mantissa: 0, scale: 0 }, "-fixed");
    push_flag(&mut v, options.generate_html_meta_file, "-htmlmeta");
    push_flag(&mut v, options.generate_tsv_file, "-tsv");
    push_i32(&mut v, options.last_page_to_convert, 0, "-l");
    push_flag(&mut v, options.list_encoding_options, "-listenc");
    push_flag(&mut v, options.maintain_layout, "-layout");
    push_flag(&mut v, options.no_diagonal_text, "-nodiag");
    push_flag(&mut v, options.no_page_breaks, "-nopgbrk");
    push_text(&mut v, options.output_encoding, "", "-enc");
    push_text(&mut v, options.owner_password, "", "-opw");
    push_flag(&mut v, options.print_version_info, "-v");
    push_flag(&mut v, options.quiet, "-q");
    push_flag(&mut v, options.raw_layout, "-raw");
    push_dec(&mut v, options.resolution, Decimal { mantissa: 72, scale: 0 }, "-r");
    push_text(&mut v, options.user_password, "", "-upw");
    push_flag(&mut v, options.print_help, "-h");
    push_dec(&mut v, options.column_spacing, Decimal { mantissa: 7, scale: 1 }, "-colspacing");
    v
}

/// Plans a `pdftotext` call: the input's leading argument, then the encoded
/// options; a buffer input is owed to standard input.
pub fn pdf_to_text(file: PopplerFile, options: PdfToTextConfig<'static>) -> (r: Invocation)
    requires
        options.wf(),
    ensures
        r.program@ == "pdftotext"@,
        toks(r.args@) == seq![file.input_token()] + pdf_to_text_tokens(options),
        file.is_buffer() ==> r.stdin_bytes() == Some(file.buffer_bytes()),
        !file.is_buffer() ==> r.stdin_payload is None,
{
    let parsed_options = parse_options(&options);
    build_invocation(file, "pdftotext", parsed_options)
}

} // verus!
