//! The `pdfinfo` facade: document-information queries.

use vstd::prelude::*;
use crate::encode::{opt_flag, opt_i32, opt_text, push_flag, push_i32, push_text, toks};
use crate::utils::{build_invocation, Invocation, PopplerFile};

verus! {

/// Options for `pdfinfo`; a flag is passed to the tool only when the field
/// deviates from its default.
pub struct PdfInfoConfig<'a> {
    pub first_page: i32,
    pub last_page: i32,
    pub print_boxes: bool,
    pub print_metadata: bool,
    pub print_custom: bool,
    pub print_js: bool,
    pub print_structure: bool,
    pub print_structure_text: bool,
    pub iso_dates: bool,
    pub raw_dates: bool,
    pub print_dests: bool,
    pub print_urls: bool,
    pub output_encoding: &'a str,
    pub print_enc: bool,
    pub owner_password: &'a str,
    pub user_password: &'a str,
    pub print_version: bool,
    pub print_help: bool,
}

impl<'a> PdfInfoConfig<'a> {
    /// Every field at its documented default.
    pub open spec fn is_default(self) -> bool {
        &&& self.first_page == 1
        &&& self.last_page == 0
        &&& !self.print_boxes
        &&& !self.print_metadata
        &&& !self.print_custom
        &&& !self.print_js
        &&& !self.print_structure
        &&& !self.print_structure_text
        &&& !self.iso_dates
        &&& !self.raw_dates
        &&& !self.print_dests
        &&& !self.print_urls
        &&& self.output_encoding@ == ""@
        &&& !self.print_enc
        &&& self.owner_password@ == ""@
        &&& self.user_password@ == ""@
        &&& !self.print_version
        &&& !self.print_help
    }
}

impl<'a> Default for PdfInfoConfig<'a> {
    fn default() -> (r: Self)
        ensures
            r.is_default(),
    {
        Self {
            first_page: 1,
            last_page: 0,
            print_boxes: false,
            print_metadata: false,
            print_custom: false,
            print_js: false,
            print_structure: false,
            print_structure_text: false,
            iso_dates: false,
            raw_dates: false,
            print_dests: false,
            print_urls: false,
            output_encoding: "",
            print_enc: false,
            owner_password: "",
            user_password: "",
            print_version: false,
            print_help: false,
        }
    }
}

/// The full ordered token list `pdfinfo` is given for a configuration.
pub open spec fn pdf_info_tokens(c: PdfInfoConfig) -> Seq<Seq<char>> {
    opt_i32(c.first_page, 1, "-f"@) + opt_i32(c.last_page, 0, "-l"@) + opt_flag(
        c.print_boxes,
        "-b"@,
    ) + opt_flag(c.print_metadata, "-m"@) + opt_flag(c.print_custom, "-custom"@) + opt_flag(
        c.print_js,
        "-js"@,
    ) + opt_flag(c.print_structure, "-struct"@) + opt_flag(c.print_structure_text, "-struct-text"@)
        + opt_flag(c.iso_dates, "-iso-dates"@) + opt_flag(c.raw_dates, "-raw-dates"@) + opt_flag(
        c.print_dests,
        "-dests"@,
    ) + opt_flag(c.print_urls, "-urls"@) + opt_text(c.output_encoding@, ""@, "-enc"@) + opt_flag(
        c.print_enc,
        "-print-enc"@,
    ) + opt_text(c.owner_password@, ""@, "-opw"@) + opt_text(c.user_password@, ""@, "-upw"@)
        + opt_flag(c.print_version, "-v"@) + opt_flag(c.print_help, "-h"@)
}

/// A configuration left wholly at its defaults encodes to no tokens at all.
pub proof fn lemma_pdf_info_defaults_silent(c: PdfInfoConfig)
    requires
        c.is_default(),
    ensures
        pdf_info_tokens(c) == Seq::<Seq<char>>::empty(),
{
    assert(pdf_info_tokens(c) =~= Seq::<Seq<char>>::empty());
}

/// Encodes the configuration into `pdfinfo`'s argument tokens, field by
/// field in the tool's fixed order.
pub fn parse_options(options: &PdfInfoConfig) -> (r: Vec<String>)
    ensures
        toks(r@) == pdf_info_tokens(*options),
{
    let mut v: Vec<String> = Vec::new();
    push_i32(&mut v, options.first_page, 1, "-f");
    proof {
        assert(toks(v@) =~= opt_i32(options.first_page, 1, "-f"@));
    }
    push_i32(&mut v, options.last_page, 0, "-l");
    push_flag(&mut v, options.print_boxes, "-b");
    push_flag(&mut v, options.print_metadata, "-m");
    push_flag(&mut v, options.print_custom, "-custom");
    push_flag(&mut v, options.print_js, "-js");
    push_flag(&mut v, options.print_structure, "-struct");
    push_flag(&mut v, options.print_structure_text, "-struct-text");
    push_flag(&mut v, options.iso_dates, "-iso-dates");
    push_flag(&mut v, options.raw_dates, "-raw-dates");
    push_flag(&mut v, options.print_dests, "-dests");
    push_flag(&mut v, options.print_urls, "-urls");
    push_text(&mut v, options.output_encoding, "", "-enc");
    push_flag(&mut v, options.print_enc, "-print-enc");
    push_text(&mut v, options.owner_password, "", "-opw");
    push_text(&mut v, options.user_password, "", "-upw");
    push_flag(&mut v, options.print_version, "-v");
    push_flag(&mut v, options.print_help, "-h");
    v
}

/// Plans a `pdfinfo` call: the input's leading argument, then the encoded
/// options; a buffer input is owed to standard input.
pub fn pdf_info(file: PopplerFile, options: PdfInfoConfig<'static>) -> (r: Invocation)
    ensures
        r.program@ == "pdfinfo"@,
        toks(r.args@) == seq![file.input_token()] + pdf_info_tokens(options),
        file.is_buffer() ==> r.stdin_bytes() == Some(file.buffer_bytes()),
        !file.is_buffer() ==> r.stdin_payload is None,
{
    let parsed_options = parse_options(&options);
    build_invocation(file, "pdfinfo", parsed_options)
}

} // verus!
