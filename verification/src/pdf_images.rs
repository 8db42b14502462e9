//! The `pdfimages` facade: image extraction.

use vstd::prelude::*;
use crate::encode::{opt_flag, opt_i32, opt_text, push_flag, push_i32, push_text, toks};
use crate::utils::{build_invocation, Invocation, PopplerFile};

verus! {

/// Options for `pdfimages`; a flag is passed to the tool only when the field
/// deviates from its default.
pub struct PdfImagesConfig<'a> {
    pub first_page: i32,
    pub last_page: i32,
    pub all_files: bool,
    pub ccitt_file: bool,
    pub list: bool,
    pub jbig2_file: bool,
    pub jpeg2000_file: bool,
    pub jpeg_file: bool,
    pub png_file: bool,
    pub tiff_file: bool,
    pub owner_password: &'a str,
    pub user_password: &'a str,
    pub print_version: bool,
    pub print_help: bool,
}

impl<'a> PdfImagesConfig<'a> {
    /// Every field at its documented default.
    pub open spec fn is_default(self) -> bool {
        &&& self.first_page == 1
        &&& self.last_page == 0
        &&& !self.all_files
        &&& !self.ccitt_file
        &&& !self.list
        &&& !self.jbig2_file
        &&& !self.jpeg2000_file
        &&& !self.jpeg_file
        &&& !self.png_file
        &&& !self.tiff_file
        &&& self.owner_password@ == ""@
        &&& self.user_password@ == ""@
        &&& !self.print_version
        &&& !self.print_help
    }
}

impl<'a> Default for PdfImagesConfig<'a> {
    fn default() -> (r: Self)
        ensures
            r.is_default(),
    {
        Self {
            first_page: 1,
            last_page: 0,
            all_files: false,
            ccitt_file: false,
            list: false,
            jbig2_file: false,
            jpeg2000_file: false,
            jpeg_file: false,
            png_file: false,
            tiff_file: false,
            owner_password: "",
            user_password: "",
            print_version: false,
            print_help: false,
        }
    }
}

/// The full ordered token list `pdfimages` is given for a configuration.
pub open spec fn pdf_images_tokens(c: PdfImagesConfig) -> Seq<Seq<char>> {
    opt_i32(c.first_page, 1, "-f"@) + opt_i32(c.last_page, 0, "-l"@) + opt_flag(
        c.all_files,
        "-all"@,
    ) + opt_flag(c.ccitt_file, "-ccitt"@) + opt_flag(c.list, "-list"@) + opt_flag(
        c.jbig2_file,
        "-jbig2"@,
    ) + opt_flag(c.jpeg2000_file, "-jp2"@) + opt_flag(c.jpeg_file, "-j"@) + opt_flag(
        c.png_file,
        "-png"@,
    ) + opt_flag(c.tiff_file, "-tiff"@) + opt_text(c.owner_password@, ""@, "-opw"@) + opt_text(
        c.user_password@,
        ""@,
        "-upw"@,
    ) + opt_flag(c.print_version, "-v"@) + opt_flag(c.print_help, "-h"@)
}

/// A configuration left wholly at its defaults encodes to no tokens at all.
pub proof fn lemma_pdf_images_defaults_silent(c: PdfImagesConfig)
    requires
        c.is_default(),
    ensures
        pdf_images_tokens(c) == Seq::<Seq<char>>::empty(),
{
    assert(pdf_images_tokens(c) =~= Seq::<Seq<char>>::empty());
}

/// Encodes the configuration into `pdfimages`'s argument tokens, field by
/// field in the tool's fixed order.
pub fn parse_options(options: &PdfImagesConfig) -> (r: Vec<String>)
    ensures
        toks(r@) == pdf_images_tokens(*options),
{
    let mut v: Vec<String> = Vec::new();
    push_i32(&mut v, options.first_page, 1, "-f");
    proof {
        assert(toks(v@) =~= opt_i32(options.first_page, 1, "-f"@));
    }
    push_i32(&mut v, options.last_page, 0, "-l");
    push_flag(&mut v, options.all_files, "-all");
    push_flag(&mut v, options.ccitt_file, "-ccitt");
    push_flag(&mut v, options.list, "-list");
    push_flag(&mut v, options.jbig2_file, "-jbig2");
    push_flag(&mut v, options.jpeg2000_file, "-jp2");
    push_flag(&mut v, options.jpeg_file, "-j");
    push_flag(&mut v, options.png_file, "-png");
    push_flag(&mut v, options.tiff_file, "-tiff");
    push_text(&mut v, options.owner_password, "", "-opw");
    push_text(&mut v, options.user_password, "", "-upw");
    push_flag(&mut v, options.print_version, "-v");
    push_flag(&mut v, options.print_help, "-h");
    v
}

/// Plans a `pdfimages` call: the input's leading argument, then the encoded
/// options; a buffer input is owed to standard input.
pub fn pdf_image(file: PopplerFile, options: PdfImagesConfig<'static>) -> (r: Invocation)
    ensures
        r.program@ == "pdfimages"@,
        toks(r.args@) == seq![file.input_token()] + pdf_images_tokens(options),
        file.is_buffer() ==> r.stdin_bytes() == Some(file.buffer_bytes()),
        !file.is_buffer() ==> r.stdin_payload is None,
{
    let parsed_options = parse_options(&options);
    build_invocation(file, "pdfimages", parsed_options)
}

} // verus!
