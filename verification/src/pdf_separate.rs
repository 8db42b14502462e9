//! The `pdfseparate` facade: splitting a document into one file per page.

use vstd::prelude::*;
use crate::encode::{opt_flag, opt_i32, push_flag, push_i32, toks};
use crate::utils::{build_invocation, Invocation, PopplerFile};

verus! {

/// Options for `pdfseparate`; a flag is passed to the tool only when the
/// field deviates from its default.
pub struct PdfSeparateConfig {
    pub first_page: i32,
    pub last_page: i32,
    pub print_version: bool,
    pub print_help: bool,
}

impl PdfSeparateConfig {
    /// Every field at its documented default.
    pub open spec fn is_default(self) -> bool {
        &&& self.first_page == 1
        &&& self.last_page == 0
        &&& !self.print_version
        &&& !self.print_help
    }
}

impl Default for PdfSeparateConfig {
    fn default() -> (r: Self)
        ensures
            r.is_default(),
    {
        Self { first_page: 1, last_page: 0, print_version: false, print_help: false }
    }
}

/// The full ordered token list `pdfseparate` is given for a configuration.
pub open spec fn pdf_separate_tokens(c: PdfSeparateConfig) -> Seq<Seq<char>> {
    opt_i32(c.first_page, 1, "-f"@) + opt_i32(c.last_page, 0, "-l"@) + opt_flag(
        c.print_version,
        "-v"@,
    ) + opt_flag(c.print_help, "-h"@)
}

/// A configuration left wholly at its defaults encodes to no tokens at all.
pub proof fn lemma_pdf_separate_defaults_silent(c: PdfSeparateConfig)
    requires
        c.is_default(),
    ensures
        pdf_separate_tokens(c) == Seq::<Seq<char>>::empty(),
{
    assert(pdf_separate_tokens(c) =~= Seq::<Seq<char>>::empty());
}

/// Encodes the configuration into `pdfseparate`'s argument tokens, field by
/// field in the tool's fixed order.
pub fn parse_options(options: &PdfSeparateConfig) -> (r: Vec<String>)
    ensures
        toks(r@) == pdf_separate_tokens(*options),
{
    let mut v: Vec<String> = Vec::new();
    push_i32(&mut v, options.first_page, 1, "-f");
    proof {
        assert(toks(v@) =~= opt_i32(options.first_page, 1, "-f"@));
    }
    push_i32(&mut v, options.last_page, 0, "-l");
    push_flag(&mut v, options.print_version, "-v");
    push_flag(&mut v, options.print_help, "-h");
    v
}

/// Plans a `pdfseparate` call: the input's leading argument, then the
/// encoded options; a buffer input is owed to standard input.
pub fn pdf_separate(file: PopplerFile, options: PdfSeparateConfig) -> (r: Invocation)
    ensures
        r.program@ == "pdfseparate"@,
        toks(r.args@) == seq![file.input_token()] + pdf_separate_tokens(options),
        file.is_buffer() ==> r.stdin_bytes() == Some(file.buffer_bytes()),
        !file.is_buffer() ==> r.stdin_payload is None,
{
    let parsed_options = parse_options(&options);
    build_invocation(file, "pdfseparate", parsed_options)
}

} // verus!
