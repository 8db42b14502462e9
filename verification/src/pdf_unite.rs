//! The `pdfunite` facade: merging documents.
//!
//! `pdfunite [options] <input PDF files> <output PDF file>` takes every file
//! as a positional argument, the output file last; the caller supplies the
//! output path as the final entry of the input list. The wrapper appends
//! nothing of its own after the caller's files, and puts nothing before its
//! option tokens.

use vstd::prelude::*;
use crate::encode::{opt_flag, push_flag, toks};
use crate::utils::{Invocation, PopplerFile};

verus! {

/// Options for `pdfunite`; a flag is passed to the tool only when the field
/// deviates from its default.
pub struct PdfUniteConfig {
    pub print_version: bool,
    pub print_help: bool,
}

impl PdfUniteConfig {
    /// Every field at its documented default.
    pub open spec fn is_default(self) -> bool {
        &&& !self.print_version
        &&& !self.print_help
    }
}

impl Default for PdfUniteConfig {
    fn default() -> (r: Self)
        ensures
            r.is_default(),
    {
        Self { print_version: false, print_help: false }
    }
}

/// The option token list `pdfunite` is given for a configuration.
pub open spec fn pdf_unite_tokens(c: PdfUniteConfig) -> Seq<Seq<char>> {
    opt_flag(c.print_version, "-v"@) + opt_flag(c.print_help, "-h"@)
}

/// A configuration left wholly at its defaults encodes to no tokens at all.
pub proof fn lemma_pdf_unite_defaults_silent(c: PdfUniteConfig)
    requires
        c.is_default(),
    ensures
        pdf_unite_tokens(c) == Seq::<Seq<char>>::empty(),
{
    assert(pdf_unite_tokens(c) =~= Seq::<Seq<char>>::empty());
}

/// The trailing positional arguments for the supplied files, in the order
/// given: each file contributes exactly one argument, its path or its buffer
/// decoded as UTF-8 with invalid sequences replaced.
pub open spec fn unite_file_args(files: Seq<PopplerFile>) -> Seq<Seq<char>> {
    files.map_values(|f: PopplerFile| f.spec_arg_text())
}

/// Encodes the configuration into `pdfunite`'s option tokens.
pub fn parse_options(options: &PdfUniteConfig) -> (r: Vec<String>)
    ensures
        toks(r@) == pdf_unite_tokens(*options),
{
    let mut v: Vec<String> = Vec::new();
    push_flag(&mut v, options.print_version, "-v");
    proof {
        assert(toks(v@) =~= opt_flag(options.print_version, "-v"@));
    }
    push_flag(&mut v, options.print_help, "-h");
    v
}

/// Plans a `pdfunite` call: the option tokens first, then every supplied
/// file as a positional argument in the order given. No standard-input pipe
/// is opened and no output path is appended: the caller's list carries it.
pub fn pdf_unite(files: Vec<PopplerFile>, options: PdfUniteConfig) -> (r: Invocation)
    ensures
        r.program@ == "pdfunite"@,
        toks(r.args@) == pdf_unite_tokens(options) + unite_file_args(files@),
        r.stdin_payload is None,
{
    let mut v = parse_options(&options);
    let ghost base = toks(v@);
    let ghost all = files@;
    let mut files = files;
    let n = files.len();
    let mut i: usize = 0;
    while i < n
        invariant
            n == all.len(),
            i <= n,
            files@ == all.skip(i as int),
            toks(v@) == base + unite_file_args(all.take(i as int)),
        decreases n - i,
    {
        let f = files.remove(0);
        proof {
            assert(f == all[i as int]);
        }
        let ghost tv = toks(v@);
        let t = f.arg_text();
        v.push(t);
        i = i + 1;
        proof {
            assert(toks(v@) =~= tv.push(f.spec_arg_text()));
            let k = i as int;
            assert(files@ =~= all.skip(k));
            assert(all.take(k) =~= all.take(k - 1).push(all[k - 1]));
            assert(unite_file_args(all.take(k)) =~= unite_file_args(all.take(k - 1)).push(
                all[k - 1].spec_arg_text(),
            ));
            assert(toks(v@) =~= base + unite_file_args(all.take(k)));
        }
    }
    proof {
        assert(all.take(n as int) =~= all);
    }
    Invocation { program: "pdfunite".to_owned(), args: v, stdin_payload: None }
}

} // verus!
