//! Input normalisation, invocation planning and result mapping.
//!
//! A caller-supplied input becomes a [`PopplerFile`]: either a filesystem
//! path, passed to the tool as its leading argument, or an in-memory buffer,
//! streamed over standard input while the leading argument is the `-`
//! placeholder. [`build_invocation`] fixes that arrangement; [`finish_run`]
//! maps a finished child process's exit status and captured streams to the
//! library's result. Launching the child is the embedding program's part.

use vstd::prelude::*;
use crate::encode::toks;

verus! {

/// A normalised input: a filesystem path or an owned byte buffer.
pub enum PopplerFile {
    Path(PopplerFilePath),
    Buffer(PopplerFileBuffer),
}

/// A path input, kept as text and handed to the tool as an argument.
pub struct PopplerFilePath {
    path: String,
}

/// A buffer input, streamed to the tool over standard input.
pub struct PopplerFileBuffer {
    buffer: Vec<u8>,
}

impl PopplerFile {
    /// Whether this input is an in-memory buffer.
    pub closed spec fn is_buffer(self) -> bool {
        self is Buffer
    }

    /// The path text of a path input.
    pub closed spec fn path_text(self) -> Seq<char>
        recommends
            !self.is_buffer(),
    {
        self->Path_0.path@
    }

    /// The bytes of a buffer input.
    pub closed spec fn buffer_bytes(self) -> Seq<u8>
        recommends
            self.is_buffer(),
    {
        self->Buffer_0.buffer@
    }

    /// The leading argument this input contributes: the path itself, or the
    /// `-` placeholder that tells the tool to read standard input.
    pub open spec fn input_token(self) -> Seq<char> {
        if self.is_buffer() {
            "-"@
        } else {
            self.path_text()
        }
    }

    /// The trailing argument this input contributes to a multi-file call:
    /// its path, or its buffer decoded as UTF-8 text, invalid sequences
    /// replaced — the same lossy decoding the captured streams get. Every
    /// supplied file contributes exactly one argument.
    pub open spec fn spec_arg_text(self) -> Seq<char> {
        if self.is_buffer() {
            lossy_text(self.buffer_bytes())
        } else {
            self.path_text()
        }
    }

    /// Renders this input as a plain argument, as `spec_arg_text` says.
    pub fn arg_text(self) -> (r: String)
        ensures
            r@ == self.spec_arg_text(),
    {
        match self {
            PopplerFile::Path(p) => p.path,
            PopplerFile::Buffer(b) => lossy_utf8(b.buffer.as_slice()),
        }
    }
}

/// Turns a textual value into a path input.
pub trait AsPopplerPath: View<V = Seq<char>> + Sized {
    /// Wraps the value as a path input; nothing is checked against the
    /// filesystem, the wrapped tool validates the path itself.
    fn as_poppler_path(self) -> (r: PopplerFile)
        ensures
            !r.is_buffer(),
            r.path_text() == self@,
    ;
}

impl AsPopplerPath for &str {
    fn as_poppler_path(self) -> (r: PopplerFile) {
        PopplerFile::Path(PopplerFilePath { path: self.to_owned() })
    }
}

impl AsPopplerPath for String {
    fn as_poppler_path(self) -> (r: PopplerFile) {
        PopplerFile::Path(PopplerFilePath { path: self })
    }
}

/// Turns an owned byte buffer into a buffer input.
pub trait AsPopplerBuffer: View<V = Seq<u8>> + Sized {
    /// Wraps the bytes as a buffer input; they will be streamed to the tool
    /// over standard input.
    fn as_poppler_buffer(self) -> (r: PopplerFile)
        ensures
            r.is_buffer(),
            r.buffer_bytes() == self@,
    ;
}

impl AsPopplerBuffer for Vec<u8> {
    fn as_poppler_buffer(self) -> (r: PopplerFile) {
        PopplerFile::Buffer(PopplerFileBuffer { buffer: self })
    }
}

/// A fully planned tool invocation: the program to run, its ordered argument
/// list, and the bytes owed to its standard input, if any.
pub struct Invocation {
    /// The tool's bare program name, `pdftotext` and the like.
    pub program: String,
    /// The ordered argument list: the input token first, then the options.
    pub args: Vec<String>,
    /// `Some` exactly for buffer inputs: the bytes to stream to the child's
    /// standard input. For path inputs no standard-input pipe is opened.
    pub stdin_payload: Option<Vec<u8>>,
}

impl Invocation {
    /// The planned standard-input bytes, if any.
    pub open spec fn stdin_bytes(self) -> Option<Seq<u8>> {
        match self.stdin_payload {
            Some(b) => Some(b@),
            None => None,
        }
    }
}

/// How a call can fail, stage by stage.
#[derive(Debug)]
pub enum PopplerError {
    /// The executable's location could not be resolved.
    ExecutableResolution,
    /// The executable could not be started.
    Spawn,
    /// The buffer could not be fully written to the child's standard input;
    /// the detail says how the write went wrong.
    StdinWrite(String),
    /// The child's completion could not be observed.
    Wait,
    /// The child exited with non-zero status; the detail is its trimmed
    /// standard-error text.
    ToolFailure(String),
}

impl PopplerError {
    /// A short description of the failure, as text.
    pub fn message(&self) -> (r: String)
        ensures
            self is ExecutableResolution ==> r@ == "Failed to get_path_to_executable"@,
            self is Spawn ==> r@ == "Failed to spawn child process"@,
            self is Wait ==> r@ == "Failed to wait for output from child process"@,
            self matches PopplerError::ToolFailure(t) ==> r@ == t@,
            self matches PopplerError::StdinWrite(t) ==> r@ == t@,
    {
        match self {
            PopplerError::ExecutableResolution => "Failed to get_path_to_executable".to_owned(),
            PopplerError::Spawn => "Failed to spawn child process".to_owned(),
            PopplerError::StdinWrite(t) => t.clone(),
            PopplerError::Wait => "Failed to wait for output from child process".to_owned(),
            PopplerError::ToolFailure(t) => t.clone(),
        }
    }
}

/// Lays out the child-process call for one input and a pre-encoded option
/// list: a buffer input puts the `-` placeholder first and owes its bytes to
/// standard input; a path input puts the path first and opens no
/// standard-input pipe.
pub fn build_invocation(file: PopplerFile, prog: &str, options: Vec<String>) -> (r: Invocation)
    ensures
        r.program@ == prog@,
        toks(r.args@) == seq![file.input_token()] + toks(options@),
        file.is_buffer() ==> r.stdin_bytes() == Some(file.buffer_bytes()),
        !file.is_buffer() ==> r.stdin_payload is None,
{
    let ghost opts0 = options@;
    let mut options = options;
    let mut args: Vec<String> = Vec::new();
    let stdin_payload: Option<Vec<u8>> = match file {
        PopplerFile::Buffer(b) => {
            args.push("-".to_owned());
            Some(b.buffer)
        },
        PopplerFile::Path(p) => {
            args.push(p.path);
            None
        },
    };
    args.append(&mut options);
    proof {
        assert(toks(args@) =~= seq![file.input_token()] + toks(opts0));
    }
    Invocation { program: prog.to_owned(), args, stdin_payload }
}

/// Maps a finished child process to the call's result: exit success yields
/// the trimmed standard-output text, whatever standard error held; exit
/// failure yields the trimmed standard-error text, the empty string when the
/// child wrote none.
pub fn finish_run(status_ok: bool, stdout: &[u8], stderr: &[u8]) -> (r: Result<
    String,
    PopplerError,
>)
    ensures
        status_ok ==> (r matches Ok(s) && s@ == trimmed(lossy_text(stdout@))),
        !status_ok ==> (r matches Err(e) && e matches PopplerError::ToolFailure(t) && t@
            == trimmed(lossy_text(stderr@))),
        !status_ok && stderr@.len() == 0 ==> (r matches Err(e)
            && e matches PopplerError::ToolFailure(t) && t@.len() == 0),
{
    if status_ok {
        Ok(trim_text(&lossy_utf8(stdout)))
    } else {
        Err(PopplerError::ToolFailure(trim_text(&lossy_utf8(stderr))))
    }
}

/// The text `String::from_utf8_lossy` decodes from the given bytes.
pub uninterp spec fn lossy_text(bytes: Seq<u8>) -> Seq<char>;

/// Relies on String::from_utf8_lossy: the decoding depends on the bytes
/// alone, and an empty byte string decodes to the empty string.
#[verifier::external_body]
fn lossy_utf8(bytes: &[u8]) -> (r: String)
    ensures
        r@ == lossy_text(bytes@),
        bytes@.len() == 0 ==> r@.len() == 0,
{
    String::from_utf8_lossy(bytes).into_owned()
}

/// The text `str::trim` leaves after removing leading and trailing
/// whitespace.
pub uninterp spec fn trimmed(text: Seq<char>) -> Seq<char>;

/// Relies on str::trim: the result depends on the characters alone, and an
/// empty string stays empty.
#[verifier::external_body]
fn trim_text(s: &String) -> (r: String)
    ensures
        r@ == trimmed(s@),
        s@.len() == 0 ==> r@.len() == 0,
{
    s.trim().to_string()
}

/// The three platform families the executable layout distinguishes.
#[derive(Clone, Copy, PartialEq, Eq, Structural, Debug)]
pub enum OsFamily {
    Windows,
    Mac,
    Unix,
}

/// The family an operating-system name falls under: `windows` stands alone,
/// `macos` and `ios` share one directory, everything else counts as Unix.
pub open spec fn family_of(os: Seq<char>) -> OsFamily {
    if os == "windows"@ {
        OsFamily::Windows
    } else if os == "macos"@ || os == "ios"@ {
        OsFamily::Mac
    } else {
        OsFamily::Unix
    }
}

/// Classifies an operating-system name, as `family_of` says.
pub fn os_family(os: &str) -> (r: OsFamily)
    ensures
        r == family_of(os@),
{
    let o = os.to_owned();
    if o == "windows".to_owned() {
        OsFamily::Windows
    } else if o == "macos".to_owned() {
        OsFamily::Mac
    } else if o == "ios".to_owned() {
        OsFamily::Mac
    } else {
        OsFamily::Unix
    }
}

/// The executable's path relative to the working directory:
/// `{family-dir}/bin/{prog}`, with an `.exe` ending on Windows.
pub open spec fn relative_path_text(family: OsFamily, prog: Seq<char>) -> Seq<char> {
    match family {
        OsFamily::Windows => "src/poppler/win/bin/"@ + prog + ".exe"@,
        OsFamily::Mac => "src/poppler/mac/bin/"@ + prog,
        OsFamily::Unix => "src/poppler/unix/bin/"@ + prog,
    }
}

/// Builds the executable's relative path for a platform family, as
/// `relative_path_text` says. Resolving it against the working directory is
/// the embedding program's part.
pub fn executable_relative_path(family: OsFamily, prog: &str) -> (r: String)
    ensures
        r@ == relative_path_text(family, prog@),
{
    match family {
        OsFamily::Windows => "src/poppler/win/bin/".to_owned().concat(prog).concat(".exe"),
        OsFamily::Mac => "src/poppler/mac/bin/".to_owned().concat(prog),
        OsFamily::Unix => "src/poppler/unix/bin/".to_owned().concat(prog),
    }
}

} // verus!
