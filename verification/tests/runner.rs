use poppler_utils::pdf_info::{pdf_info, PdfInfoConfig};
use poppler_utils::pdf_unite::{pdf_unite, PdfUniteConfig};
use poppler_utils::utils::{
    executable_relative_path, finish_run, os_family, AsPopplerBuffer, AsPopplerPath, OsFamily,
    PopplerError,
};

#[test]
fn buffer_input_uses_placeholder_and_pipes_stdin() {
    let bytes = vec![0x25u8, 0x50, 0x44, 0x46];
    let invocation = pdf_info(bytes.clone().as_poppler_buffer(), PdfInfoConfig::default());
    assert_eq!(invocation.args.first().map(String::as_str), Some("-"));
    assert_eq!(invocation.stdin_payload, Some(bytes));
}

#[test]
fn path_input_opens_no_stdin_pipe() {
    let invocation = pdf_info("input.pdf".as_poppler_path(), PdfInfoConfig::default());
    assert_eq!(invocation.args, vec!["input.pdf".to_string()]);
    assert!(invocation.stdin_payload.is_none());
}

#[test]
fn pdf_unite_keeps_paths_in_order_and_appends_nothing() {
    let files = vec![
        "first.pdf".as_poppler_path(),
        "second.pdf".as_poppler_path(),
        "merged.pdf".as_poppler_path(),
    ];
    let invocation = pdf_unite(files, PdfUniteConfig::default());
    assert_eq!(invocation.program, "pdfunite");
    assert_eq!(
        invocation.args,
        vec![
            "first.pdf".to_string(),
            "second.pdf".to_string(),
            "merged.pdf".to_string(),
        ]
    );
    assert!(invocation.stdin_payload.is_none());
}

#[test]
fn pdf_unite_with_no_files_and_defaults_takes_no_arguments() {
    let invocation = pdf_unite(Vec::new(), PdfUniteConfig::default());
    assert!(invocation.args.is_empty());
}

#[test]
fn pdf_unite_options_precede_the_files() {
    let files = vec!["one.pdf".as_poppler_path()];
    let config = PdfUniteConfig { print_version: true, ..PdfUniteConfig::default() };
    let invocation = pdf_unite(files, config);
    assert_eq!(invocation.args, vec!["-v".to_string(), "one.pdf".to_string()]);
}

#[test]
fn pdf_unite_decodes_every_buffer_replacing_invalid_utf8() {
    let files = vec![
        "a.pdf".to_string().as_poppler_path(),
        "b.pdf".as_bytes().to_vec().as_poppler_buffer(),
        vec![0xffu8, 0xfe].as_poppler_buffer(),
    ];
    let invocation = pdf_unite(files, PdfUniteConfig::default());
    assert_eq!(
        invocation.args,
        vec![
            "a.pdf".to_string(),
            "b.pdf".to_string(),
            "\u{fffd}\u{fffd}".to_string(),
        ]
    );
}

#[test]
fn success_returns_trimmed_stdout_despite_stderr_noise() {
    let r = finish_run(true, b"  page text \n", b"Syntax Warning: something");
    assert_eq!(r.unwrap(), "page text");
}

#[test]
fn failure_returns_trimmed_stderr() {
    let r = finish_run(false, b"partial output", b" could not open file \n");
    match r {
        Err(PopplerError::ToolFailure(detail)) => assert_eq!(detail, "could not open file"),
        other => panic!("expected a tool failure, got {:?}", other.is_ok()),
    }
}

#[test]
fn failure_with_silent_stderr_is_an_empty_detail() {
    let r = finish_run(false, b"", b"");
    match r {
        Err(PopplerError::ToolFailure(detail)) => assert_eq!(detail, ""),
        other => panic!("expected a tool failure, got {:?}", other.is_ok()),
    }
}

#[test]
fn invalid_utf8_output_is_replaced_not_refused() {
    let r = finish_run(true, b"ok\xff", b"");
    assert_eq!(r.unwrap(), "ok\u{fffd}");
}

#[test]
fn error_messages_describe_each_stage() {
    assert_eq!(
        PopplerError::ExecutableResolution.message(),
        "Failed to get_path_to_executable"
    );
    assert_eq!(PopplerError::Spawn.message(), "Failed to spawn child process");
    assert_eq!(
        PopplerError::StdinWrite("broken pipe".to_string()).message(),
        "broken pipe"
    );
    assert_eq!(
        PopplerError::Wait.message(),
        "Failed to wait for output from child process"
    );
    assert_eq!(PopplerError::ToolFailure("bad xref".to_string()).message(), "bad xref");
}

#[test]
fn platform_families_pick_their_directories() {
    assert_eq!(os_family("windows"), OsFamily::Windows);
    assert_eq!(os_family("macos"), OsFamily::Mac);
    assert_eq!(os_family("ios"), OsFamily::Mac);
    assert_eq!(os_family("linux"), OsFamily::Unix);
    assert_eq!(os_family("freebsd"), OsFamily::Unix);
    assert_eq!(
        executable_relative_path(OsFamily::Windows, "pdftotext"),
        "src/poppler/win/bin/pdftotext.exe"
    );
    assert_eq!(
        executable_relative_path(OsFamily::Mac, "pdfinfo"),
        "src/poppler/mac/bin/pdfinfo"
    );
    assert_eq!(
        executable_relative_path(OsFamily::Unix, "pdfunite"),
        "src/poppler/unix/bin/pdfunite"
    );
}
