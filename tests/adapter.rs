use lapce_prettier::adapter::{
    formatting_response, Capabilities, Invocation, PathResolution, Request, Response, State,
    Step, PACING_DELAY_SECONDS,
};
use lapce_prettier::protocol::{
    decode_method, has_file_scheme, invalid_path_message, invalid_unicode_message, text_equal,
    unsupported_method_message, MethodKind,
};

fn init(path: Option<&str>) -> Request {
    Request::Initialize { prettier_path: path.map(|p| p.to_string()) }
}

fn format_local(uri: &str, path: &str) -> Request {
    Request::Formatting {
        uri: uri.to_string(),
        resolution: PathResolution::Local(path.to_string()),
    }
}

fn expected_run(program: &str, path: &str) -> Step {
    Step::Execute {
        invocation: Invocation {
            program: program.to_string(),
            args: vec!["--write".to_string(), path.to_string()],
        },
        delay_seconds: 2,
    }
}

fn announced() -> Step {
    Step::Respond(Response::Capabilities(Capabilities { document_formatting_provider: true }))
}

#[test]
fn configured_formatter_is_run_on_local_file() {
    let mut state = State::new();
    let step = state.handle_request(&init(Some("/usr/local/bin/prettier")));
    assert_eq!(step, announced());
    let step = state.handle_request(&format_local("file:///tmp/a.js", "/tmp/a.js"));
    assert_eq!(step, expected_run("/usr/local/bin/prettier", "/tmp/a.js"));
    assert_eq!(formatting_response(Ok(true)), Response::Formatted(true));
}

#[test]
fn empty_options_fall_back_and_reject_non_file_uri() {
    let mut state = State::new();
    let step = state.handle_request(&init(None));
    assert_eq!(step, announced());
    assert_eq!(state.formatter_command(), "prettier");
    let step = state.handle_request(&Request::Formatting {
        uri: "not-a-file://x".to_string(),
        resolution: PathResolution::NotLocalFile,
    });
    match step {
        Step::Respond(Response::Failure(message)) => {
            assert!(message.contains("not-a-file://x"));
            assert_eq!(message, "'not-a-file://x' is not a valid file path");
        }
        other => panic!("unexpected step {:?}", other),
    }
}

#[test]
fn empty_prettier_path_falls_back() {
    let mut state = State::new();
    state.handle_request(&init(Some("")));
    assert_eq!(state.prettier_path, None);
    assert_eq!(state.formatter_command(), "prettier");
    let step = state.handle_request(&format_local("file:///src/b.ts", "/src/b.ts"));
    assert_eq!(step, expected_run("prettier", "/src/b.ts"));
}

#[test]
fn handshake_before_nothing_uses_default_formatter() {
    let state = State::default();
    let plan = state.handle_formatting("file:///x.css", &PathResolution::Local("/x.css".to_string()));
    assert_eq!(
        plan,
        Ok(Invocation {
            program: "prettier".to_string(),
            args: vec!["--write".to_string(), "/x.css".to_string()],
        })
    );
}

#[test]
fn second_handshake_with_path_replaces_first() {
    let mut state = State::new();
    state.handle_init(&Some("/a/prettier".to_string()));
    assert_eq!(state.formatter_command(), "/a/prettier");
    state.handle_init(&None);
    assert_eq!(state.formatter_command(), "/a/prettier");
    state.handle_init(&Some("/b/prettier".to_string()));
    assert_eq!(state.formatter_command(), "/b/prettier");
}

#[test]
fn handshake_always_announces_only_formatting() {
    let mut state = State::new();
    for option in [None, Some(""), Some("x")] {
        let caps = state.handle_init(&option.map(|s| s.to_string()));
        assert_eq!(caps, Capabilities { document_formatting_provider: true });
    }
}

#[test]
fn non_file_scheme_rejected_even_with_local_path() {
    let mut state = State::new();
    state.handle_init(&Some("/opt/prettier".to_string()));
    let step = state.handle_request(&format_local("http://host/a.js", "/a.js"));
    assert_eq!(
        step,
        Step::Respond(Response::Failure("'http://host/a.js' is not a valid file path".to_string()))
    );
    assert_eq!(state.formatter_command(), "/opt/prettier");
}

#[test]
fn unicode_error_names_uri() {
    let state = State::new();
    let plan = state.handle_formatting("file:///bad%FF", &PathResolution::NotUnicode);
    assert_eq!(plan, Err("'file:///bad%FF' is not a valid unicode string".to_string()));
}

#[test]
fn file_uri_without_local_path_rejected() {
    let state = State::new();
    let plan = state.handle_formatting("file://remote/a.js", &PathResolution::NotLocalFile);
    assert_eq!(plan, Err("'file://remote/a.js' is not a valid file path".to_string()));
}

#[test]
fn unsupported_method_names_method() {
    let mut state = State::new();
    state.handle_init(&Some("/p".to_string()));
    assert_eq!(decode_method("textDocument/hover"), MethodKind::Unsupported);
    let step = state.handle_request(&Request::Unsupported {
        method: "textDocument/hover".to_string(),
    });
    assert_eq!(
        step,
        Step::Respond(Response::Failure(
            "Prettier plugin does not support method 'textDocument/hover'".to_string()
        ))
    );
    assert_eq!(state.formatter_command(), "/p");
}

#[test]
fn process_outcomes_become_replies() {
    assert_eq!(formatting_response(Ok(false)), Response::Formatted(false));
    assert_eq!(
        formatting_response(Err("spawn failed".to_string())),
        Response::Failure("spawn failed".to_string())
    );
}

#[test]
fn method_names_are_recognised() {
    assert_eq!(decode_method("initialize"), MethodKind::Initialize);
    assert_eq!(decode_method("textDocument/formatting"), MethodKind::Formatting);
    assert_eq!(decode_method("Initialize"), MethodKind::Unsupported);
    assert_eq!(decode_method(""), MethodKind::Unsupported);
    assert_eq!(decode_method("textDocument/formattin"), MethodKind::Unsupported);
}

#[test]
fn file_scheme_detection() {
    assert!(has_file_scheme("file:///tmp/a.js"));
    assert!(has_file_scheme("FILE:///tmp/a.js"));
    assert!(has_file_scheme("File:/a"));
    assert!(!has_file_scheme("not-a-file://x"));
    assert!(!has_file_scheme("file"));
    assert!(!has_file_scheme("files:///a"));
    assert!(!has_file_scheme(""));
}

#[test]
fn text_equality() {
    assert!(text_equal("", ""));
    assert!(text_equal("héllo", "héllo"));
    assert!(!text_equal("abc", "abd"));
    assert!(!text_equal("abc", "ab"));
}

#[test]
fn message_texts() {
    assert_eq!(
        unsupported_method_message("x/y"),
        "Prettier plugin does not support method 'x/y'"
    );
    assert_eq!(invalid_path_message("u"), "'u' is not a valid file path");
    assert_eq!(invalid_unicode_message("u"), "'u' is not a valid unicode string");
}

#[test]
fn pacing_delay_is_two_seconds() {
    assert_eq!(PACING_DELAY_SECONDS, 2);
}
