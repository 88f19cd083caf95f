use file_reader::reader::{start, HostRequest};

/// Drive one whole command for `path`, with the host granting the scope
/// request and reporting `outcome` for the read.
fn run_command(path: &str, outcome: Result<String, String>) -> Result<String, String> {
    let (pending, _request) = start(String::from(path));
    let (pending, _request) = pending.scope_handled(true);
    pending.read_finished(outcome)
}

#[test]
fn start_requests_scope_for_the_path() {
    let (_pending, request) = start(String::from("/tmp/example.txt"));
    match request {
        HostRequest::AllowFile { path } => assert_eq!(path, "/tmp/example.txt"),
        HostRequest::ReadTextFile { .. } => panic!("expected an allow request first"),
    }
}

#[test]
fn scope_report_is_ignored() {
    for granted in [true, false] {
        let (pending, _request) = start(String::from("/tmp/example.txt"));
        let (_pending, request) = pending.scope_handled(granted);
        match request {
            HostRequest::ReadTextFile { path } => assert_eq!(path, "/tmp/example.txt"),
            HostRequest::AllowFile { .. } => panic!("expected a read request second"),
        }
    }
}

#[test]
fn successful_read_returns_contents_exactly() {
    // a file at /tmp/example.txt containing `hello`, as the host reports it
    let response = run_command("/tmp/example.txt", Ok(String::from("hello")));
    assert_eq!(response, Ok(String::from("hello")));
}

#[test]
fn empty_file_returns_empty_contents() {
    let response = run_command("/tmp/example.txt", Ok(String::new()));
    assert_eq!(response, Ok(String::new()));
}

#[test]
fn missing_file_returns_the_host_error() {
    let response = run_command(
        "/tmp/does-not-exist.txt",
        Err(String::from("No such file or directory (os error 2)")),
    );
    match response {
        Err(message) => {
            assert_eq!(message, "No such file or directory (os error 2)");
            assert!(!message.is_empty());
        }
        Ok(_) => panic!("a failed read must not become a success"),
    }
}

#[test]
fn invalid_utf8_returns_the_host_error() {
    let response = run_command(
        "/tmp/not-text.bin",
        Err(String::from("stream did not contain valid UTF-8")),
    );
    match response {
        Err(message) => assert_eq!(message, "stream did not contain valid UTF-8"),
        Ok(_) => panic!("a failed decode must not become a success"),
    }
}

#[test]
fn same_outcome_gives_identical_responses() {
    // two commands for the same path; the host reports the same contents twice
    let first = run_command("/tmp/example.txt", Ok(String::from("hello")));
    let second = run_command("/tmp/example.txt", Ok(String::from("hello")));
    assert_eq!(first, second);
    assert_eq!(first, Ok(String::from("hello")));
}
