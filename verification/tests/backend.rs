use go_magic_desktop::backend::BinaryName::{Exe, Plain};
use go_magic_desktop::backend::SearchBase::{AppDir, ExeDir, ResourceDir};
use go_magic_desktop::backend::SearchSubdir::{Base, BundleResources, Resources};
use go_magic_desktop::backend::{
    backend_args, backend_candidates, backend_log_message, backend_origin, backend_output_level,
    backend_url, binary_file_name, first_accepted, path_binary_name, restart_timeout_message,
    spawn_failure, startup_failure_message, startup_timeout_message, subdir_name,
    BackendCandidate, BackendError, BinaryName, LogLevel, OutputStream, SearchBase, SearchSubdir,
    PORT_ENV_VAR,
};

#[test]
fn backend_errors_have_readable_messages() {
    assert_eq!(
        BackendError::NoPortAvailable.to_string(),
        "No available port found"
    );
    assert_eq!(
        BackendError::BackendNotFound.to_string(),
        "Backend executable not found"
    );
    assert_eq!(
        BackendError::SpawnFailed("boom".into()).to_string(),
        "Failed to start backend: boom"
    );
    assert!(BackendError::HealthCheckTimeout
        .to_string()
        .contains("timed out"));
}

#[test]
fn spawn_failures_name_the_executable() {
    let e = spawn_failure("permission denied", "/opt/app/go-magic");
    assert_eq!(
        e.to_string(),
        "Failed to start backend: permission denied (/opt/app/go-magic)"
    );
}

#[test]
fn backend_is_started_with_its_port() {
    assert_eq!(backend_args(5000), vec!["server", "--port", "5000"]);
    assert_eq!(backend_args(0), vec!["server", "--port", "0"]);
    assert_eq!(backend_args(65535), vec!["server", "--port", "65535"]);
    assert_eq!(PORT_ENV_VAR, "GOMAGIC_PORT");
}

#[test]
fn backend_urls_point_at_localhost() {
    assert_eq!(backend_url(5000), "http://127.0.0.1:5000/");
    assert_eq!(backend_origin(8080), "http://127.0.0.1:8080");
    assert_eq!(backend_url(7), "http://127.0.0.1:7/");
}

#[test]
fn failure_messages_name_the_budget_and_the_cause() {
    assert_eq!(
        startup_timeout_message(),
        "Backend did not become ready within 60s.\nPlease check the log file for details."
    );
    assert_eq!(
        restart_timeout_message(),
        "Backend did not become ready within 60s after a restart"
    );
    assert_eq!(
        startup_failure_message(&BackendError::BackendNotFound, "\"/res\""),
        "Backend executable not found\nPlease check resource directory: \"/res\""
    );
    assert_eq!(
        startup_failure_message(&BackendError::NoPortAvailable, "\"/res\""),
        "No available port found"
    );
}

#[test]
fn backend_output_is_logged_by_stream() {
    assert_eq!(
        backend_output_level(OutputStream::Stdout, ""),
        Some(LogLevel::Info)
    );
    assert_eq!(
        backend_output_level(OutputStream::Stdout, "listening"),
        Some(LogLevel::Info)
    );
    assert_eq!(
        backend_output_level(OutputStream::Stderr, "warning: x"),
        Some(LogLevel::Warn)
    );
    assert_eq!(backend_output_level(OutputStream::Stderr, ""), None);
    assert_eq!(backend_output_level(OutputStream::Stderr, " \t\r"), None);
    assert_eq!(backend_output_level(OutputStream::Stderr, "\u{2003}"), None);
    assert_eq!(backend_log_message("hello"), "[backend] hello");
}

fn candidate(base: SearchBase, subdir: SearchSubdir, name: BinaryName) -> BackendCandidate {
    BackendCandidate { base, subdir, name }
}

#[test]
fn backend_search_covers_the_resource_subdirectory() {
    let linux = backend_candidates(true, true, false, false);
    assert_eq!(
        linux,
        vec![
            candidate(ExeDir, Base, Plain),
            candidate(ExeDir, Resources, Plain),
            candidate(AppDir, Base, Plain),
            candidate(AppDir, Resources, Plain),
            candidate(ResourceDir, Base, Plain),
            candidate(ResourceDir, Resources, Plain),
        ]
    );
    let mac = backend_candidates(true, true, true, false);
    assert_eq!(mac.len(), 7);
    assert_eq!(mac[4], candidate(AppDir, BundleResources, Plain));
    let windows = backend_candidates(true, false, false, true);
    assert_eq!(
        windows,
        vec![
            candidate(ExeDir, Base, Exe),
            candidate(ExeDir, Base, Plain),
            candidate(ExeDir, Resources, Exe),
            candidate(ExeDir, Resources, Plain),
            candidate(ResourceDir, Base, Exe),
            candidate(ResourceDir, Base, Plain),
            candidate(ResourceDir, Resources, Exe),
            candidate(ResourceDir, Resources, Plain),
        ]
    );
    let bare = backend_candidates(false, true, true, false);
    assert_eq!(
        bare,
        vec![
            candidate(ResourceDir, Base, Plain),
            candidate(ResourceDir, Resources, Plain),
        ]
    );
}

#[test]
fn backend_names_and_directories_are_spelled_out() {
    assert_eq!(subdir_name(SearchSubdir::Base), None);
    assert_eq!(subdir_name(SearchSubdir::Resources), Some("resources"));
    assert_eq!(subdir_name(SearchSubdir::BundleResources), Some("Resources"));
    assert_eq!(binary_file_name(BinaryName::Exe), "go-magic.exe");
    assert_eq!(binary_file_name(BinaryName::Plain), "go-magic");
    assert_eq!(path_binary_name(true), BinaryName::Exe);
    assert_eq!(path_binary_name(false), BinaryName::Plain);
}

#[test]
fn first_accepted_finds_the_earliest_match() {
    let found = [false, false, true, true];
    assert_eq!(first_accepted(4, |i| found[i]), Some(2));
    assert_eq!(first_accepted(2, |i| found[i]), None);
    assert_eq!(first_accepted(0, |_| true), None);
    let seen = std::cell::RefCell::new(Vec::new());
    assert_eq!(
        first_accepted(4, |i| {
            seen.borrow_mut().push(i);
            found[i]
        }),
        Some(2)
    );
    assert_eq!(*seen.borrow(), vec![0, 1, 2]);
}

#[test]
fn the_port_argument_reads_back_as_the_port() {
    for port in [0u16, 9, 10, 3000, 5000, 8080, 8999, 65535] {
        let args = backend_args(port);
        let line = format!("HTTP/1.1 {} OK", args[2]);
        assert_eq!(go_magic_desktop::status::parse_status_code(&line), Some(port));
        assert_eq!(args[2].parse::<u16>(), Ok(port));
    }
}
