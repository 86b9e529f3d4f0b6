use claudiax_logging::commands::logging::{
    format_frontend_line, frontend_log_location_for, get_frontend_log_path_internal,
};
use claudiax_logging::logging::{
    backend_line_now, backend_log_path, backend_log_path_for, backend_min_severity,
    decimal_string, format_backend_line, frontend_log_path_for, get_frontend_log_path,
    get_log_directory, initialized_message, is_recorded, join_path, log_directory_for, LogError,
    Severity,
};

#[test]
fn log_directory_appends_app_dir_to_home() {
    let d = log_directory_for(Some("/home/alice".to_string())).unwrap();
    assert_eq!(d, "/home/alice/.ClaudiaX");
}

#[test]
fn log_directory_does_not_double_trailing_separator() {
    let d = log_directory_for(Some("/home/alice/".to_string())).unwrap();
    assert_eq!(d, "/home/alice/.ClaudiaX");
    let root = log_directory_for(Some("/".to_string())).unwrap();
    assert_eq!(root, "/.ClaudiaX");
}

#[test]
fn log_directory_without_home_is_an_error() {
    let e = log_directory_for(None).unwrap_err();
    assert!(matches!(e, LogError::HomeDirectoryNotFound));
    assert_eq!(e.message(), "Could not find home directory");
}

#[test]
fn io_error_message_is_the_system_text() {
    let e = LogError::Io("Permission denied (os error 13)".to_string());
    assert_eq!(e.message(), "Permission denied (os error 13)");
}

#[test]
fn join_path_cases() {
    assert_eq!(join_path("", "a.log"), "a.log");
    assert_eq!(join_path("/var", "a.log"), "/var/a.log");
    assert_eq!(join_path("/var/", "a.log"), "/var/a.log");
}

#[test]
fn log_file_paths_sit_side_by_side() {
    let b = backend_log_path_for(Some("/home/bob".to_string())).unwrap();
    let f = frontend_log_path_for(Some("/home/bob".to_string())).unwrap();
    assert_eq!(b, "/home/bob/.ClaudiaX/backend.log");
    assert_eq!(f, "/home/bob/.ClaudiaX/frontend.log");
    assert!(matches!(backend_log_path_for(None), Err(LogError::HomeDirectoryNotFound)));
    assert!(matches!(frontend_log_path_for(None), Err(LogError::HomeDirectoryNotFound)));
}

#[test]
fn frontend_location_holds_dir_and_file() {
    let loc = frontend_log_location_for(Some("/home/carol".to_string())).unwrap();
    assert_eq!(loc.dir, "/home/carol/.ClaudiaX");
    assert_eq!(loc.path, "/home/carol/.ClaudiaX/frontend.log");
}

#[test]
fn frontend_location_without_home_is_an_error() {
    match frontend_log_location_for(None) {
        Err(e) => assert_eq!(e.message(), "Could not find home directory"),
        Ok(_) => panic!("a location without a home directory"),
    }
}

#[test]
fn current_user_paths_use_app_dir() {
    match get_log_directory() {
        Ok(d) => assert!(d.ends_with("/.ClaudiaX") && d.len() > ".ClaudiaX".len()),
        Err(e) => assert!(matches!(e, LogError::HomeDirectoryNotFound)),
    }
    match get_frontend_log_path() {
        Ok(p) => assert!(p.ends_with(".ClaudiaX/frontend.log")),
        Err(e) => assert!(matches!(e, LogError::HomeDirectoryNotFound)),
    }
    match backend_log_path() {
        Ok(p) => assert!(p.ends_with(".ClaudiaX/backend.log")),
        Err(e) => assert!(matches!(e, LogError::HomeDirectoryNotFound)),
    }
    match get_frontend_log_path_internal() {
        Ok(loc) => {
            assert!(loc.dir.ends_with("/.ClaudiaX"));
            assert_eq!(loc.path, format!("{}/frontend.log", loc.dir));
        }
        Err(e) => assert!(matches!(e, LogError::HomeDirectoryNotFound)),
    }
}

#[test]
fn frontend_line_format() {
    let line = format_frontend_line("INFO", "hello", "2024-01-01T00:00:00Z");
    assert_eq!(line, "[2024-01-01T00:00:00Z] [INFO] hello\n");
}

#[test]
fn frontend_line_keeps_opaque_fields() {
    let line = format_frontend_line("", "", "");
    assert_eq!(line, "[] [] \n");
    let line = format_frontend_line("warn", "a [b] c", "yesterday");
    assert_eq!(line, "[yesterday] [warn] a [b] c\n");
}

#[test]
fn frontend_lines_append_in_call_order() {
    let before = "[t0] [INFO] earlier\n".to_string();
    let calls = [("INFO", "one", "t1"), ("WARN", "two", "t2"), ("ERROR", "three", "t3")];
    let mut content = before.clone();
    for (level, message, timestamp) in calls.iter() {
        content.push_str(&format_frontend_line(level, message, timestamp));
    }
    assert!(content.starts_with(&before));
    let added: Vec<&str> = content[before.len()..].lines().collect();
    assert_eq!(added, vec!["[t1] [INFO] one", "[t2] [WARN] two", "[t3] [ERROR] three"]);
    assert_eq!(content.matches('\n').count(), 4);
}

#[test]
fn severity_names() {
    assert_eq!(Severity::Error.name(), "ERROR");
    assert_eq!(Severity::Warn.name(), "WARN");
    assert_eq!(Severity::Info.name(), "INFO");
    assert_eq!(Severity::Debug.name(), "DEBUG");
    assert_eq!(Severity::Trace.name(), "TRACE");
}

#[test]
fn backend_keeps_debug_and_above() {
    assert_eq!(backend_min_severity(), Severity::Debug);
    assert!(is_recorded(Severity::Error));
    assert!(is_recorded(Severity::Warn));
    assert!(is_recorded(Severity::Info));
    assert!(is_recorded(Severity::Debug));
    assert!(!is_recorded(Severity::Trace));
}

#[test]
fn decimal_strings() {
    assert_eq!(decimal_string(0), "0");
    assert_eq!(decimal_string(7), "7");
    assert_eq!(decimal_string(10), "10");
    assert_eq!(decimal_string(1203), "1203");
    assert_eq!(decimal_string(u32::MAX), "4294967295");
}

#[test]
fn backend_line_format() {
    let line = format_backend_line(
        "2024-01-01 00:00:00.000",
        Severity::Info,
        Some("src/main.rs"),
        Some(42),
        "started",
    );
    assert_eq!(line, "[2024-01-01 00:00:00.000] [INFO] [src/main.rs:42] started\n");
}

#[test]
fn backend_line_without_location() {
    let line = format_backend_line("ts", Severity::Debug, None, None, "m");
    assert_eq!(line, "[ts] [DEBUG] [unknown:0] m\n");
}

#[test]
fn backend_line_now_has_utc_timestamp() {
    let line = backend_line_now(Severity::Warn, Some("f.rs"), Some(7), "msg");
    assert!(line.starts_with('['));
    assert!(line.ends_with("] [WARN] [f.rs:7] msg\n"));
    let stamp = &line[1..line.find(']').unwrap()];
    assert_eq!(stamp.len(), "2024-01-01 00:00:00.000".len());
    let b = stamp.as_bytes();
    assert_eq!((b[4], b[7], b[10], b[13], b[16], b[19]), (b'-', b'-', b' ', b':', b':', b'.'));
}

#[test]
fn announcement_names_backend_path() {
    assert_eq!(
        initialized_message("/home/d/.ClaudiaX/backend.log"),
        "ClaudiaX backend logging initialized at: /home/d/.ClaudiaX/backend.log"
    );
}
