use supervisor::cli::{parse, ArgError};

fn words(ws: &[&str]) -> Vec<String> {
    ws.iter().map(|w| w.to_string()).collect()
}

#[test]
fn parses_tasks_and_flags() {
    let cfg = parse(&words(&[
        "-c", "sleep 10", "A", "-cn", "echo hi", "B", "--notify-vsock", "3:9000", "--listen-vsock",
    ]))
    .unwrap();
    assert_eq!(cfg.tasks.len(), 2);
    assert_eq!(cfg.tasks[0].id, "A");
    assert_eq!(cfg.tasks[0].cmd, "sleep 10");
    assert!(!cfg.tasks[0].no_start);
    assert_eq!(cfg.tasks[1].id, "B");
    assert!(cfg.tasks[1].no_start);
    assert_eq!(cfg.notify_vsock, Some(("3".to_string(), "9000".to_string())));
    assert!(cfg.listen_vsock);
}

#[test]
fn no_words_is_an_error() {
    assert!(matches!(parse(&Vec::new()), Err(ArgError::NoCommands)));
}

#[test]
fn missing_id_is_an_error() {
    match parse(&words(&["-c", "sleep 1"])) {
        Err(ArgError::MissingValue(f)) => assert_eq!(f, "-c"),
        _ => panic!("expected a missing value"),
    }
    assert!(matches!(parse(&words(&["-c", "sleep 1", "--listen-vsock"])), Err(ArgError::MissingValue(_))));
}

#[test]
fn repeated_id_is_an_error() {
    match parse(&words(&["-c", "a", "X", "-c", "b", "X"])) {
        Err(ArgError::BadId(id)) => assert_eq!(id, "X"),
        _ => panic!("expected a bad id"),
    }
    assert!(matches!(parse(&words(&["-c", "a", ""])), Err(ArgError::BadId(_))));
}

#[test]
fn bad_targets_are_errors() {
    for t in ["3", "3:", ":9000", "3:90x0", "4294967296:1", "-1:2"] {
        match parse(&words(&["--notify-vsock", t])) {
            Err(ArgError::BadTarget(v)) => assert_eq!(v, t),
            _ => panic!("expected a bad target for {t}"),
        }
    }
    let cfg = parse(&words(&["--notify-vsock", "4294967295:0"])).unwrap();
    assert_eq!(cfg.notify_vsock, Some(("4294967295".to_string(), "0".to_string())));
}

#[test]
fn unknown_word_is_an_error() {
    match parse(&words(&["--verbose"])) {
        Err(ArgError::UnknownWord(w)) => assert_eq!(w, "--verbose"),
        _ => panic!("expected an unknown word"),
    }
}

#[test]
fn listen_alone_has_no_tasks() {
    let cfg = parse(&words(&["--listen-vsock"])).unwrap();
    assert!(cfg.tasks.is_empty());
    assert!(cfg.listen_vsock);
    assert!(cfg.notify_vsock.is_none());
}

#[test]
fn third_word_replaces_alias_as_id() {
    let cfg = parse(&words(&["-c", "a", "A", "-cn", "b", "B", "X"])).unwrap();
    assert_eq!(cfg.tasks.len(), 2);
    assert_eq!(cfg.tasks[0].id, "A");
    assert_eq!(cfg.tasks[0].cmd, "a");
    assert!(!cfg.tasks[0].no_start);
    assert_eq!(cfg.tasks[1].id, "X");
    assert_eq!(cfg.tasks[1].cmd, "b");
    assert!(cfg.tasks[1].no_start);
}

#[test]
fn alias_is_id_when_flag_follows() {
    let cfg = parse(&words(&["-c", "a", "A", "--listen-vsock"])).unwrap();
    assert_eq!(cfg.tasks[0].id, "A");
    assert!(cfg.listen_vsock);
}
