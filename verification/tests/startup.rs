use handy::startup::{
    choose_models_dir, crash_log_record, models_dir_arg, non_ascii_findings, ModelsDirSource,
};

fn args(v: &[&str]) -> Vec<String> {
    v.iter().map(|s| s.to_string()).collect()
}

#[test]
fn crash_log_lines_end_with_newline() {
    assert_eq!(crash_log_record("boom"), "boom\n");
    assert_eq!(crash_log_record("boom\n"), "boom\n");
    assert_eq!(crash_log_record(""), "\n");
    assert_eq!(crash_log_record(&crash_log_record("x")), "x\n");
}

#[test]
fn non_ascii_paths_are_reported_in_order() {
    let f = non_ascii_findings(Some("C:\\Users\\张三\\AppData"), Some("C:\\plain"), Some("G:\\美声\\handy.exe"));
    assert_eq!(
        f,
        vec![
            "APPDATA contains non-ASCII chars: C:\\Users\\张三\\AppData".to_string(),
            "Executable path contains non-ASCII chars: G:\\美声\\handy.exe".to_string(),
        ]
    );
    assert!(non_ascii_findings(None, Some("ok"), None).is_empty());
    assert_eq!(
        non_ascii_findings(None, Some("é"), None),
        vec!["LOCALAPPDATA contains non-ASCII chars: é".to_string()]
    );
}

#[test]
fn models_dir_flag_last_wins() {
    assert_eq!(models_dir_arg(&args(&["--models-dir", "/a"])), Some("/a".to_string()));
    assert_eq!(
        models_dir_arg(&args(&["--models-dir", "/a", "--x", "--models-dir", "/b"])),
        Some("/b".to_string())
    );
    assert_eq!(models_dir_arg(&args(&["--models-dir"])), None);
    assert_eq!(models_dir_arg(&args(&["/a", "--models-dir"])), None);
    assert_eq!(models_dir_arg(&args(&[])), None);
}

#[test]
fn models_dir_flag_value_is_not_a_flag() {
    assert_eq!(
        models_dir_arg(&args(&["--models-dir", "--models-dir", "x"])),
        Some("--models-dir".to_string())
    );
}

#[test]
fn models_dir_precedence() {
    match choose_models_dir(Some("/f".to_string()), Some("/e".to_string())) {
        ModelsDirSource::Flag(f) => assert_eq!(f, "/f"),
        _ => panic!("flag expected"),
    }
    match choose_models_dir(None, Some("/e".to_string())) {
        ModelsDirSource::Environment(e) => assert_eq!(e, "/e"),
        _ => panic!("environment expected"),
    }
    assert!(matches!(choose_models_dir(None, None), ModelsDirSource::CurrentDirModels));
}
