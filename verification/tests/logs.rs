use bsk::cli::logs::{
    follow_offset, follow_step, latest_log_file, lines_of, offset_after_switch, tail_lines, tail_of_log, LogDirEntry,
    LogsArgs,
};

fn e(name: &str, is_file: bool) -> LogDirEntry {
    LogDirEntry { name: name.into(), is_file }
}

#[test]
fn logs_args_default() {
    let d = LogsArgs::default();
    assert!(!d.follow);
    assert_eq!(d.lines, 200);
}

#[test]
fn latest_log_is_greatest_daemon_log_file() {
    let entries = vec![
        e("daemon.log.2024-01-02", true),
        e("other.log", true),
        e("daemon.log.2024-03-01", false),
        e("daemon.log.2024-02-01", true),
        e("daemon.log.2024-02-01", true),
    ];
    assert_eq!(latest_log_file(&entries), Some(3));
    assert_eq!(latest_log_file(&vec![e("x", true), e("daemon.lo", true)]), None);
    assert_eq!(latest_log_file(&vec![e("daemon.log", true)]), Some(0));
}

#[test]
fn lines_follow_str_lines() {
    for text in ["", "a", "a\n", "a\r\nb", "a\n\nb\n", "\n", "x\r", "x\r\n\r\n", "é\nü"] {
        let expected: Vec<String> = text.lines().map(String::from).collect();
        assert_eq!(lines_of(text), expected, "text {text:?}");
    }
}

#[test]
fn tail_keeps_last_lines() {
    assert_eq!(tail_lines("1\n2\n3\n", 2), vec!["2", "3"]);
    assert_eq!(tail_lines("1\n2", 5), vec!["1", "2"]);
    assert!(tail_lines("1\n2", 0).is_empty());
}

#[test]
fn follow_resumes_or_rewinds() {
    assert_eq!(follow_offset(10, 10), None);
    assert_eq!(follow_offset(10, 15), Some(10));
    assert_eq!(follow_offset(10, 4), Some(0));
    assert_eq!(follow_offset(10, 0), None);
}

#[test]
fn log_bytes_are_decoded_lossily_before_tailing() {
    let bytes: &[u8] = b"one\ntw\xffo\r\nthree\n";
    assert_eq!(tail_of_log(bytes, 2), vec!["tw\u{FFFD}o".to_string(), "three".to_string()]);
    assert_eq!(tail_of_log(b"", 5), Vec::<String>::new());
}

#[test]
fn switching_to_a_newer_log_restarts_at_zero() {
    assert_eq!(offset_after_switch(true, 4096), 0);
    assert_eq!(offset_after_switch(false, 4096), 4096);
}

#[test]
fn follow_step_ends_at_the_file_length() {
    assert_eq!(follow_step(10, 25), (Some(10), 25));
    assert_eq!(follow_step(25, 25), (None, 25));
    assert_eq!(follow_step(30, 12), (Some(0), 12));
    assert_eq!(follow_step(30, 0), (None, 0));
}
