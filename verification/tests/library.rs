use micro_ci::CiError;
use micro_ci::CiState;
use micro_ci::Cycle;
use micro_ci::CyclePhase;
use micro_ci::Detection;
use micro_ci::GlobalConfig;
use micro_ci::LocalConfig;
use micro_ci::Poller;
use micro_ci::RunRecord;
use micro_ci::TickAction;
use micro_ci::artifact_address;
use micro_ci::build_ci_status;
use micro_ci::format_artifact;
use micro_ci::has_update;
use micro_ci::i32_to_string;
use micro_ci::pending_update;
use micro_ci::repo_dir;
use micro_ci::split_repo;
use micro_ci::status_line;
use micro_ci::trim_ascii_whitespace;
use micro_ci::u64_to_string;
use micro_ci::wrapped_command;

fn test_configs() -> (GlobalConfig, LocalConfig) {
    (
        GlobalConfig {
            github_token: String::from("token"),
            web_root_path: String::from("/srv/logs"),
            web_root_url: String::from("https://logs.example.org"),
            fetch_interval: 60,
        },
        LocalConfig {
            github_repo: String::from("owner/project"),
            command: String::from("make test"),
        },
    )
}

#[test]
fn detect_equal_hashes_is_no_update() {
    let local = String::from("abc123");
    let upstream = String::from("abc123");
    assert!(!has_update(&local, &upstream));
}

#[test]
fn detect_different_hashes_is_update() {
    let local = String::from("abc123");
    let upstream = String::from("def456");
    assert!(has_update(&local, &upstream));
}

#[test]
fn detect_handles_empty_hashes() {
    let empty = String::new();
    let other = String::from("abc123");
    assert!(!has_update(&empty, &empty));
    assert!(has_update(&empty, &other));
    assert!(has_update(&other, &empty));
}

#[test]
fn artifact_text_keeps_multiline_output() {
    assert_eq!(
        format_artifact("line one\nline two\n", Some(1)),
        "line one\nline two\n\n\nBuild exited with code 1\n"
    );
}

#[test]
fn detect_is_idempotent_without_remote_change() {
    let local = String::from("abc123");
    let upstream = String::from("def456");
    let first = has_update(&local, &upstream);
    let second = has_update(&local, &upstream);
    assert_eq!(first, second);
    let same = String::from("abc123");
    let first_eq = has_update(&local, &same);
    let second_eq = has_update(&local, &same);
    assert_eq!(first_eq, second_eq);
}

#[test]
fn run_record_exit_zero_is_success() {
    let rec = RunRecord::new(String::from("id"), String::from("out"), Some(0));
    assert!(rec.success);
    assert_eq!(rec.exit_code, Some(0));
}

#[test]
fn run_record_exit_seven_is_failure() {
    let rec = RunRecord::new(String::from("id"), String::from("out"), Some(7));
    assert!(!rec.success);
    assert_eq!(rec.exit_code, Some(7));
}

#[test]
fn run_record_signal_end_is_failure() {
    let rec = RunRecord::new(String::from("id"), String::from("out"), None);
    assert!(!rec.success);
    assert_eq!(rec.exit_code, None);
}

#[test]
fn fresh_record_has_uuid_length_id() {
    let rec = RunRecord::fresh(String::from("out"), Some(0));
    assert_eq!(rec.id.chars().count(), 36);
}

#[test]
fn fresh_records_get_distinct_ids() {
    let a = RunRecord::fresh(String::from("out"), Some(0));
    let b = RunRecord::fresh(String::from("out"), Some(0));
    assert_ne!(a.id, b.id);
}

#[test]
fn wrapped_command_folds_stderr() {
    assert_eq!(wrapped_command("make test"), "make test 2>&1");
}

#[test]
fn artifact_text_for_exit_zero() {
    assert_eq!(format_artifact("ok", Some(0)), "ok\n\nBuild exited with code 0\n");
}

#[test]
fn artifact_text_for_missing_code() {
    assert_eq!(format_artifact("boom", None), "boom\n\nBuild exited with code ???\n");
}

#[test]
fn artifact_text_for_empty_output() {
    assert_eq!(format_artifact("", Some(2)), "\n\nBuild exited with code 2\n");
}

#[test]
fn status_line_for_negative_code() {
    assert_eq!(status_line(Some(-9)), "Build exited with code -9");
}

#[test]
fn decimal_rendering() {
    assert_eq!(u64_to_string(0), "0");
    assert_eq!(u64_to_string(7), "7");
    assert_eq!(u64_to_string(120), "120");
    assert_eq!(u64_to_string(u64::MAX), "18446744073709551615");
    assert_eq!(i32_to_string(0), "0");
    assert_eq!(i32_to_string(12345), "12345");
    assert_eq!(i32_to_string(-7), "-7");
    assert_eq!(i32_to_string(i32::MIN), "-2147483648");
    assert_eq!(i32_to_string(i32::MAX), "2147483647");
}

#[test]
fn artifact_addresses_share_layout() {
    assert_eq!(
        artifact_address("/srv/logs", "owner/project", "RUN"),
        "/srv/logs/owner/project/RUN.txt"
    );
    assert_eq!(
        artifact_address("https://logs.example.org", "owner/project", "RUN"),
        "https://logs.example.org/owner/project/RUN.txt"
    );
    assert_eq!(repo_dir("/srv/logs", "owner/project"), "/srv/logs/owner/project");
}

#[test]
fn success_maps_to_success_status() {
    let (g, l) = test_configs();
    let rec = RunRecord::new(String::from("X"), String::from("ok"), Some(0));
    let u = build_ci_status(&g, &l, &Ok(rec));
    assert_eq!(u.state, CiState::Success);
    assert_eq!(u.description, "Build completed successfully");
    let url = u.target_url.expect("a successful build links its artifact");
    assert!(url.ends_with("X.txt"));
    assert_eq!(url, "https://logs.example.org/owner/project/X.txt");
}

#[test]
fn failure_maps_to_failure_status() {
    let (g, l) = test_configs();
    let rec = RunRecord::new(String::from("X"), String::from("no"), Some(7));
    let u = build_ci_status(&g, &l, &Ok(rec));
    assert_eq!(u.state, CiState::Failure);
    assert_eq!(u.description, "Build did not complete successfully");
    let url = u.target_url.expect("a failed build still links its artifact");
    assert!(url.ends_with("X.txt"));
}

#[test]
fn error_maps_to_error_status_without_url() {
    let (g, l) = test_configs();
    let err = CiError::LogWrite { message: String::from("disk full") };
    let u = build_ci_status(&g, &l, &Err(err));
    assert_eq!(u.state, CiState::Error);
    assert!(u.description.contains("disk full"));
    assert_eq!(u.description, "micro-ci error: disk full");
    assert_eq!(u.target_url, None);
}

#[test]
fn fetch_and_spawn_errors_describe_their_cause() {
    let fetch = CiError::Fetch { message: String::from("could not reach origin") };
    assert_eq!(fetch.describe(), "micro-ci error: could not reach origin");
    let spawn = CiError::BuildIo { message: String::from("no such shell") };
    assert_eq!(spawn.describe(), "micro-ci error: no such shell");
}

#[test]
fn pending_update_opens_the_cycle() {
    let u = pending_update();
    assert_eq!(u.state, CiState::Pending);
    assert_eq!(u.description, "Running build");
    assert_eq!(u.target_url, None);
}

#[test]
fn one_cycle_pushes_one_pending_then_one_terminal() {
    let (g, l) = test_configs();
    let mut c = Cycle::new();
    assert_eq!(c.phase, CyclePhase::Ready);
    assert_eq!(c.pending_pushes, 0);
    assert_eq!(c.terminal_pushes, 0);
    let opening = c.begin();
    assert_eq!(opening.state, CiState::Pending);
    assert_eq!(c.pending_pushes, 1);
    assert_eq!(c.terminal_pushes, 0);
    let rec = RunRecord::new(String::from("X"), String::from("ok"), Some(0));
    let closing = c.finish(&g, &l, &Ok(rec));
    assert_eq!(closing.state, CiState::Success);
    assert_eq!(c.phase, CyclePhase::Done);
    assert_eq!(c.pending_pushes, 1);
    assert_eq!(c.terminal_pushes, 1);
}

#[test]
fn tick_during_slow_build_dispatches_no_second_cycle() {
    let mut p = Poller::new(false);
    assert_eq!(p.tick(), TickAction::Probe);
    assert!(p.on_detection(Detection::Changed));
    let mut records: Vec<RunRecord> = Vec::new();
    records.push(RunRecord::fresh(String::from("slow build output"), Some(0)));
    // The build is still in flight: further ticks must not dispatch.
    assert_eq!(p.tick(), TickAction::SkipBusy);
    assert_eq!(p.tick(), TickAction::SkipBusy);
    assert_eq!(records.len(), 1);
    p.cycle_finished();
    assert_eq!(p.tick(), TickAction::Probe);
}

#[test]
fn forced_run_is_consumed_once() {
    let mut p = Poller::new(true);
    assert_eq!(p.tick(), TickAction::RunForced);
    p.cycle_finished();
    assert_eq!(p.tick(), TickAction::Probe);
}

#[test]
fn forced_run_waits_out_a_busy_tick() {
    let mut p = Poller::new(false);
    assert_eq!(p.tick(), TickAction::Probe);
    assert!(p.on_detection(Detection::Changed));
    p.run_now = true;
    assert_eq!(p.tick(), TickAction::SkipBusy);
    p.cycle_finished();
    assert_eq!(p.tick(), TickAction::RunForced);
}

#[test]
fn quiet_or_failed_probe_stays_idle() {
    let mut p = Poller::new(false);
    assert_eq!(p.tick(), TickAction::Probe);
    assert!(!p.on_detection(Detection::Unchanged));
    assert_eq!(p.tick(), TickAction::Probe);
    assert!(!p.on_detection(Detection::FetchFailed));
    assert_eq!(p.tick(), TickAction::Probe);
}

#[test]
fn trim_strips_both_ends() {
    assert_eq!(trim_ascii_whitespace("abc123\n"), "abc123");
    assert_eq!(trim_ascii_whitespace("  abc\t\r\n"), "abc");
    assert_eq!(trim_ascii_whitespace("abc"), "abc");
    assert_eq!(trim_ascii_whitespace(""), "");
    assert_eq!(trim_ascii_whitespace(" \n\t "), "");
    assert_eq!(trim_ascii_whitespace("a b"), "a b");
}

#[test]
fn repo_identifier_splits_at_first_slash() {
    assert_eq!(
        split_repo("owner/project"),
        Some((String::from("owner"), String::from("project")))
    );
    assert_eq!(split_repo("a/b/c"), Some((String::from("a"), String::from("b/c"))));
    assert_eq!(split_repo("/x"), Some((String::from(""), String::from("x"))));
    assert_eq!(split_repo("noslash"), None);
    assert_eq!(split_repo(""), None);
}
