use watchrun::{
    app_error, invalid_directory, Action, ChangeStatus, CmdOption, PatternMatcher, Scheduler,
    DEFAULT_DEBOUNCE_MS,
};

fn txt_matcher() -> PatternMatcher {
    match PatternMatcher::compile("*.txt") {
        Ok(m) => m,
        Err(e) => panic!("pattern refused: {}", e.message()),
    }
}

fn fired_path(a: &Action) -> Option<Option<String>> {
    match a {
        Action::Run { log } => Some(log.clone()),
        Action::Wait => None,
    }
}

#[test]
fn three_writes_fire_once_at_first_poll_after_settling() {
    let m = txt_matcher();
    let mut status = ChangeStatus::new();
    let mut sched = Scheduler::new(1000, false);
    assert!(status.observe_change(&m, "a.txt", 0));
    assert!(status.observe_change(&m, "a.txt", 100));
    assert!(status.observe_change(&m, "a.txt", 300));
    assert_eq!(fired_path(&sched.poll(&mut status, 1000)), None);
    assert_eq!(fired_path(&sched.poll(&mut status, 1299)), None);
    assert_eq!(
        fired_path(&sched.poll(&mut status, 1300)),
        Some(Some("a.txt".to_string()))
    );
    sched.finish();
    assert_eq!(fired_path(&sched.poll(&mut status, 2300)), None);
    assert_eq!(fired_path(&sched.poll(&mut status, 9300)), None);
}

#[test]
fn immediate_runs_once_without_changes() {
    let option = CmdOption {
        immediate: true,
        quiet: false,
        directory: ".".to_string(),
        pattern: "*.txt".to_string(),
        command: "true".to_string(),
        command_args: vec![],
    };
    let mut status = ChangeStatus::new();
    let mut sched = option.scheduler();
    assert_eq!(fired_path(&sched.start(option.immediate)), Some(None));
    assert!(sched.is_running());
    sched.finish();
    for t in 1..10u128 {
        assert_eq!(fired_path(&sched.poll(&mut status, t * 1000)), None);
    }
}

#[test]
fn no_immediate_run_without_flag() {
    let mut sched = Scheduler::new(DEFAULT_DEBOUNCE_MS, false);
    assert_eq!(fired_path(&sched.start(false)), None);
    assert!(!sched.is_running());
}

#[test]
fn unbalanced_bracket_is_a_configuration_error() {
    match PatternMatcher::compile("[") {
        Ok(_) => panic!("pattern accepted"),
        Err(e) => assert_eq!(e.message(), "invalid pattern:["),
    }
    match PatternMatcher::compile("a{b") {
        Ok(_) => panic!("pattern accepted"),
        Err(e) => assert_eq!(e.message(), "invalid pattern:a{b"),
    }
}

#[test]
fn burst_uses_the_last_path() {
    let m = match PatternMatcher::compile("**/*.rs") {
        Ok(m) => m,
        Err(_) => panic!("pattern refused"),
    };
    let mut status = ChangeStatus::new();
    let times: [u128; 5] = [10, 900, 1800, 2700, 3600];
    let paths = ["a.rs", "src/b.rs", "src/x/c.rs", "d.rs", "src/e.rs"];
    for k in 0..5 {
        assert!(status.observe_change(&m, paths[k], times[k]));
        if k + 1 < 5 {
            assert_eq!(status.try_consume(times[k + 1] - 1, 1000), None);
        }
    }
    assert_eq!(status.try_consume(4599, 1000), None);
    assert_eq!(status.try_consume(4600, 1000), Some("src/e.rs".to_string()));
    assert_eq!(status.try_consume(4601, 1000), None);
}

#[test]
fn second_change_pushes_the_deadline_back() {
    let mut status = ChangeStatus::new();
    status.record_change("one.txt".to_string(), 0);
    status.record_change("two.txt".to_string(), 500);
    assert_eq!(status.try_consume(1000, 1000), None);
    assert_eq!(status.try_consume(1499, 1000), None);
    assert!(status.changed());
    assert_eq!(status.last_time(), 500);
    assert_eq!(status.try_consume(1500, 1000), Some("two.txt".to_string()));
}

#[test]
fn consuming_twice_gives_one_path() {
    let mut status = ChangeStatus::new();
    status.record_change("a.txt".to_string(), 0);
    assert_eq!(status.try_consume(5000, 1000), Some("a.txt".to_string()));
    assert!(!status.changed());
    assert_eq!(status.last_time(), 0);
    assert_eq!(status.try_consume(5000, 1000), None);
    assert_eq!(status.try_consume(9000, 1000), None);
}

#[test]
fn idle_record_gives_nothing() {
    let mut status = ChangeStatus::new();
    assert_eq!(status.try_consume(0, 0), None);
    assert_eq!(status.try_consume(u128::MAX, 1000), None);
}

#[test]
fn clock_going_back_keeps_settling() {
    let mut status = ChangeStatus::new();
    status.record_change("a.txt".to_string(), 5000);
    assert_eq!(status.try_consume(4000, 1000), None);
    assert!(status.changed());
    assert_eq!(status.try_consume(6000, 1000), Some("a.txt".to_string()));
}

#[test]
fn largest_times_do_not_overflow() {
    let mut status = ChangeStatus::new();
    status.record_change("a.txt".to_string(), u128::MAX - 1);
    assert_eq!(status.try_consume(u128::MAX, u128::MAX), None);
    assert_eq!(status.try_consume(u128::MAX, 1), Some("a.txt".to_string()));
}

#[test]
fn zero_debounce_settles_at_once() {
    let mut status = ChangeStatus::new();
    status.record_change("a.txt".to_string(), 42);
    assert_eq!(status.try_consume(42, 0), Some("a.txt".to_string()));
}

#[test]
fn unmatched_paths_leave_the_record_idle() {
    let m = txt_matcher();
    let mut status = ChangeStatus::new();
    assert!(!status.observe_change(&m, "a.rs", 0));
    assert!(!status.observe_change(&m, "notes.txt.bak", 10));
    assert!(!status.changed());
    assert_eq!(status.try_consume(100000, 1000), None);
}

#[test]
fn one_notification_with_several_paths_keeps_the_last_match() {
    let m = txt_matcher();
    let mut status = ChangeStatus::new();
    let paths = vec!["a.txt".to_string(), "b.txt".to_string(), "c.rs".to_string()];
    status.observe_changes(&m, &paths, 70);
    assert!(status.changed());
    assert_eq!(status.last_time(), 70);
    assert_eq!(status.last_file(), "b.txt");
    let none: Vec<String> = vec!["x.rs".to_string()];
    let mut idle = ChangeStatus::new();
    idle.observe_changes(&m, &none, 70);
    assert!(!idle.changed());
}

#[test]
fn matcher_keeps_its_pattern_and_matches() {
    let m = txt_matcher();
    assert_eq!(m.pattern(), "*.txt");
    assert!(m.matches("a.txt"));
    assert!(!m.matches("a.rs"));
    let q = match PatternMatcher::compile("src/?.rs") {
        Ok(m) => m,
        Err(_) => panic!("pattern refused"),
    };
    assert!(q.matches("src/a.rs"));
    assert!(!q.matches("src/ab.rs"));
}

#[test]
fn change_during_a_run_waits_for_the_run_and_the_interval() {
    let m = txt_matcher();
    let mut status = ChangeStatus::new();
    let mut sched = Scheduler::new(1000, false);
    status.observe_change(&m, "a.txt", 0);
    assert_eq!(
        fired_path(&sched.poll(&mut status, 1000)),
        Some(Some("a.txt".to_string()))
    );
    status.observe_change(&m, "b.txt", 1100);
    assert_eq!(fired_path(&sched.poll(&mut status, 5000)), None);
    assert!(status.changed());
    sched.finish();
    assert_eq!(
        fired_path(&sched.poll(&mut status, 6000)),
        Some(Some("b.txt".to_string()))
    );
    sched.finish();
    status.observe_change(&m, "c.txt", 6500);
    assert_eq!(fired_path(&sched.poll(&mut status, 7000)), None);
    assert_eq!(
        fired_path(&sched.poll(&mut status, 7500)),
        Some(Some("c.txt".to_string()))
    );
}

#[test]
fn quiet_scheduler_runs_without_log() {
    let mut status = ChangeStatus::new();
    let mut sched = Scheduler::new(1000, true);
    status.record_change("a.txt".to_string(), 0);
    assert_eq!(fired_path(&sched.poll(&mut status, 1000)), Some(None));
}

#[test]
fn error_messages() {
    assert_eq!(app_error("boom".to_string()).message(), "boom");
    assert_eq!(invalid_directory("/nope").message(), "invalid watch directory:/nope");
}

#[test]
fn deeply_nested_alternates_are_a_configuration_error() {
    let pattern = format!("{}a{}", "{".repeat(300), "}".repeat(300));
    match PatternMatcher::compile(&pattern) {
        Ok(_) => panic!("pattern accepted"),
        Err(e) => assert_eq!(e.message(), &format!("invalid pattern:{}", pattern)),
    }
}

#[test]
fn overlong_pattern_is_a_configuration_error() {
    let pattern = "?".repeat(watchrun::MAX_PATTERN_LEN + 1);
    match PatternMatcher::compile(&pattern) {
        Ok(_) => panic!("pattern accepted"),
        Err(e) => assert_eq!(e.message(), &format!("invalid pattern:{}", pattern)),
    }
}

#[test]
fn new_record_is_idle_and_empty() {
    let status = ChangeStatus::new();
    assert!(!status.changed());
    assert_eq!(status.last_time(), 0);
    assert_eq!(status.last_file(), "");
}

#[test]
fn too_many_alternates_are_a_configuration_error() {
    let pattern = "{a,b}".repeat(watchrun::MAX_ALTERNATES + 1);
    match PatternMatcher::compile(&pattern) {
        Ok(_) => panic!("pattern accepted"),
        Err(e) => assert_eq!(e.message(), &format!("invalid pattern:{}", pattern)),
    }
    let deep = format!("{}a{}", "{".repeat(100000), "}".repeat(100000));
    assert!(PatternMatcher::compile(&deep).is_err());
}

#[test]
fn alternates_within_the_limit_compile() {
    let m = match PatternMatcher::compile("src/{a,b}.{rs,txt}") {
        Ok(m) => m,
        Err(_) => panic!("pattern refused"),
    };
    assert!(m.matches("src/a.rs"));
    assert!(m.matches("src/b.txt"));
    assert!(!m.matches("src/c.rs"));
}
