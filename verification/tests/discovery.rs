use task_throttle::config::{Config, Millis};
use task_throttle::discovery::{
    distinct_tasks, keep_looking, scan, Discovery, ProcessInfo, Verdict,
};
use task_throttle::text::{chars_of, contains};

fn target(name: &str, pattern: Option<&str>, wait: bool) -> Config {
    Config {
        throttle_duration: Millis { ms: 900 },
        free_run_duration: Millis { ms: 300 },
        control_duration: Millis { ms: 120_000 },
        wait_for_process: wait,
        process_name: String::from(name),
        cmd_line_pattern: pattern.map(String::from),
    }
}

fn process(pid: i32, name: &str, cmd: &[&str], tasks: Option<&[i32]>) -> ProcessInfo {
    ProcessInfo {
        pid,
        name: String::from(name),
        cmd: cmd.iter().map(|arg| String::from(*arg)).collect(),
        tasks: tasks.map(|ids| ids.to_vec()),
    }
}

#[test]
fn chars_of_keeps_every_character() {
    assert_eq!(chars_of(""), Vec::<char>::new());
    assert_eq!(chars_of("abc"), vec!['a', 'b', 'c']);
    assert_eq!(chars_of("nai\u{308}ve \u{1F980}"), vec!['n', 'a', 'i', '\u{308}', 'v', 'e', ' ', '\u{1F980}']);
}

#[test]
fn contains_finds_text_anywhere() {
    assert!(contains("--config=/etc/app.toml", "--config"));
    assert!(contains("--config=/etc/app.toml", "/etc/"));
    assert!(contains("--config=/etc/app.toml", ".toml"));
    assert!(contains("--config=/etc/app.toml", "--config=/etc/app.toml"));
    assert!(!contains("--config=/etc/app.toml", ".yaml"));
    assert!(!contains("--config=/etc/app.toml", "--config=/etc/app.toml "));
}

#[test]
fn contains_keeps_upper_and_lower_case_apart() {
    assert!(contains("Worker-7", "Worker"));
    assert!(!contains("Worker-7", "worker"));
    assert!(!contains("worker-7", "WORKER"));
}

#[test]
fn contains_with_empty_texts() {
    assert!(contains("", ""));
    assert!(contains("abc", ""));
    assert!(!contains("", "a"));
}

#[test]
fn contains_needs_consecutive_characters() {
    assert!(!contains("a-b-c", "abc"));
    assert!(contains("aab", "ab"));
    assert!(contains("ababac", "abac"));
    assert!(!contains("ababab", "abac"));
}

#[test]
fn contains_goes_by_characters_not_bytes() {
    assert!(contains("gr\u{fc}\u{df}e", "\u{fc}\u{df}"));
    assert!(!contains("gr\u{fc}\u{df}e", "u"));
    assert!(contains("\u{1F980}\u{1F40D}", "\u{1F40D}"));
}

#[test]
fn name_must_be_equal_not_only_contain() {
    let config = target("foo", None, true);
    assert!(process(1, "foo", &[], None).name_matches(&config));
    assert!(!process(1, "foobar", &[], None).name_matches(&config));
    assert!(!process(1, "xfoo", &[], None).name_matches(&config));
    assert!(!process(1, "fo", &[], None).name_matches(&config));
    assert!(!process(1, "Foo", &[], None).name_matches(&config));
    assert!(!process(1, "", &[], None).name_matches(&config));
}

#[test]
fn containing_name_is_turned_down_for_its_name() {
    let config = target("foo", None, true);
    assert_eq!(process(1, "foobar", &["foo"], Some(&[2])).classify(&config), Verdict::NameDiffers);
    assert_eq!(process(1, "foo", &["foo"], Some(&[2])).classify(&config), Verdict::Selected);
}

#[test]
fn without_pattern_every_command_line_matches() {
    let config = target("foo", None, true);
    assert!(process(1, "foo", &[], None).command_line_matches(&config));
    assert!(process(1, "foo", &["a", "b"], None).command_line_matches(&config));
}

#[test]
fn pattern_must_occur_in_one_argument() {
    let config = target("java", Some("Main"), true);
    assert!(process(1, "java", &["java", "-jar", "app.jar", "com.example.Main"], None)
        .command_line_matches(&config));
    assert!(process(1, "java", &["Main"], None).command_line_matches(&config));
    assert!(!process(1, "java", &["java", "-jar", "app.jar"], None).command_line_matches(&config));
    assert!(!process(1, "java", &[], None).command_line_matches(&config));
    // The pattern has to stand in a single argument.
    assert!(!process(1, "java", &["Ma", "in"], None).command_line_matches(&config));
    // Upper and lower case are kept apart.
    assert!(!process(1, "java", &["com.example.main"], None).command_line_matches(&config));
}

#[test]
fn classify_looks_at_the_name_first() {
    let config = target("java", Some("Main"), true);
    assert_eq!(process(1, "java", &["Main"], None).classify(&config), Verdict::Selected);
    assert_eq!(process(1, "java", &["Other"], None).classify(&config), Verdict::PatternMissing);
    assert_eq!(process(1, "javac", &["Main"], None).classify(&config), Verdict::NameDiffers);
    assert_eq!(process(1, "javac", &["Other"], None).classify(&config), Verdict::NameDiffers);
}

#[test]
fn task_ids_are_the_tasks_then_the_process() {
    assert_eq!(process(10, "p", &[], Some(&[11, 12, 13])).task_ids(), vec![11, 12, 13, 10]);
    assert_eq!(process(10, "p", &[], Some(&[])).task_ids(), vec![10]);
    assert_eq!(process(10, "p", &[], None).task_ids(), Vec::<i32>::new());
    assert_eq!(process(10, "p", &[], Some(&[10, 11])).task_ids(), vec![10, 11, 10]);
}

#[test]
fn distinct_tasks_keeps_first_occurrences() {
    assert_eq!(distinct_tasks(&vec![]), Vec::<i32>::new());
    assert_eq!(distinct_tasks(&vec![5]), vec![5]);
    assert_eq!(distinct_tasks(&vec![3, 1, 2]), vec![3, 1, 2]);
    assert_eq!(distinct_tasks(&vec![10, 11, 10]), vec![10, 11]);
    assert_eq!(distinct_tasks(&vec![1, 1, 1, 1]), vec![1]);
    assert_eq!(distinct_tasks(&vec![4, 2, 4, 2, 9, 4]), vec![4, 2, 9]);
}

#[test]
fn nothing_running_and_not_waiting_controls_nothing() {
    let config = target("ghost", None, false);
    let round = scan(&vec![], &config);
    assert_eq!(round.discovery, Discovery::NotFound);
    assert!(round.mismatched.is_empty());
    assert!(!keep_looking(&round.discovery, &config));
}

#[test]
fn nothing_running_and_waiting_looks_again() {
    let config = target("ghost", None, true);
    let round = scan(&vec![], &config);
    assert_eq!(round.discovery, Discovery::NotFound);
    assert!(keep_looking(&round.discovery, &config));
}

#[test]
fn found_process_ends_the_search() {
    assert!(!keep_looking(&Discovery::Found(vec![1]), &target("a", None, true)));
    assert!(!keep_looking(&Discovery::Found(vec![1]), &target("a", None, false)));
    assert!(!keep_looking(&Discovery::Found(vec![]), &target("a", None, true)));
    assert!(keep_looking(&Discovery::NotFound, &target("a", None, true)));
    assert!(!keep_looking(&Discovery::NotFound, &target("a", None, false)));
}

#[test]
fn process_with_three_tasks_and_its_own_id() {
    let config = target("worker", None, true);
    let round = scan(&vec![process(10, "worker", &["worker"], Some(&[11, 12, 13]))], &config);
    assert_eq!(round.discovery, Discovery::Found(vec![11, 12, 13, 10]));
    assert!(round.mismatched.is_empty());
}

#[test]
fn main_task_among_the_listed_tasks_is_taken_once() {
    let config = target("worker", None, true);
    let round = scan(&vec![process(10, "worker", &["worker"], Some(&[10, 11, 12]))], &config);
    assert_eq!(round.discovery, Discovery::Found(vec![10, 11, 12]));
}

#[test]
fn selected_process_without_task_list_is_found_with_no_tasks() {
    let config = target("worker", None, true);
    let round = scan(&vec![process(10, "worker", &[], None)], &config);
    assert_eq!(round.discovery, Discovery::Found(vec![]));
    assert!(!keep_looking(&round.discovery, &config));
}

#[test]
fn scan_reports_names_that_only_contain_the_target() {
    let config = target("work", None, true);
    let round = scan(
        &vec![
            process(1, "worker", &[], Some(&[2])),
            process(3, "work", &[], Some(&[4])),
            process(5, "network", &[], Some(&[6])),
        ],
        &config,
    );
    assert_eq!(round.discovery, Discovery::Found(vec![4, 3]));
    assert_eq!(round.mismatched, vec![String::from("worker"), String::from("network")]);
}

#[test]
fn scan_with_only_containing_names_finds_nothing() {
    let config = target("work", None, false);
    let round = scan(
        &vec![process(1, "worker", &[], Some(&[2])), process(5, "network", &[], Some(&[6]))],
        &config,
    );
    assert_eq!(round.discovery, Discovery::NotFound);
    assert_eq!(round.mismatched, vec![String::from("worker"), String::from("network")]);
}

#[test]
fn scan_with_pattern_takes_only_processes_whose_arguments_hold_it() {
    let config = target("python", Some("train.py"), true);
    let round = scan(
        &vec![
            process(100, "python", &["python", "serve.py"], Some(&[101])),
            process(200, "python", &["python", "/opt/train.py", "--fast"], Some(&[201, 202])),
            process(300, "python3", &["python3", "train.py"], Some(&[301])),
        ],
        &config,
    );
    assert_eq!(round.discovery, Discovery::Found(vec![201, 202, 200]));
    assert_eq!(round.mismatched, vec![String::from("python3")]);
}

#[test]
fn scan_with_pattern_that_no_process_holds_finds_nothing() {
    let config = target("python", Some("train.py"), true);
    let round = scan(
        &vec![process(100, "python", &["python", "serve.py", "TRAIN.PY"], Some(&[101]))],
        &config,
    );
    assert_eq!(round.discovery, Discovery::NotFound);
    assert!(round.mismatched.is_empty());
    assert!(keep_looking(&round.discovery, &config));
}

#[test]
fn scan_takes_every_selected_process_in_order() {
    let config = target("worker", None, true);
    let round = scan(
        &vec![
            process(20, "worker", &[], Some(&[21])),
            process(10, "worker", &[], Some(&[11, 12])),
            process(30, "worker", &[], None),
        ],
        &config,
    );
    assert_eq!(round.discovery, Discovery::Found(vec![21, 20, 11, 12, 10]));
}

#[test]
fn scan_lists_no_task_twice_across_processes() {
    let config = target("worker", None, true);
    let round = scan(
        &vec![
            process(10, "worker", &[], Some(&[11, 12])),
            process(12, "worker", &[], Some(&[11, 13])),
        ],
        &config,
    );
    assert_eq!(round.discovery, Discovery::Found(vec![11, 12, 10, 13]));
}
