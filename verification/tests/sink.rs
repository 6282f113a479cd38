use task_log::task_into;
use task_log::ConfigBuilder;
use task_log::LineSink;
use task_log::Transcript;

#[test]
fn new_transcript_is_empty() {
    assert_eq!(Transcript::new().into_lines(), Vec::<String>::new());
}

#[test]
fn transcript_keeps_lines_in_order() {
    let mut transcript = Transcript::new();
    transcript.write_line("first");
    transcript.write_line("");
    transcript.write_line("third | µ");
    assert_eq!(transcript.into_lines(), vec!["first", "", "third | µ"]);
}

#[test]
fn plain_task_writes_its_three_lines_in_order() {
    let mut transcript = Transcript::new();
    let config = ConfigBuilder::new().duration(false).color(false);
    let value = task_into("Task A", || 42, config, &mut transcript);
    assert_eq!(value, 42);
    let lines = transcript.into_lines();
    assert_eq!(lines, vec!["  RUNNING  | Task A", "\x1b[A\x1b[A", "  DONE     | Task A"]);
    assert_eq!(lines[0].find('|'), lines[2].find('|'));
    assert!(!lines[0].contains('\x1b') && !lines[2].contains('\x1b'));
}

#[test]
fn colored_task_without_duration_writes_exact_lines() {
    let mut transcript = Transcript::new();
    let config = ConfigBuilder::new().duration(false);
    task_into("job", || (), config, &mut transcript);
    assert_eq!(
        transcript.into_lines(),
        vec![
            "\x1b[38;5;3m  RUNNING  \x1b[0m| job",
            "\x1b[A\x1b[A",
            "\x1b[38;5;2m  DONE    \x1b[0m | job",
        ]
    );
}

#[test]
fn timed_task_writes_the_time_in_the_done_line() {
    let mut transcript = Transcript::new();
    let config = ConfigBuilder::new().color(false);
    let value = task_into("timed", || "kept", config, &mut transcript);
    assert_eq!(value, "kept");
    let lines = transcript.into_lines();
    assert_eq!(lines.len(), 3);
    assert_eq!(lines[0], "  RUNNING       | timed");
    assert_eq!(lines[1], "\x1b[A\x1b[A");
    assert!(lines[2].starts_with("  DONE in "));
    assert!(lines[2].ends_with("   | timed"));
    let time = &lines[2]["  DONE in ".len()..lines[2].len() - "   | timed".len()];
    assert!(!time.starts_with('-'));
    assert!(time.chars().next().unwrap().is_ascii_digit());
}

#[test]
fn lines_of_a_task_follow_what_was_written_before() {
    let mut transcript = Transcript::new();
    transcript.write_line("before");
    let config = ConfigBuilder::new().duration(false).color(false);
    let first: Result<u8, String> = task_into("one", || Err(String::from("no")), config, &mut transcript);
    assert_eq!(first, Err(String::from("no")));
    assert_eq!(task_into("two", || 2, config, &mut transcript), 2);
    assert_eq!(
        transcript.into_lines(),
        vec![
            "before",
            "  RUNNING  | one",
            "\x1b[A\x1b[A",
            "  DONE     | one",
            "  RUNNING  | two",
            "\x1b[A\x1b[A",
            "  DONE     | two",
        ]
    );
}
