use task_pool::digits::{dec_string, padded6_string};
use task_pool::pipeline::{
    artifact_filename, holdouts_filename, join_path, mxdys_args, outcome_label, sligocki_args,
    stage_finish_line, ExitOutcome,
};
use task_pool::status::{finish_line, marker_label, status_line, summary_line, WorkerSnapshot};
use task_pool::TaskKind;

#[test]
fn dec_string_renders_decimal() {
    assert_eq!(dec_string(0), "0");
    assert_eq!(dec_string(7), "7");
    assert_eq!(dec_string(10), "10");
    assert_eq!(dec_string(123456789), "123456789");
    assert_eq!(dec_string(u64::MAX), "18446744073709551615");
}

#[test]
fn padded6_pads_to_six_digits() {
    assert_eq!(padded6_string(0), "000000");
    assert_eq!(padded6_string(3), "000003");
    assert_eq!(padded6_string(42), "000042");
    assert_eq!(padded6_string(999999), "999999");
    assert_eq!(padded6_string(1234567), "1234567");
}

#[test]
fn artifact_filename_uses_padded_id() {
    assert_eq!(artifact_filename(3), "bb7_000003.out.pb");
    assert_eq!(artifact_filename(123456), "bb7_123456.out.pb");
}

#[test]
fn holdouts_filename_uses_plain_id() {
    assert_eq!(holdouts_filename(3), "holdouts_3.txt");
    assert_eq!(holdouts_filename(1200), "holdouts_1200.txt");
}

#[test]
fn join_path_inserts_separator() {
    assert_eq!(
        join_path("/work/dir", "bb7_000003.out.pb"),
        "/work/dir/bb7_000003.out.pb"
    );
}

#[test]
fn mxdys_args_enum_and_id() {
    assert_eq!(mxdys_args(5), vec!["enum".to_owned(), "5".to_owned()]);
}

#[test]
fn sligocki_args_full_list() {
    let args = sligocki_args("/code/Enumerate.py", 7);
    let expected: Vec<String> = vec![
        "/code/Enumerate.py",
        "--infile",
        "holdouts_7.txt",
        "--outfile",
        "bb7_000007.out.pb",
        "-r",
        "--no-steps",
        "--exp-linear-rules",
        "--max-loops=100_000",
        "--block-mult=2",
        "--time=30",
        "--force",
        "--save-freq=50",
        "--debug-print-current",
    ]
    .into_iter()
    .map(|s| s.to_owned())
    .collect();
    assert_eq!(args, expected);
}

#[test]
fn outcome_labels() {
    assert_eq!(outcome_label(&ExitOutcome::Success), "success");
    assert_eq!(outcome_label(&ExitOutcome::AlreadyExited), "already exited");
    assert_eq!(
        outcome_label(&ExitOutcome::Failure("exit status: 1".to_owned())),
        "exit status: 1"
    );
}

#[test]
fn stage_finish_lines() {
    assert_eq!(
        stage_finish_line(&TaskKind::MxdysEnum(3), 1500, &ExitOutcome::Success),
        "mxdys enum 3 finished, 1500ms, success"
    );
    assert_eq!(
        stage_finish_line(
            &TaskKind::SligockiEnum(3),
            75,
            &ExitOutcome::Failure("exit status: 1".to_owned())
        ),
        "sligocki enum 3 finished, 75ms, exit status: 1"
    );
}

#[test]
fn marker_labels() {
    assert_eq!(marker_label(&TaskKind::Uninit), "Uninit");
    assert_eq!(marker_label(&TaskKind::MxdysEnum(12)), "MxdysEnum(12)");
    assert_eq!(
        marker_label(&TaskKind::SligockiEnum(3)),
        "SligockiEnum(3)"
    );
    assert_eq!(marker_label(&TaskKind::MoveFile), "MoveFile");
    assert_eq!(marker_label(&TaskKind::Done), "Done");
}

#[test]
fn status_line_formats_snapshot() {
    let snap = WorkerSnapshot {
        worker_id: 1,
        kind: TaskKind::MxdysEnum(3),
        elapsed_ms: 1500,
        last_line: Some("abc".to_owned()),
    };
    assert_eq!(
        status_line(true, &snap),
        ">[1] MxdysEnum(3) - elapsed 1500ms; last line: abc"
    );
    assert_eq!(
        status_line(false, &snap),
        " [1] MxdysEnum(3) - elapsed 1500ms; last line: abc"
    );
}

#[test]
fn status_line_placeholder_when_no_output() {
    let snap = WorkerSnapshot {
        worker_id: 0,
        kind: TaskKind::MoveFile,
        elapsed_ms: 2,
        last_line: None,
    };
    assert_eq!(
        status_line(true, &snap),
        ">[0] MoveFile - elapsed 2ms; last line: buffer empty"
    );
}

#[test]
fn finish_lines() {
    assert_eq!(
        finish_line(2, &None),
        "Worker 2 finished. buffer empty"
    );
    assert_eq!(
        finish_line(0, &Some("done with 9".to_owned())),
        "Worker 0 finished. done with 9"
    );
}

#[test]
fn summary_line_matches_compact_duration() {
    // The summary must embed exactly what the outside formatter prints for
    // the same number of milliseconds.
    for ms in [0u64, 1, 999, 1500, 60000, 3600000, 86400000 + 3661001] {
        let formatted = pretty_duration::pretty_duration(
            &std::time::Duration::from_millis(ms),
            Some(pretty_duration::PrettyDurationOptions {
                output_format: Some(pretty_duration::PrettyDurationOutputFormat::Compact),
                singular_labels: None,
                plural_labels: None,
            }),
        );
        assert_eq!(summary_line(ms), format!("All done, {formatted}."));
    }
}
