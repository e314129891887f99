use task_pool::log::TaskInfo;
use task_pool::TaskKind;

#[test]
fn new_log_is_empty_and_uninitialized() {
    let info = TaskInfo::new(5);
    let (kind, elapsed, last) = info.snapshot(12);
    assert_eq!(kind, TaskKind::Uninit);
    assert_eq!(elapsed, 7);
    assert_eq!(last, None);
    assert!(info.stdout_lines().is_empty());
    assert!(info.stderr_lines().is_empty());
}

#[test]
fn ring_keeps_at_most_20_most_recent_lines_in_order() {
    let mut info = TaskInfo::new(0);
    for i in 0..25u32 {
        info.append_stdout(format!("line{i}"));
    }
    let lines = info.stdout_lines();
    assert_eq!(lines.len(), 20);
    // The 20 most recent lines, oldest first: line5 .. line24.
    for (k, line) in lines.iter().enumerate() {
        assert_eq!(*line, format!("line{}", k + 5));
    }
    let (_, _, last) = info.snapshot(0);
    assert_eq!(last, Some("line24".to_owned()));
}

#[test]
fn ring_below_capacity_keeps_everything() {
    let mut info = TaskInfo::new(0);
    for i in 0..20u32 {
        info.append_stdout(format!("line{i}"));
    }
    let lines = info.stdout_lines();
    assert_eq!(lines.len(), 20);
    assert_eq!(lines[0], "line0");
    assert_eq!(lines[19], "line19");
}

#[test]
fn stderr_log_is_unbounded() {
    let mut info = TaskInfo::new(0);
    for i in 0..50u32 {
        info.append_stderr(format!("err{i}"));
    }
    let errs = info.stderr_lines();
    assert_eq!(errs.len(), 50);
    assert_eq!(errs[0], "err0");
    assert_eq!(errs[49], "err49");
}

#[test]
fn begin_stage_for_spawn_resets_time_and_clears_stderr() {
    let mut info = TaskInfo::new(0);
    info.append_stderr("old error".to_owned());
    info.append_stdout("kept".to_owned());
    info.begin_stage(TaskKind::MxdysEnum(4), 100);
    let (kind, elapsed, last) = info.snapshot(130);
    assert_eq!(kind, TaskKind::MxdysEnum(4));
    assert_eq!(elapsed, 30);
    assert_eq!(last, Some("kept".to_owned()));
    assert!(info.stderr_lines().is_empty());
}

#[test]
fn begin_stage_without_spawn_keeps_time_and_stderr() {
    let mut info = TaskInfo::new(0);
    info.begin_stage(TaskKind::SligockiEnum(4), 100);
    info.append_stderr("stage b stderr".to_owned());
    info.begin_stage(TaskKind::MoveFile, 400);
    let (kind, elapsed, _) = info.snapshot(130);
    assert_eq!(kind, TaskKind::MoveFile);
    // The start time still dates from the spawn at 100.
    assert_eq!(elapsed, 30);
    assert_eq!(info.stderr_lines(), vec!["stage b stderr".to_owned()]);

    info.begin_stage(TaskKind::Done, 500);
    let (kind, _, _) = info.snapshot(500);
    assert_eq!(kind, TaskKind::Done);
    assert_eq!(info.stderr_lines(), vec!["stage b stderr".to_owned()]);
}

#[test]
fn elapsed_is_zero_when_clock_goes_backwards() {
    let mut info = TaskInfo::new(0);
    info.begin_stage(TaskKind::MxdysEnum(1), 100);
    let (_, elapsed, _) = info.snapshot(40);
    assert_eq!(elapsed, 0);
}
