//! The per-task pipeline: stage A (the mxdys enumeration), then stage B (the
//! sligocki enumeration), then relocation of the produced artifact. The
//! sequence never branches on a stage's outcome: a failed stage is logged
//! and the pipeline advances regardless.

use crate::digits::{dec_rep, dec_string, padded6, padded6_string};
use crate::TaskKind;
use vstd::prelude::*;
use vstd::string::StringExecFns;

verus! {

/// How an external process ended: a clean exit, an abnormal exit carrying a
/// human-readable description, or no observable status at wait time.
pub enum ExitOutcome {
    Success,
    Failure(String),
    AlreadyExited,
}

/// The string logged for an exit outcome.
pub open spec fn outcome_label_spec(o: ExitOutcome) -> Seq<char> {
    match o {
        ExitOutcome::Success => "success"@,
        ExitOutcome::Failure(d) => d@,
        ExitOutcome::AlreadyExited => "already exited"@,
    }
}

/// Maps an exit outcome to the string logged for it.
pub fn outcome_label(o: &ExitOutcome) -> (r: String)
    ensures
        r@ == outcome_label_spec(*o),
{
    match o {
        ExitOutcome::Success => "success".to_owned(),
        ExitOutcome::Failure(d) => d.clone(),
        ExitOutcome::AlreadyExited => "already exited".to_owned(),
    }
}

/// The artifact written for a task: `bb7_` then the six-digit zero-padded
/// task id, then `.out.pb`.
pub open spec fn artifact_filename_spec(id: nat) -> Seq<char> {
    "bb7_"@ + padded6(id) + ".out.pb"@
}

/// The holdouts file read for a task: `holdouts_` then the task id, then
/// `.txt`.
pub open spec fn holdouts_filename_spec(id: nat) -> Seq<char> {
    "holdouts_"@ + dec_rep(id) + ".txt"@
}

/// Builds the artifact filename for a task.
pub fn artifact_filename(id: u32) -> (r: String)
    ensures
        r@ == artifact_filename_spec(id as nat),
{
    let mut r = "bb7_".to_owned();
    r.append(padded6_string(id as u64).as_str());
    r.append(".out.pb");
    proof {
        assert(r@ =~= artifact_filename_spec(id as nat));
    }
    r
}

/// Builds the holdouts filename for a task.
pub fn holdouts_filename(id: u32) -> (r: String)
    ensures
        r@ == holdouts_filename_spec(id as nat),
{
    let mut r = "holdouts_".to_owned();
    r.append(dec_string(id as u64).as_str());
    r.append(".txt");
    proof {
        assert(r@ =~= holdouts_filename_spec(id as nat));
    }
    r
}

/// A file's place under a directory, with one separator between the two.
pub fn join_path(dir: &str, name: &str) -> (r: String)
    ensures
        r@ == dir@ + "/"@ + name@,
{
    let mut r = dir.to_owned();
    r.append("/");
    r.append(name);
    proof {
        assert(r@ =~= dir@ + "/"@ + name@);
    }
    r
}

/// The argument list of the stage-A command: the fixed `enum` subcommand and
/// the task id.
pub open spec fn mxdys_args_spec(id: nat) -> Seq<Seq<char>> {
    seq!["enum"@, dec_rep(id)]
}

/// Builds the stage-A argument list for a task.
pub fn mxdys_args(id: u32) -> (r: Vec<String>)
    ensures
        r@.map_values(|s: String| s@) == mxdys_args_spec(id as nat),
{
    let mut r: Vec<String> = Vec::new();
    r.push("enum".to_owned());
    r.push(dec_string(id as u64));
    proof {
        assert(r@.map_values(|s: String| s@) =~= mxdys_args_spec(id as nat));
    }
    r
}

/// The argument list of the stage-B command: the interpreted script, the
/// holdouts file read and the artifact file written for the task, and the
/// fixed enumeration flags.
pub open spec fn sligocki_args_spec(script: Seq<char>, id: nat) -> Seq<Seq<char>> {
    seq![
        script,
        "--infile"@,
        holdouts_filename_spec(id),
        "--outfile"@,
        artifact_filename_spec(id),
        "-r"@,
        "--no-steps"@,
        "--exp-linear-rules"@,
        "--max-loops=100_000"@,
        "--block-mult=2"@,
        "--time=30"@,
        "--force"@,
        "--save-freq=50"@,
        "--debug-print-current"@,
    ]
}

/// Builds the stage-B argument list for a task.
pub fn sligocki_args(script_path: &str, id: u32) -> (r: Vec<String>)
    ensures
        r@.map_values(|s: String| s@) == sligocki_args_spec(script_path@, id as nat),
{
    let mut r: Vec<String> = Vec::new();
    r.push(script_path.to_owned());
    r.push("--infile".to_owned());
    r.push(holdouts_filename(id));
    r.push("--outfile".to_owned());
    r.push(artifact_filename(id));
    r.push("-r".to_owned());
    r.push("--no-steps".to_owned());
    r.push("--exp-linear-rules".to_owned());
    r.push("--max-loops=100_000".to_owned());
    r.push("--block-mult=2".to_owned());
    r.push("--time=30".to_owned());
    r.push("--force".to_owned());
    r.push("--save-freq=50".to_owned());
    r.push("--debug-print-current".to_owned());
    proof {
        assert(r@.map_values(|s: String| s@) =~= sligocki_args_spec(script_path@, id as nat));
    }
    r
}

/// The stage that follows a finished stage within one task: stage A advances
/// to stage B, stage B advances to relocation. The outcome of the finished
/// stage plays no part.
pub open spec fn next_stage(k: TaskKind) -> TaskKind {
    match k {
        TaskKind::MxdysEnum(id) => TaskKind::SligockiEnum(id),
        TaskKind::SligockiEnum(_) => TaskKind::MoveFile,
        other => other,
    }
}

/// Advances the pipeline past a finished stage. The returned marker depends
/// only on the current one: a non-zero exit or a missing status never stops
/// the pipeline from proceeding.
pub fn pipeline_next(current: &TaskKind, outcome: &ExitOutcome) -> (r: TaskKind)
    requires
        *current is MxdysEnum || *current is SligockiEnum,
    ensures
        r == next_stage(*current),
{
    let _ = outcome;
    match current {
        TaskKind::MxdysEnum(id) => TaskKind::SligockiEnum(*id),
        _ => TaskKind::MoveFile,
    }
}

/// The line logged when a stage's external process has ended.
pub open spec fn stage_finish_line_spec(k: TaskKind, elapsed_ms: nat, o: ExitOutcome) -> Seq<
    char,
> {
    (match k {
        TaskKind::MxdysEnum(id) => "mxdys enum "@ + dec_rep(id as nat),
        TaskKind::SligockiEnum(id) => "sligocki enum "@ + dec_rep(id as nat),
        _ => Seq::empty(),
    }) + " finished, "@ + dec_rep(elapsed_ms) + "ms, "@ + outcome_label_spec(o)
}

/// Builds the line logged when a stage's external process has ended.
pub fn stage_finish_line(k: &TaskKind, elapsed_ms: u64, o: &ExitOutcome) -> (r: String)
    requires
        *k is MxdysEnum || *k is SligockiEnum,
    ensures
        r@ == stage_finish_line_spec(*k, elapsed_ms as nat, *o),
{
    let mut r = match k {
        TaskKind::MxdysEnum(id) => {
            let mut s = "mxdys enum ".to_owned();
            s.append(dec_string(*id as u64).as_str());
            s
        },
        _ => {
            let id = match k {
                TaskKind::SligockiEnum(id) => *id,
                _ => 0,
            };
            let mut s = "sligocki enum ".to_owned();
            s.append(dec_string(id as u64).as_str());
            s
        },
    };
    r.append(" finished, ");
    r.append(dec_string(elapsed_ms).as_str());
    r.append("ms, ");
    r.append(outcome_label(o).as_str());
    proof {
        assert(r@ =~= stage_finish_line_spec(*k, elapsed_ms as nat, *o));
    }
    r
}

/// The diagnostic, if any, that relocation logs: a missing artifact and a
/// failed move are each reported and neither is an error — the task is
/// considered finished either way.
pub open spec fn relocation_diag_spec(
    artifact_present: bool,
    rename_ok: bool,
    from: Seq<char>,
    to: Seq<char>,
) -> Option<Seq<char>> {
    if !artifact_present {
        Some("Could not find "@ + from)
    } else if !rename_ok {
        Some("failed to move file: "@ + from + " to "@ + to)
    } else {
        None
    }
}

/// Decides what relocation reports. When the artifact is absent the move is
/// a no-op: a diagnostic is returned and nothing more happens; a failed
/// rename likewise only yields a diagnostic.
pub fn relocation_diagnostic(artifact_present: bool, rename_ok: bool, from: &str, to: &str) -> (r:
    Option<String>)
    ensures
        match r {
            Some(s) => relocation_diag_spec(artifact_present, rename_ok, from@, to@) == Some(s@),
            None => relocation_diag_spec(artifact_present, rename_ok, from@, to@) is None,
        },
{
    if !artifact_present {
        let mut s = "Could not find ".to_owned();
        s.append(from);
        proof {
            assert(s@ =~= "Could not find "@ + from@);
        }
        Some(s)
    } else if !rename_ok {
        let mut s = "failed to move file: ".to_owned();
        s.append(from);
        s.append(" to ");
        s.append(to);
        proof {
            assert(s@ =~= "failed to move file: "@ + from@ + " to "@ + to@);
        }
        Some(s)
    } else {
        None
    }
}

} // verus!
