//! Status reporting over the pool: the periodic per-worker status lines, the
//! per-worker completion line, the global-completion check and the final
//! total-elapsed summary.

use crate::digits::{dec_rep, dec_string};
use crate::TaskKind;
use vstd::prelude::*;
use vstd::string::StringExecFns;

verus! {

/// One worker's state as read under its lock: its index in the pool, its
/// stage marker, the time elapsed since its last spawn started, and the most
/// recent stdout line it captured, if any.
pub struct WorkerSnapshot {
    pub worker_id: u64,
    pub kind: TaskKind,
    pub elapsed_ms: u64,
    pub last_line: Option<String>,
}

/// The view of an optional captured line.
pub open spec fn opt_line_view(o: Option<String>) -> Option<Seq<char>> {
    match o {
        Some(s) => Some(s@),
        None => None,
    }
}

/// A captured line, or the placeholder shown while nothing was captured yet.
pub open spec fn last_line_text(last: Option<Seq<char>>) -> Seq<char> {
    match last {
        Some(l) => l,
        None => "buffer empty"@,
    }
}

/// The display name of a stage marker.
pub open spec fn marker_label_spec(k: TaskKind) -> Seq<char> {
    match k {
        TaskKind::Uninit => "Uninit"@,
        TaskKind::MxdysEnum(id) => "MxdysEnum("@ + dec_rep(id as nat) + ")"@,
        TaskKind::SligockiEnum(id) => "SligockiEnum("@ + dec_rep(id as nat) + ")"@,
        TaskKind::MoveFile => "MoveFile"@,
        TaskKind::Done => "Done"@,
    }
}

/// Renders the display name of a stage marker.
pub fn marker_label(k: &TaskKind) -> (r: String)
    ensures
        r@ == marker_label_spec(*k),
{
    let r = match k {
        TaskKind::Uninit => "Uninit".to_owned(),
        TaskKind::MxdysEnum(id) => {
            let mut s = "MxdysEnum(".to_owned();
            s.append(dec_string(*id as u64).as_str());
            s.append(")");
            s
        },
        TaskKind::SligockiEnum(id) => {
            let mut s = "SligockiEnum(".to_owned();
            s.append(dec_string(*id as u64).as_str());
            s.append(")");
            s
        },
        TaskKind::MoveFile => "MoveFile".to_owned(),
        TaskKind::Done => "Done".to_owned(),
    };
    proof {
        assert(r@ =~= marker_label_spec(*k));
    }
    r
}

/// One status line: a leading `>` groups the first line of a report, every
/// further line is indented; then the worker's index, its marker, the time
/// elapsed in its current stage, and the last captured stdout line.
pub open spec fn status_line_spec(
    first: bool,
    worker_id: nat,
    k: TaskKind,
    elapsed_ms: nat,
    last: Option<Seq<char>>,
) -> Seq<char> {
    (if first {
        ">"@
    } else {
        " "@
    }) + "["@ + dec_rep(worker_id) + "] "@ + marker_label_spec(k) + " - elapsed "@ + dec_rep(
        elapsed_ms,
    ) + "ms; last line: "@ + last_line_text(last)
}

/// Renders one status line for a worker snapshot.
pub fn status_line(first: bool, snap: &WorkerSnapshot) -> (r: String)
    ensures
        r@ == status_line_spec(
            first,
            snap.worker_id as nat,
            snap.kind,
            snap.elapsed_ms as nat,
            opt_line_view(snap.last_line),
        ),
{
    let mut r = if first {
        ">".to_owned()
    } else {
        " ".to_owned()
    };
    r.append("[");
    r.append(dec_string(snap.worker_id).as_str());
    r.append("] ");
    r.append(marker_label(&snap.kind).as_str());
    r.append(" - elapsed ");
    r.append(dec_string(snap.elapsed_ms).as_str());
    r.append("ms; last line: ");
    match &snap.last_line {
        Some(l) => r.append(l.as_str()),
        None => r.append("buffer empty"),
    }
    proof {
        assert(r@ =~= status_line_spec(
            first,
            snap.worker_id as nat,
            snap.kind,
            snap.elapsed_ms as nat,
            opt_line_view(snap.last_line),
        ));
    }
    r
}

/// The status report for a sequence of snapshots: one line per worker whose
/// marker is not `Done`, in pool order; the first such line is the report's
/// first and carries the grouping prefix.
pub open spec fn status_lines_spec(snaps: Seq<WorkerSnapshot>, first: bool) -> Seq<Seq<char>>
    decreases snaps.len(),
{
    if snaps.len() == 0 {
        Seq::empty()
    } else if snaps[0].kind is Done {
        status_lines_spec(snaps.drop_first(), first)
    } else {
        seq![
            status_line_spec(
                first,
                snaps[0].worker_id as nat,
                snaps[0].kind,
                snaps[0].elapsed_ms as nat,
                opt_line_view(snaps[0].last_line),
            ),
        ] + status_lines_spec(snaps.drop_first(), false)
    }
}

/// The snapshots of the workers that are not `Done`, in pool order.
pub open spec fn active_snaps(snaps: Seq<WorkerSnapshot>) -> Seq<WorkerSnapshot>
    decreases snaps.len(),
{
    if snaps.len() == 0 {
        Seq::empty()
    } else if snaps[0].kind is Done {
        active_snaps(snaps.drop_first())
    } else {
        seq![snaps[0]] + active_snaps(snaps.drop_first())
    }
}

/// A status report never holds a line for a worker whose marker is `Done`:
/// the report of any snapshot sequence is exactly the report of its non-done
/// snapshots, one line for each of them.
pub proof fn lemma_status_skips_done(snaps: Seq<WorkerSnapshot>, first: bool)
    ensures
        status_lines_spec(snaps, first) == status_lines_spec(active_snaps(snaps), first),
        status_lines_spec(snaps, first).len() == active_snaps(snaps).len(),
    decreases snaps.len(),
{
    if snaps.len() == 0 {
    } else {
        let rest = snaps.drop_first();
        lemma_status_skips_done(rest, first);
        lemma_status_skips_done(rest, false);
        if snaps[0].kind is Done {
        } else {
            let with_head = seq![snaps[0]] + active_snaps(rest);
            assert(with_head[0] == snaps[0]);
            assert(with_head.drop_first() =~= active_snaps(rest));
        }
    }
}

/// Builds the status report: one line per snapshot whose marker is not
/// `Done`, the first line with the grouping prefix.
pub fn status_lines(snaps: &Vec<WorkerSnapshot>) -> (r: Vec<String>)
    ensures
        r@.map_values(|s: String| s@) == status_lines_spec(snaps@, true),
{
    let mut r: Vec<String> = Vec::new();
    let mut idx: usize = 0;
    let mut first = true;
    proof {
        assert(snaps@.skip(0) =~= snaps@);
        assert(r@.map_values(|s: String| s@) + status_lines_spec(snaps@, true) =~= status_lines_spec(
            snaps@,
            true,
        ));
    }
    while idx < snaps.len()
        invariant
            0 <= idx <= snaps@.len(),
            r@.map_values(|s: String| s@) + status_lines_spec(snaps@.skip(idx as int), first)
                == status_lines_spec(snaps@, true),
        decreases snaps@.len() - idx,
    {
        proof {
            assert(snaps@.skip(idx as int)[0] == snaps@[idx as int]);
            assert(snaps@.skip(idx as int).drop_first() =~= snaps@.skip(idx as int + 1));
        }
        let ghost prev = r@.map_values(|s: String| s@);
        let snap = &snaps[idx];
        if !snap.kind.is_done_marker() {
            let line = status_line(first, snap);
            r.push(line);
            proof {
                assert(r@.map_values(|s: String| s@) =~= prev.push(r@.last()@));
                assert(r@.map_values(|s: String| s@) + status_lines_spec(
                    snaps@.skip(idx as int + 1),
                    false,
                ) =~= status_lines_spec(snaps@, true));
            }
            first = false;
        }
        idx = idx + 1;
    }
    proof {
        assert(status_lines_spec(snaps@.skip(snaps@.len() as int), first) =~= Seq::<
            Seq<char>,
        >::empty());
        assert(r@.map_values(|s: String| s@) =~= status_lines_spec(snaps@, true));
    }
    r
}

/// The pool has globally completed exactly when every worker's marker is
/// `Done`.
pub fn all_done(kinds: &Vec<TaskKind>) -> (r: bool)
    ensures
        r <==> (forall|i: int| 0 <= i < kinds@.len() ==> kinds@[i] is Done),
{
    let mut idx: usize = 0;
    while idx < kinds.len()
        invariant
            0 <= idx <= kinds@.len(),
            forall|i: int| 0 <= i < idx ==> kinds@[i] is Done,
        decreases kinds@.len() - idx,
    {
        if !kinds[idx].is_done_marker() {
            return false;
        }
        idx = idx + 1;
    }
    true
}

/// The line a worker prints when the queue is exhausted and it terminates.
pub open spec fn finish_line_spec(worker_id: nat, last: Option<Seq<char>>) -> Seq<char> {
    "Worker "@ + dec_rep(worker_id) + " finished. "@ + last_line_text(last)
}

/// Builds a worker's final completion line.
pub fn finish_line(worker_id: u64, last: &Option<String>) -> (r: String)
    ensures
        r@ == finish_line_spec(worker_id as nat, opt_line_view(*last)),
{
    let mut r = "Worker ".to_owned();
    r.append(dec_string(worker_id).as_str());
    r.append(" finished. ");
    match last {
        Some(l) => r.append(l.as_str()),
        None => r.append("buffer empty"),
    }
    proof {
        assert(r@ =~= finish_line_spec(worker_id as nat, opt_line_view(*last)));
    }
    r
}

/// What the outside duration formatter prints, in its compact format, for a
/// duration of the given milliseconds.
pub uninterp spec fn pretty_compact_of(ms: nat) -> Seq<char>;

/// Relies on `pretty_duration::pretty_duration` with the compact output
/// format: the result depends only on the duration's milliseconds.
#[verifier::external_body]
fn pretty_ms_compact(ms: u64) -> (r: String)
    ensures
        r@ == pretty_compact_of(ms as nat),
{
    pretty_duration::pretty_duration(
        &std::time::Duration::from_millis(ms),
        Some(
            pretty_duration::PrettyDurationOptions {
                output_format: Some(pretty_duration::PrettyDurationOutputFormat::Compact),
                singular_labels: None,
                plural_labels: None,
            },
        ),
    )
}

/// The summary printed once when the whole pool is done.
pub open spec fn summary_line_spec(total_ms: nat) -> Seq<char> {
    "All done, "@ + pretty_compact_of(total_ms) + "."@
}

/// Builds the total-elapsed summary line.
pub fn summary_line(total_ms: u64) -> (r: String)
    ensures
        r@ == summary_line_spec(total_ms as nat),
{
    let mut r = "All done, ".to_owned();
    r.append(pretty_ms_compact(total_ms).as_str());
    r.append(".");
    proof {
        assert(r@ =~= summary_line_spec(total_ms as nat));
    }
    r
}

} // verus!
