//! What holds of the scan of a session log as a whole.

use vstd::prelude::*;

#[allow(unused_imports)]
use crate::batch::{lines_effect, resume_lines_effect, BatchProgressView};
#[allow(unused_imports)]
use crate::ingest::{line_effect, resume_effect};
#[allow(unused_imports)]
use crate::laws::{
    after_lines, amounts, counts_agree, law_recorded_turns_add_up, law_silent_lines_leave_no_trace,
    lines_of, performed, performed_by_lines, settled, sum, telling, telling_logged, tokens_recorded,
    totals_only_grow, Answer, LoggedLine,
};
#[allow(unused_imports)]
use crate::lines::{complete_len, lemma_no_lines, line_texts};
#[allow(unused_imports)]
use crate::path::LogPathView;
#[allow(unused_imports)]
use crate::progress::{FollowUpView, ProgressView};
#[allow(unused_imports)]
use crate::scan::{
    advance_effect, batch_request, bytes_effect, known_state, restored_files, start_effect,
    FileScanView, Files, ScanAnswer, ScanPhaseView, ScanProgressView, ScanRequestView,
};
#[allow(unused_imports)]
use crate::state::{FileStateView, IngestStateRowView};
#[allow(unused_imports)]
use crate::storage::{StorageActionView, StorageReply};
#[allow(unused_imports)]
use crate::time::Timestamp;

verus! {

/// The state and the progress once the storage has answered the actions of
/// lines, one after another, as far as the answers go.
pub open spec fn worked_off(
    state: FileStateView,
    progress: BatchProgressView,
    lines: Seq<Seq<char>>,
    answers: Seq<Answer>,
) -> (FileStateView, BatchProgressView)
    decreases answers.len(),
{
    match progress {
        BatchProgressView::Perform { follow_up, next_line, .. } => if answers.len() == 0 {
            (state, progress)
        } else {
            let next = resume_lines_effect(
                state,
                lines,
                next_line,
                follow_up,
                answers[0].reply,
                answers[0].now,
            );
            worked_off(next.0, next.1, lines, answers.skip(1))
        },
        BatchProgressView::Finished => (state, progress),
    }
}

/// The actions of lines that the storage carried out, in order.
pub open spec fn performed_by_batch(
    state: FileStateView,
    progress: BatchProgressView,
    lines: Seq<Seq<char>>,
    answers: Seq<Answer>,
) -> Seq<StorageActionView>
    decreases answers.len(),
{
    match progress {
        BatchProgressView::Perform { action, follow_up, next_line } => if answers.len() == 0 {
            seq![]
        } else {
            let next = resume_lines_effect(
                state,
                lines,
                next_line,
                follow_up,
                answers[0].reply,
                answers[0].now,
            );
            let rest = performed_by_batch(next.0, next.1, lines, answers.skip(1));
            if answers[0].reply is Done {
                seq![action] + rest
            } else {
                rest
            }
        },
        BatchProgressView::Finished => seq![],
    }
}

/// The rest of a line in the midst of its actions, and of the lines after it.
proof fn lemma_rest_of_line(
    state: FileStateView,
    action: StorageActionView,
    follow_up: FollowUpView,
    lines: Seq<Seq<char>>,
    next_line: int,
    answers: Seq<Answer>,
) -> (rest: (Seq<Answer>, Seq<LoggedLine>))
    requires
        0 <= next_line <= lines.len(),
        worked_off(
            state,
            BatchProgressView::Perform { action, follow_up, next_line },
            lines,
            answers,
        ).1 is Finished,
    ensures
        ({
            let progress = ProgressView::Perform { action, follow_up };
            let batch = BatchProgressView::Perform { action, follow_up, next_line };
            let after = settled(state, progress, rest.0);
            &&& !(after.1 is Perform)
            &&& lines_of(rest.1) == lines.skip(next_line)
            &&& worked_off(state, batch, lines, answers).0 == after_lines(after.0, rest.1)
            &&& performed_by_batch(state, batch, lines, answers) == performed(
                state,
                progress,
                rest.0,
            ) + performed_by_lines(after.0, rest.1)
        }),
    decreases answers.len(), lines.len() - next_line,
{
    let first = answers[0];
    let next = resume_effect(state, follow_up, first.reply, first.now);
    match next.1 {
        ProgressView::Perform { action: a, follow_up: f } => {
            let rest = lemma_rest_of_line(next.0, a, f, lines, next_line, answers.skip(1));
            let mine = seq![first] + rest.0;
            assert(mine.skip(1) == rest.0);
            (mine, rest.1)
        },
        _ => {
            let logged = lemma_line_by_line(next.0, lines, next_line, answers.skip(1));
            let mine = seq![first];
            assert(mine.skip(1) == Seq::<Answer>::empty());
            reveal_with_fuel(settled, 2);
            reveal_with_fuel(performed, 2);
            (mine, logged)
        },
    }
}

/// Lines that are worked off together, from `from` on.
proof fn lemma_line_by_line(
    state: FileStateView,
    lines: Seq<Seq<char>>,
    from: int,
    answers: Seq<Answer>,
) -> (logged: Seq<LoggedLine>)
    requires
        0 <= from <= lines.len(),
        ({
            let begun = lines_effect(state, lines, from);
            worked_off(begun.0, begun.1, lines, answers).1 is Finished
        }),
    ensures
        ({
            let begun = lines_effect(state, lines, from);
            &&& lines_of(logged) == lines.skip(from)
            &&& worked_off(begun.0, begun.1, lines, answers).0 == after_lines(state, logged)
            &&& performed_by_batch(begun.0, begun.1, lines, answers) == performed_by_lines(
                state,
                logged,
            )
        }),
    decreases answers.len(), lines.len() - from + 1,
{
    if from == lines.len() {
        assert(lines_of(seq![]) =~= lines.skip(from));
        seq![]
    } else {
        let line = lines[from];
        let begun = line_effect(state, line);
        let (mine, rest) = match begun.1 {
            ProgressView::Perform { action, follow_up } => lemma_rest_of_line(
                begun.0,
                action,
                follow_up,
                lines,
                from + 1,
                answers,
            ),
            _ => (seq![], lemma_line_by_line(begun.0, lines, from + 1, answers)),
        };
        let first = LoggedLine { line, answers: mine };
        let logged = seq![first] + rest;
        assert(logged.skip(1) == rest);
        assert(lines_of(logged) =~= seq![line] + lines_of(rest));
        assert(lines.skip(from) =~= seq![line] + lines.skip(from + 1));
        logged
    }
}

/// Working off lines is handling each of them once, in order, up to its end or
/// its failure, before the next.
pub proof fn law_lines_are_handled_one_by_one(
    state: FileStateView,
    lines: Seq<Seq<char>>,
    answers: Seq<Answer>,
) -> (logged: Seq<LoggedLine>)
    requires
        ({
            let begun = lines_effect(state, lines, 0);
            worked_off(begun.0, begun.1, lines, answers).1 is Finished
        }),
    ensures
        ({
            let begun = lines_effect(state, lines, 0);
            &&& lines_of(logged) == lines
            &&& worked_off(begun.0, begun.1, lines, answers).0 == after_lines(state, logged)
            &&& performed_by_batch(begun.0, begun.1, lines, answers) == performed_by_lines(
                state,
                logged,
            )
        }),
{
    assert(lines.skip(0) == lines);
    lemma_line_by_line(state, lines, 0, answers)
}

/// An answer to a request of a scan, and the time at which it came.
pub struct ScanStep {
    pub answer: ScanAnswer,
    pub now: Timestamp,
}

/// The logs and the progress once the requests of a scan have been answered,
/// one after another, as far as the answers go.
pub open spec fn scanned(files: Files, progress: ScanProgressView, steps: Seq<ScanStep>) -> (
    Files,
    ScanProgressView,
)
    decreases steps.len(),
{
    match progress {
        ScanProgressView::Ask { scan, .. } => if steps.len() == 0 {
            (files, progress)
        } else {
            let next = advance_effect(files, scan, steps[0].answer, steps[0].now);
            scanned(next.0, next.1, steps.skip(1))
        },
        _ => (files, progress),
    }
}

/// The actions of a scan that the storage carried out, in order.
pub open spec fn performed_by_scan(
    files: Files,
    progress: ScanProgressView,
    steps: Seq<ScanStep>,
) -> Seq<StorageActionView>
    decreases steps.len(),
{
    match progress {
        ScanProgressView::Ask { request, scan } => if steps.len() == 0 {
            seq![]
        } else {
            let next = advance_effect(files, scan, steps[0].answer, steps[0].now);
            let rest = performed_by_scan(next.0, next.1, steps.skip(1));
            match request {
                ScanRequestView::Perform { action } => if steps[0].answer is Done {
                    seq![action] + rest
                } else {
                    rest
                },
                _ => rest,
            }
        },
        _ => seq![],
    }
}

/// The scan of the log at `path`, which is `len` bytes long, as far as the
/// answers go.
pub open spec fn whole_scan(files: Files, path: LogPathView, len: u64, steps: Seq<ScanStep>) -> (
    Files,
    ScanProgressView,
) {
    let begun = start_effect(files, path, len);
    scanned(begun.0, begun.1, steps)
}

/// The actions of the scan of the log at `path` that the storage carried out.
pub open spec fn whole_scan_performed(
    files: Files,
    path: LogPathView,
    len: u64,
    steps: Seq<ScanStep>,
) -> Seq<StorageActionView> {
    let begun = start_effect(files, path, len);
    performed_by_scan(begun.0, begun.1, steps)
}

/// A scan that works off its lines and is carried through to its end.
proof fn lemma_lines_of_scan(
    files: Files,
    scan: FileScanView,
    worked: (FileStateView, BatchProgressView),
    now: Timestamp,
    steps: Seq<ScanStep>,
) -> (answers: Seq<Answer>)
    requires
        scanned(files, batch_request(scan, worked, now), steps).1 is Finished,
    ensures
        ({
            let request = batch_request(scan, worked, now);
            let after = worked_off(worked.0, worked.1, scan.lines, answers);
            &&& after.1 is Finished
            &&& scanned(files, request, steps).0 == files.insert(
                scan.path.parts,
                FileStateView { last_offset: scan.new_offset, ..after.0 },
            )
            &&& performed_by_scan(files, request, steps) == performed_by_batch(
                worked.0,
                worked.1,
                scan.lines,
                answers,
            )
        }),
    decreases steps.len(),
{
    let request = batch_request(scan, worked, now);
    let first = steps[0];
    match worked.1 {
        BatchProgressView::Perform { action, follow_up, next_line } => {
            let next = resume_lines_effect(
                worked.0,
                scan.lines,
                next_line,
                follow_up,
                first.answer.reply(),
                first.now,
            );
            let asked = request->scan;
            assert(batch_request(asked, next, first.now) == batch_request(scan, next, first.now));
            let rest = lemma_lines_of_scan(files, scan, next, first.now, steps.skip(1));
            let answers = seq![Answer { reply: first.answer.reply(), now: first.now }] + rest;
            assert(answers.skip(1) == rest);
            answers
        },
        BatchProgressView::Finished => {
            reveal_with_fuel(scanned, 4);
            reveal_with_fuel(performed_by_scan, 4);
            seq![]
        },
    }
}

/// A finished scan has handled each complete line of what it read once and in
/// order. The log is then known as those lines leave it, and will be read from
/// the end of the last of them on. Other logs are as they were.
pub proof fn law_scan_handles_each_line_once(
    files: Files,
    path: LogPathView,
    len: u64,
    bytes: Vec<u8>,
    steps: Seq<ScanStep>,
) -> (logged: Seq<LoggedLine>)
    requires
        len != known_state(files, path).last_offset,
        steps.len() > 0,
        steps[0].answer == (ScanAnswer::Bytes { bytes }),
        whole_scan(files, path, len, steps).1 is Finished,
        known_state(files, path).at_length(len).last_offset + bytes.len() <= u64::MAX,
    ensures
        ({
            let before = known_state(files, path).at_length(len);
            &&& lines_of(logged) == line_texts(bytes@)
            &&& whole_scan(files, path, len, steps).0 == files.insert(
                path.parts,
                FileStateView {
                    last_offset: (before.last_offset + complete_len(bytes@)) as u64,
                    ..after_lines(before, logged)
                },
            )
            &&& whole_scan_performed(files, path, len, steps) == performed_by_lines(before, logged)
        }),
{
    let before = known_state(files, path).at_length(len);
    let begun = start_effect(files, path, len);
    let scan = begun.1->scan;
    let read = bytes_effect(begun.0, scan, bytes@);
    let lines = line_texts(bytes@);
    if lines.len() == 0 {
        lemma_no_lines(bytes@);
        assert(lines_of(seq![]) =~= lines);
        assert(files.remove(path.parts).insert(path.parts, before) =~= files.insert(
            path.parts,
            before,
        ));
        reveal_with_fuel(scanned, 2);
        reveal_with_fuel(performed_by_scan, 2);
        seq![]
    } else {
        let opened = read.1->scan;
        let rest = steps.skip(1);
        assert(scanned(begun.0, begun.1, steps) == scanned(read.0, read.1, rest));
        assert(performed_by_scan(begun.0, begun.1, steps) == performed_by_scan(
            read.0,
            read.1,
            rest,
        ));
        assert(rest.len() > 0);
        assert(rest[0].answer is Done) by {
            reveal_with_fuel(scanned, 2);
        }
        let worked = lines_effect(before, lines, 0);
        let request = batch_request(opened, worked, rest[0].now);
        assert(scanned(read.0, read.1, rest) == scanned(read.0, request, rest.skip(1)));
        let answers = lemma_lines_of_scan(read.0, opened, worked, rest[0].now, rest.skip(1));
        let logged = law_lines_are_handled_one_by_one(before, lines, answers);
        let after = FileStateView {
            last_offset: opened.new_offset,
            ..after_lines(before, logged)
        };
        assert(files.remove(path.parts).insert(path.parts, after) =~= files.insert(
            path.parts,
            after,
        ));
        logged
    }
}

/// Blank and malformed lines change nothing but the offset, and do not hold up
/// the lines after them: a finished scan leaves its log as the other lines do,
/// read up to the end of the last complete line, and has only their actions
/// carried out.
pub proof fn law_silent_lines_change_only_the_offset(
    files: Files,
    path: LogPathView,
    len: u64,
    bytes: Vec<u8>,
    steps: Seq<ScanStep>,
) -> (logged: Seq<LoggedLine>)
    requires
        len != known_state(files, path).last_offset,
        steps.len() > 0,
        steps[0].answer == (ScanAnswer::Bytes { bytes }),
        whole_scan(files, path, len, steps).1 is Finished,
        known_state(files, path).at_length(len).last_offset + bytes.len() <= u64::MAX,
    ensures
        ({
            let before = known_state(files, path).at_length(len);
            &&& lines_of(logged) == telling(line_texts(bytes@))
            &&& whole_scan(files, path, len, steps).0 == files.insert(
                path.parts,
                FileStateView {
                    last_offset: (before.last_offset + complete_len(bytes@)) as u64,
                    ..after_lines(before, logged)
                },
            )
            &&& whole_scan_performed(files, path, len, steps) == performed_by_lines(before, logged)
        }),
{
    let before = known_state(files, path).at_length(len);
    let all = law_scan_handles_each_line_once(files, path, len, bytes, steps);
    law_silent_lines_leave_no_trace(before, all);
    telling_logged(all)
}

/// The turns that a finished scan recorded make up the difference between the
/// totals counted as recorded before and after it, as long as no totals on the
/// lines that it read go down.
pub proof fn law_turns_of_scan_add_up(
    files: Files,
    path: LogPathView,
    len: u64,
    bytes: Vec<u8>,
    steps: Seq<ScanStep>,
)
    requires
        len != known_state(files, path).last_offset,
        steps.len() > 0,
        steps[0].answer == (ScanAnswer::Bytes { bytes }),
        whole_scan(files, path, len, steps).1 is Finished,
        known_state(files, path).at_length(len).last_offset + bytes.len() <= u64::MAX,
        counts_agree(known_state(files, path)),
        totals_only_grow(
            known_state(files, path).at_length(len).last_seen,
            line_texts(bytes@),
        ),
    ensures
        ({
            let before = known_state(files, path).at_length(len);
            let after = known_state(whole_scan(files, path, len, steps).0, path);
            &&& counts_agree(after)
            &&& amounts(after.last_committed) == sum(
                amounts(before.last_committed),
                tokens_recorded(whole_scan_performed(files, path, len, steps)),
            )
        }),
{
    let before = known_state(files, path).at_length(len);
    let logged = law_scan_handles_each_line_once(files, path, len, bytes, steps);
    law_recorded_turns_add_up(before, logged);
}

/// The requests of a scan, in order, as far as the answers go.
pub open spec fn requests(files: Files, progress: ScanProgressView, steps: Seq<ScanStep>) -> Seq<
    ScanRequestView,
>
    decreases steps.len(),
{
    match progress {
        ScanProgressView::Ask { request, scan } => if steps.len() == 0 {
            seq![request]
        } else {
            let next = advance_effect(files, scan, steps[0].answer, steps[0].now);
            seq![request] + requests(next.0, next.1, steps.skip(1))
        },
        _ => seq![],
    }
}

/// Whether `asked` are actions, followed by what ends a transaction that
/// leaves the log at `path` as `state`.
pub open spec fn ends_transaction(
    asked: Seq<ScanRequestView>,
    path: LogPathView,
    state: FileStateView,
) -> bool {
    let n = asked.len() as int;
    &&& n >= 3
    &&& forall|i: int| 0 <= i < n - 3 ==> (#[trigger] asked[i]) is Perform
    &&& asked[n - 3] is UpdateActivity
    &&& asked[n - 2] == (ScanRequestView::SaveState { row: state.row(path) })
    &&& asked[n - 1] is Commit
}

proof fn lemma_lines_end_transaction(
    files: Files,
    scan: FileScanView,
    worked: (FileStateView, BatchProgressView),
    now: Timestamp,
    steps: Seq<ScanStep>,
)
    requires
        scanned(files, batch_request(scan, worked, now), steps).1 is Finished,
    ensures
        ({
            let request = batch_request(scan, worked, now);
            let after = scanned(files, request, steps).0;
            &&& ends_transaction(
                requests(files, request, steps),
                scan.path,
                known_state(after, scan.path),
            )
        }),
    decreases steps.len(),
{
    let request = batch_request(scan, worked, now);
    let first = steps[0];
    match worked.1 {
        BatchProgressView::Perform { action, follow_up, next_line } => {
            let next = resume_lines_effect(
                worked.0,
                scan.lines,
                next_line,
                follow_up,
                first.answer.reply(),
                first.now,
            );
            let asked = request->scan;
            assert(batch_request(asked, next, first.now) == batch_request(scan, next, first.now));
            lemma_lines_end_transaction(files, scan, next, first.now, steps.skip(1));
            let rest = requests(files, batch_request(scan, next, first.now), steps.skip(1));
            let all = requests(files, request, steps);
            assert(all == seq![request->request] + rest);
            assert forall|i: int| 0 <= i < all.len() - 3 implies (#[trigger] all[i]) is Perform by {
                if i > 0 {
                    assert(all[i] == rest[i - 1]);
                }
            }
        },
        BatchProgressView::Finished => {
            reveal_with_fuel(scanned, 4);
            reveal_with_fuel(requests, 4);
        },
    }
}

/// A finished scan that found lines did all its work in one transaction: after
/// the reading it began the transaction, had the actions of the lines carried
/// out, noted the activity, saved the state in which the log is then known,
/// and committed. Any other finished scan asked for no more than the reading.
pub proof fn law_scan_is_one_transaction(
    files: Files,
    path: LogPathView,
    len: u64,
    steps: Seq<ScanStep>,
)
    requires
        whole_scan(files, path, len, steps).1 is Finished,
    ensures
        ({
            let begun = start_effect(files, path, len);
            let asked = requests(begun.0, begun.1, steps);
            let after = known_state(whole_scan(files, path, len, steps).0, path);
            ||| asked.len() == 0
            ||| asked.len() == 1 && asked[0] is Read
            ||| asked.len() >= 2 && asked[0] is Read && asked[1] is BeginTransaction
                && ends_transaction(asked.skip(2), path, after)
        }),
{
    let begun = start_effect(files, path, len);
    if begun.1 is Ask {
        let read = advance_effect(begun.0, begun.1->scan, steps[0].answer, steps[0].now);
        let rest = steps.skip(1);
        let asked = requests(begun.0, begun.1, steps);
        assert(asked == seq![begun.1->request] + requests(read.0, read.1, rest));
        if read.1 is Ask {
            let opened = read.1->scan;
            assert(opened.phase is Opening);
            assert(scanned(begun.0, begun.1, steps) == scanned(read.0, read.1, rest));
            assert(rest.len() > 0);
            assert(rest[0].answer is Done) by {
                reveal_with_fuel(scanned, 2);
            }
            let worked = lines_effect(opened.state, opened.lines, 0);
            let request = batch_request(opened, worked, rest[0].now);
            assert(scanned(read.0, read.1, rest) == scanned(read.0, request, rest.skip(1)));
            lemma_lines_end_transaction(read.0, opened, worked, rest[0].now, rest.skip(1));
            assert(asked.skip(2) =~= requests(read.0, request, rest.skip(1)));
        }
    }
}

/// What a scan in the midst of its course keeps to: its log is not among the
/// known ones, and no other log is touched.
proof fn lemma_scan_keeps_to_its_log(
    files: Files,
    progress: ScanProgressView,
    path: LogPathView,
    steps: Seq<ScanStep>,
)
    requires
        progress matches ScanProgressView::Ask { scan, .. } ==> scan.path == path
            && !files.contains_key(path.parts),
        progress is Finished ==> files.contains_key(path.parts),
        progress is Failed ==> !files.contains_key(path.parts),
    ensures
        ({
            let after = scanned(files, progress, steps);
            &&& after.0.remove(path.parts) == files.remove(path.parts)
            &&& after.1 is Finished <==> after.0.contains_key(path.parts)
        }),
    decreases steps.len(),
{
    if progress is Ask && steps.len() > 0 {
        let scan = progress->scan;
        let next = advance_effect(files, scan, steps[0].answer, steps[0].now);
        assert(next.0.remove(path.parts) =~= files.remove(path.parts));
        lemma_scan_keeps_to_its_log(next.0, next.1, path, steps.skip(1));
    }
}

/// A scan touches no log but its own, and its own is known afterwards exactly
/// if the scan is finished: once it was given up, the log is forgotten.
pub proof fn law_scan_touches_one_log(
    files: Files,
    path: LogPathView,
    len: u64,
    steps: Seq<ScanStep>,
)
    ensures
        ({
            let after = whole_scan(files, path, len, steps);
            &&& after.0.remove(path.parts) == files.remove(path.parts)
            &&& after.1 is Finished <==> after.0.contains_key(path.parts)
        }),
{
    let begun = start_effect(files, path, len);
    assert(begun.0.remove(path.parts) =~= files.remove(path.parts));
    lemma_scan_keeps_to_its_log(begun.0, begun.1, path, steps);
}

/// A log whose scan was given up is read anew from its start.
pub proof fn law_forgotten_log_is_read_anew(
    files: Files,
    path: LogPathView,
    len: u64,
    steps: Seq<ScanStep>,
    next_len: u64,
)
    requires
        whole_scan(files, path, len, steps).1 is Failed,
        next_len > 0,
    ensures
        ({
            let next = start_effect(whole_scan(files, path, len, steps).0, path, next_len);
            &&& next.1 matches ScanProgressView::Ask { request, scan }
            &&& request == (ScanRequestView::Read { offset: 0 })
            &&& scan.state == FileStateView::fresh()
        }),
{
    law_scan_touches_one_log(files, path, len, steps);
}

/// A log is left alone as long as it ends where it was read up to, and stays
/// known as it is.
pub proof fn law_unchanged_log_is_left_alone(files: Files, path: LogPathView)
    ensures
        ({
            let known = known_state(files, path);
            let next = start_effect(files, path, known.last_offset);
            &&& next.1 is Finished
            &&& known_state(next.0, path) == known
            &&& next.0.remove(path.parts) == files.remove(path.parts)
        }),
{
    let known = known_state(files, path);
    assert(files.insert(path.parts, known).remove(path.parts) =~= files.remove(path.parts));
}

/// A log that became shorter is read from its start, with all counts at zero.
/// A log that became longer is read on from where it was read up to.
pub proof fn law_changed_log_is_read(files: Files, path: LogPathView, len: u64)
    requires
        len != known_state(files, path).last_offset,
    ensures
        ({
            let known = known_state(files, path);
            let next = start_effect(files, path, len);
            &&& next.1 matches ScanProgressView::Ask { request, scan }
            &&& len < known.last_offset ==> request == (ScanRequestView::Read { offset: 0 })
                && scan.state == known.rewound()
            &&& len > known.last_offset ==> request == (ScanRequestView::Read {
                offset: known.last_offset,
            }) && scan.state == known
        }),
{
}

/// How a path is spelled makes no difference: paths with the same components
/// lead to the same log, in the same state, and ask for the same.
pub proof fn law_spelling_makes_no_difference(
    files: Files,
    path: LogPathView,
    other: LogPathView,
    len: u64,
)
    requires
        path.parts == other.parts,
    ensures
        ({
            let a = start_effect(files, path, len);
            let b = start_effect(files, other, len);
            &&& known_state(files, path) == known_state(files, other)
            &&& a.0 == b.0
            &&& a.1 is Finished <==> b.1 is Finished
            &&& a.1 is Ask ==> a.1->request == b.1->request && a.1->scan == (FileScanView {
                path,
                ..b.1->scan
            })
        }),
{
}

/// Lines are worked off from the first on, up to the first that asks for
/// something, and what it asks for is asked. Lines that ask for nothing, or
/// fail, do not hold up the next.
pub proof fn law_lines_follow_each_other(
    state: FileStateView,
    lines: Seq<Seq<char>>,
    from: int,
)
    requires
        0 <= from,
    ensures
        from >= lines.len() ==> lines_effect(state, lines, from) == (
            state,
            BatchProgressView::Finished,
        ),
        from < lines.len() ==> {
            let one = line_effect(state, lines[from]);
            &&& one.1 is Perform ==> lines_effect(state, lines, from) == (
                one.0,
                BatchProgressView::Perform {
                    action: one.1->action,
                    follow_up: one.1->follow_up,
                    next_line: from + 1,
                },
            )
            &&& !(one.1 is Perform) ==> lines_effect(state, lines, from) == lines_effect(
                one.0,
                lines,
                from + 1,
            )
        },
{
}

/// After an answer the event that asked is gone on with. Once it is over,
/// whether it went through or failed, the next line follows.
pub proof fn law_lines_go_on_after_an_answer(
    state: FileStateView,
    lines: Seq<Seq<char>>,
    next_line: int,
    follow_up: FollowUpView,
    answer: Answer,
)
    ensures
        ({
            let one = resume_effect(state, follow_up, answer.reply, answer.now);
            let after = resume_lines_effect(
                state,
                lines,
                next_line,
                follow_up,
                answer.reply,
                answer.now,
            );
            &&& one.1 is Perform ==> after == (
                one.0,
                BatchProgressView::Perform {
                    action: one.1->action,
                    follow_up: one.1->follow_up,
                    next_line,
                },
            )
            &&& !(one.1 is Perform) ==> after == lines_effect(one.0, lines, next_line)
        }),
{
}

/// What stored rows make known: of the rows of a log the last one, and nothing
/// of a log without a row.
pub proof fn law_stored_logs_are_known(
    rows: Seq<IngestStateRowView>,
    path: LogPathView,
    i: int,
)
    ensures
        0 <= i < rows.len() && rows[i].path.parts == path.parts && (forall|j: int|
            i < j < rows.len() ==> (#[trigger] rows[j]).path.parts != path.parts) ==> known_state(
            restored_files(rows),
            path,
        ) == FileStateView::restored(rows[i]),
        (forall|j: int| 0 <= j < rows.len() ==> (#[trigger] rows[j]).path.parts != path.parts)
            ==> known_state(restored_files(rows), path) == FileStateView::fresh()
            && !restored_files(rows).contains_key(path.parts),
    decreases rows.len(),
{
    if rows.len() > 0 {
        let front = rows.drop_last();
        let n = rows.len() - 1;
        law_stored_logs_are_known(front, path, i);
        if forall|j: int| 0 <= j < rows.len() ==> (#[trigger] rows[j]).path.parts != path.parts {
            assert(rows[n].path.parts != path.parts);
            assert forall|j: int| 0 <= j < front.len() implies (#[trigger] front[j]).path.parts
                != path.parts by {
                assert(front[j] == rows[j]);
            }
        }
        if 0 <= i < n && rows[i].path.parts == path.parts && (forall|j: int|
            i < j < rows.len() ==> (#[trigger] rows[j]).path.parts != path.parts) {
            assert(rows[n].path.parts != path.parts);
            assert(front[i] == rows[i]);
            assert forall|j: int| i < j < front.len() implies (#[trigger] front[j]).path.parts
                != path.parts by {
                assert(front[j] == rows[j]);
            }
        }
    }
}

/// The steps of a scan up to its lines. The bytes are read; where they hold no
/// complete line the log stays known as it is, and the scan is over. Otherwise
/// a transaction is begun, and in it the lines are worked off from the first.
pub proof fn law_scan_begins_with_the_bytes(
    files: Files,
    scan: FileScanView,
    bytes: Vec<u8>,
    message_id: i64,
    now: Timestamp,
)
    ensures
        scan.phase is Reading ==> {
            let after = advance_effect(files, scan, ScanAnswer::Bytes { bytes }, now);
            &&& line_texts(bytes@).len() == 0 ==> after == (
                files.insert(scan.path.parts, scan.state),
                ScanProgressView::Finished,
            )
            &&& line_texts(bytes@).len() > 0 ==> {
                &&& after.0 == files
                &&& after.1 is Ask
                &&& after.1->request is BeginTransaction
                &&& after.1->scan == (FileScanView {
                    lines: line_texts(bytes@),
                    new_offset: (scan.state.last_offset + complete_len(bytes@)) as u64,
                    phase: ScanPhaseView::Opening,
                    ..scan
                })
            }
        },
        scan.phase is Opening ==> {
            let after = advance_effect(files, scan, ScanAnswer::Done { message_id }, now);
            &&& after.0 == files
            &&& work_is_asked(scan, lines_effect(scan.state, scan.lines, 0), now, after.1)
        },
{
}

/// Whether a scan that worked off its lines this far asks for what comes next:
/// the action of a line or, after the last line, the activity to be noted, with
/// the log read up to the end of the last line.
pub open spec fn work_is_asked(
    scan: FileScanView,
    worked: (FileStateView, BatchProgressView),
    now: Timestamp,
    progress: ScanProgressView,
) -> bool {
    &&& progress is Ask
    &&& worked.1 is Perform ==> {
        &&& progress->request == (ScanRequestView::Perform { action: worked.1->action })
        &&& progress->scan == (FileScanView {
            state: worked.0,
            phase: ScanPhaseView::Working {
                follow_up: worked.1->follow_up,
                next_line: worked.1->next_line,
            },
            ..scan
        })
    }
    &&& worked.1 is Finished ==> {
        &&& progress->request == (ScanRequestView::UpdateActivity { at: now })
        &&& progress->scan == (FileScanView {
            state: FileStateView { last_offset: scan.new_offset, ..worked.0 },
            phase: ScanPhaseView::Noting,
            ..scan
        })
    }
}

/// The steps of a scan from its lines on. After each answer to an action, a
/// failure too, the lines are gone on with. Then the state is saved as it is,
/// the transaction is committed, and only then is the log known again.
pub proof fn law_scan_ends_with_the_commit(
    files: Files,
    scan: FileScanView,
    answer: ScanAnswer,
    message_id: i64,
    now: Timestamp,
)
    ensures
        scan.phase matches ScanPhaseView::Working { follow_up, next_line } ==> {
            let reply = match answer {
                ScanAnswer::Done { message_id } => StorageReply::Done { message_id },
                _ => StorageReply::Failed,
            };
            let after = advance_effect(files, scan, answer, now);
            &&& after.0 == files
            &&& work_is_asked(
                scan,
                resume_lines_effect(scan.state, scan.lines, next_line, follow_up, reply, now),
                now,
                after.1,
            )
        },
        ({
            let after = advance_effect(files, scan, ScanAnswer::Done { message_id }, now);
            &&& scan.phase is Noting ==> after == (
                files,
                ScanProgressView::Ask {
                    request: ScanRequestView::SaveState { row: scan.state.row(scan.path) },
                    scan: FileScanView { phase: ScanPhaseView::Saving, ..scan },
                },
            )
            &&& scan.phase is Saving ==> after == (
                files,
                ScanProgressView::Ask {
                    request: ScanRequestView::Commit,
                    scan: FileScanView { phase: ScanPhaseView::Committing, ..scan },
                },
            )
            &&& scan.phase is Committing ==> after == (
                files.insert(scan.path.parts, scan.state),
                ScanProgressView::Finished,
            )
        }),
{
}

/// Any failure outside of an action gives the scan up, and so does an answer
/// that does not fit. The known logs stay as they are, without the one that was
/// scanned.
pub proof fn law_failure_gives_the_scan_up(
    files: Files,
    scan: FileScanView,
    answer: ScanAnswer,
    now: Timestamp,
)
    requires
        !(scan.phase is Working),
        scan.phase is Reading ==> !(answer is Bytes),
        !(scan.phase is Reading) ==> !(answer is Done),
    ensures
        advance_effect(files, scan, answer, now) == (files, ScanProgressView::Failed),
{
}

/// A scan starts with what is known of its log, and takes it out of the known
/// ones while it goes on.
pub proof fn law_scan_starts_with_what_is_known(files: Files, path: LogPathView, len: u64)
    ensures
        files.contains_key(path.parts) ==> known_state(files, path) == files[path.parts],
        !files.contains_key(path.parts) ==> known_state(files, path) == FileStateView::fresh(),
        ({
            let known = known_state(files, path);
            let begun = start_effect(files, path, len);
            &&& len == known.last_offset ==> begun == (
                files.insert(path.parts, known),
                ScanProgressView::Finished,
            )
            &&& len != known.last_offset ==> {
                &&& begun.0 == files.remove(path.parts)
                &&& begun.1 is Ask
                &&& begun.1->request == (ScanRequestView::Read {
                    offset: if len < known.last_offset {
                        0
                    } else {
                        known.last_offset
                    },
                })
                &&& begun.1->scan.path == path
                &&& begun.1->scan.state == known.at_length(len)
                &&& begun.1->scan.phase is Reading
                &&& begun.1->scan.lines.len() == 0
                &&& begun.1->scan.new_offset == begun.1->scan.state.last_offset
            }
        }),
{
}

} // verus!
