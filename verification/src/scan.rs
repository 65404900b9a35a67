//! Scanning session logs: what is known of each of them, and the course of one
//! scan.

use vstd::prelude::*;

use crate::batch::{process_lines, resume_lines, BatchProgress};
#[allow(unused_imports)]
use crate::batch::{lines_effect, resume_lines_effect, BatchProgressView};
use crate::lines::read_new_lines;
#[allow(unused_imports)]
use crate::lines::{complete_len, line_texts, texts};
use crate::path::{copy_path, same_path, LogPath};
#[allow(unused_imports)]
use crate::path::{LogPathView, PathPartView};
use crate::progress::FollowUp;
#[allow(unused_imports)]
use crate::progress::FollowUpView;
use crate::state::{FileState, IngestStateRow};
#[allow(unused_imports)]
use crate::state::{FileStateView, IngestStateRowView};
use crate::storage::{StorageAction, StorageReply};
#[allow(unused_imports)]
use crate::storage::StorageActionView;
use crate::time::Timestamp;
#[allow(unused_imports)]
use crate::time::is_clock_reading;

verus! {

/// The logs that are known, by the components of their paths.
pub type Files = Map<Seq<PathPartView>, FileStateView>;

/// What is kept of the logs that are known, by path.
pub open spec fn files_view(files: Seq<(LogPath, FileState)>) -> Files
    decreases files.len(),
{
    if files.len() == 0 {
        Map::empty()
    } else {
        files_view(files.drop_last()).insert(files.last().0@.parts, files.last().1@)
    }
}

/// What stored rows hold.
pub open spec fn rows_view(rows: Seq<IngestStateRow>) -> Seq<IngestStateRowView> {
    rows.map_values(|row: IngestStateRow| row@)
}

/// The logs that stored rows describe. Of two rows for one path the later
/// counts.
pub open spec fn restored_files(rows: Seq<IngestStateRowView>) -> Files
    decreases rows.len(),
{
    if rows.len() == 0 {
        Map::empty()
    } else {
        restored_files(rows.drop_last()).insert(
            rows.last().path.parts,
            FileStateView::restored(rows.last()),
        )
    }
}

/// What is known of the log at `path`, which may be nothing yet.
pub open spec fn known_state(files: Files, path: LogPathView) -> FileStateView {
    if files.contains_key(path.parts) {
        files[path.parts]
    } else {
        FileStateView::fresh()
    }
}

/// What is to be done about a log.
#[derive(Debug)]
pub enum FileWork {
    /// Nothing: it has not changed.
    UpToDate,
    /// It is to be read from the offset in `state` on.
    Read { state: FileState },
}

/// The session logs that are known, by path.
pub struct SessionIngestor {
    files: Vec<(LogPath, FileState)>,
}

impl View for SessionIngestor {
    type V = Files;

    closed spec fn view(&self) -> Files {
        files_view(self.files@)
    }
}

impl SessionIngestor {
    /// The logs that stored rows describe.
    pub fn new(rows: &Vec<IngestStateRow>) -> (ingestor: SessionIngestor)
        ensures
            ingestor@ == restored_files(rows_view(rows@)),
    {
        let mut ingestor = SessionIngestor { files: Vec::new() };
        let ghost all = rows_view(rows@);
        let mut i: usize = 0;
        while i < rows.len()
            invariant
                i <= rows@.len(),
                all == rows_view(rows@),
                ingestor@ == restored_files(all.take(i as int)),
            decreases rows.len() - i,
        {
            assert(all.take(i + 1).drop_last() == all.take(i as int));
            assert(all.take(i + 1).last() == rows@[i as int]@);
            ingestor.put_state(&rows[i].path, FileState::from_state(&rows[i]));
            i = i + 1;
        }
        assert(all.take(all.len() as int) == all);
        ingestor
    }

    /// Takes out what is known of the log at `path`.
    pub fn take_state(&mut self, path: &LogPath) -> (state: FileState)
        ensures
            state@ == known_state(old(self)@, path@),
            final(self)@ == old(self)@.remove(path@.parts),
    {
        let mut files: Vec<(LogPath, FileState)> = Vec::new();
        std::mem::swap(&mut files, &mut self.files);
        let ghost all = files@;
        let mut kept: Vec<(LogPath, FileState)> = Vec::new();
        let mut state: FileState = FileState::new();
        assert(files_view(kept@) =~= files_view(all.take(0)).remove(path@.parts));
        for file in it: files.into_iter()
            invariant
                it.seq() == all,
                files_view(kept@) == files_view(all.take(it.index())).remove(path@.parts),
                state@ == known_state(files_view(all.take(it.index())), path@),
        {
            let ghost i = it.index();
            assert(all.take(i + 1).drop_last() == all.take(i));
            assert(all.take(i + 1).last() == file);
            let ghost before = kept@;
            if same_path(&file.0, path) {
                state = file.1;
            } else {
                kept.push(file);
                assert(kept@.drop_last() == before);
            }
            assert(files_view(kept@) =~= files_view(all.take(i + 1)).remove(path@.parts));
        }
        assert(all.take(all.len() as int) == all);
        self.files = kept;
        state
    }

    /// Keeps what is known of the log at `path`.
    pub fn put_state(&mut self, path: &LogPath, state: FileState)
        ensures
            final(self)@ == old(self)@.insert(path@.parts, state@),
    {
        let ghost before = self.files@;
        self.files.push((copy_path(path), state));
        assert(self.files@.drop_last() == before);
    }

    /// Decides what is to be done about the log at `path`, which is `len`
    /// bytes long. What is known of a log that is to be read is taken out; it
    /// is lost unless it is put back.
    pub fn open_file(&mut self, path: &LogPath, len: u64) -> (work: FileWork)
        ensures
            ({
                let known = known_state(old(self)@, path@);
                if len == known.last_offset {
                    &&& work is UpToDate
                    &&& final(self)@ == old(self)@.insert(path@.parts, known)
                } else {
                    &&& work matches FileWork::Read { state } && state@ == known.at_length(len)
                    &&& final(self)@ == old(self)@.remove(path@.parts)
                }
            }),
    {
        let mut state: FileState = self.take_state(path);
        if len == state.last_offset {
            self.put_state(path, state);
            assert(self@ =~= old(self)@.insert(path@.parts, state@));
            return FileWork::UpToDate;
        }
        state.notice_length(len);
        FileWork::Read { state }
    }
}

/// What the scan of a log waits for.
#[derive(Debug)]
pub enum ScanPhase {
    /// The bytes of the log from its offset on.
    Reading,
    /// A transaction.
    Opening,
    /// An action that an event asked for. Then the follow-up is due, and the
    /// lines from `next_line` on.
    Working { follow_up: FollowUp, next_line: usize },
    /// The time of the last activity to be noted.
    Noting,
    /// The state of the log to be saved.
    Saving,
    /// The transaction to be committed.
    Committing,
}

/// What a [`ScanPhase`] holds.
#[verifier::ext_equal]
pub enum ScanPhaseView {
    Reading,
    Opening,
    Working { follow_up: FollowUpView, next_line: int },
    Noting,
    Saving,
    Committing,
}

impl View for ScanPhase {
    type V = ScanPhaseView;

    open spec fn view(&self) -> ScanPhaseView {
        match self {
            ScanPhase::Reading => ScanPhaseView::Reading,
            ScanPhase::Opening => ScanPhaseView::Opening,
            ScanPhase::Working { follow_up, next_line } => ScanPhaseView::Working {
                follow_up: follow_up@,
                next_line: *next_line as int,
            },
            ScanPhase::Noting => ScanPhaseView::Noting,
            ScanPhase::Saving => ScanPhaseView::Saving,
            ScanPhase::Committing => ScanPhaseView::Committing,
        }
    }
}

/// The scan of one log.
#[derive(Debug)]
pub struct FileScan {
    pub path: LogPath,
    pub state: FileState,
    pub lines: Vec<String>,
    /// The offset up to which the log has been read.
    pub new_offset: u64,
    pub phase: ScanPhase,
}

/// What a [`FileScan`] holds.
#[verifier::ext_equal]
pub struct FileScanView {
    pub path: LogPathView,
    pub state: FileStateView,
    pub lines: Seq<Seq<char>>,
    pub new_offset: u64,
    pub phase: ScanPhaseView,
}

impl View for FileScan {
    type V = FileScanView;

    open spec fn view(&self) -> FileScanView {
        FileScanView {
            path: self.path@,
            state: self.state@,
            lines: texts(self.lines@),
            new_offset: self.new_offset,
            phase: self.phase@,
        }
    }
}

/// What the scan of a log asks for.
#[derive(Debug)]
pub enum ScanRequest {
    /// The bytes of the log from `offset` on.
    Read { offset: u64 },
    /// A transaction, in which all that follows takes place.
    BeginTransaction,
    /// An action of the storage.
    Perform { action: StorageAction },
    /// The time of the last activity to be noted.
    UpdateActivity { at: Timestamp },
    /// The state of the log to be saved.
    SaveState { row: IngestStateRow },
    /// The transaction to be committed.
    Commit,
}

/// What a [`ScanRequest`] holds.
#[verifier::ext_equal]
pub enum ScanRequestView {
    Read { offset: u64 },
    BeginTransaction,
    Perform { action: StorageActionView },
    UpdateActivity { at: Timestamp },
    SaveState { row: IngestStateRowView },
    Commit,
}

impl View for ScanRequest {
    type V = ScanRequestView;

    open spec fn view(&self) -> ScanRequestView {
        match self {
            ScanRequest::Read { offset } => ScanRequestView::Read { offset: *offset },
            ScanRequest::BeginTransaction => ScanRequestView::BeginTransaction,
            ScanRequest::Perform { action } => ScanRequestView::Perform { action: action@ },
            ScanRequest::UpdateActivity { at } => ScanRequestView::UpdateActivity { at: *at },
            ScanRequest::SaveState { row } => ScanRequestView::SaveState { row: row@ },
            ScanRequest::Commit => ScanRequestView::Commit,
        }
    }
}

/// The answer to a request of a scan.
#[derive(Debug)]
pub enum ScanAnswer {
    /// The request failed.
    Failed,
    /// The bytes that were asked for.
    Bytes { bytes: Vec<u8> },
    /// The request succeeded. The identifier is that of a recorded user
    /// message; after any other request it means nothing.
    Done { message_id: i64 },
}

impl ScanAnswer {
    /// The answer as one of the storage. Bytes are no answer of the storage.
    pub open spec fn reply(self) -> StorageReply {
        match self {
            ScanAnswer::Done { message_id } => StorageReply::Done { message_id },
            _ => StorageReply::Failed,
        }
    }
}

/// How far the scan of a log has come.
#[derive(Debug)]
pub enum ScanProgress {
    /// The scan asks for something.
    Ask { request: ScanRequest, scan: FileScan },
    /// The scan is over, and what it learned is kept.
    Finished,
    /// The scan was given up. What was known of the log is lost.
    Failed,
}

/// What a [`ScanProgress`] holds.
#[verifier::ext_equal]
pub enum ScanProgressView {
    Ask { request: ScanRequestView, scan: FileScanView },
    Finished,
    Failed,
}

impl View for ScanProgress {
    type V = ScanProgressView;

    open spec fn view(&self) -> ScanProgressView {
        match self {
            ScanProgress::Ask { request, scan } => ScanProgressView::Ask {
                request: request@,
                scan: scan@,
            },
            ScanProgress::Finished => ScanProgressView::Finished,
            ScanProgress::Failed => ScanProgressView::Failed,
        }
    }
}

/// What the scan of a log of `len` bytes starts with. A log as long as it was
/// is done; any other log is read.
pub open spec fn start_effect(files: Files, path: LogPathView, len: u64) -> (
    Files,
    ScanProgressView,
) {
    let known = known_state(files, path);
    if len == known.last_offset {
        (files.insert(path.parts, known), ScanProgressView::Finished)
    } else {
        let state = known.at_length(len);
        (
            files.remove(path.parts),
            ScanProgressView::Ask {
                request: ScanRequestView::Read { offset: state.last_offset },
                scan: FileScanView {
                    path,
                    state,
                    lines: seq![],
                    new_offset: state.last_offset,
                    phase: ScanPhaseView::Reading,
                },
            },
        )
    }
}

/// What follows the bytes of the log. Without a complete line the scan is over;
/// otherwise the lines are worked off in a transaction.
pub open spec fn bytes_effect(files: Files, scan: FileScanView, bytes: Seq<u8>) -> (
    Files,
    ScanProgressView,
) {
    let lines = line_texts(bytes);
    if lines.len() == 0 {
        (files.insert(scan.path.parts, scan.state), ScanProgressView::Finished)
    } else {
        (
            files,
            ScanProgressView::Ask {
                request: ScanRequestView::BeginTransaction,
                scan: FileScanView {
                    lines,
                    new_offset: (scan.state.last_offset + complete_len(bytes)) as u64,
                    phase: ScanPhaseView::Opening,
                    ..scan
                },
            },
        )
    }
}

/// What a scan asks for while it works off its lines, and once it is through
/// with them.
pub open spec fn batch_request(
    scan: FileScanView,
    worked: (FileStateView, BatchProgressView),
    now: Timestamp,
) -> ScanProgressView {
    match worked {
        (state, BatchProgressView::Perform { action, follow_up, next_line }) => {
            ScanProgressView::Ask {
                request: ScanRequestView::Perform { action },
                scan: FileScanView {
                    state,
                    phase: ScanPhaseView::Working { follow_up, next_line },
                    ..scan
                },
            }
        },
        (state, BatchProgressView::Finished) => ScanProgressView::Ask {
            request: ScanRequestView::UpdateActivity { at: now },
            scan: FileScanView {
                state: FileStateView { last_offset: scan.new_offset, ..state },
                phase: ScanPhaseView::Noting,
                ..scan
            },
        },
    }
}

/// What follows an answer. A failed action of an event ends that event only;
/// any other failure ends the scan, and what was known of the log is lost.
pub open spec fn advance_effect(
    files: Files,
    scan: FileScanView,
    answer: ScanAnswer,
    now: Timestamp,
) -> (Files, ScanProgressView) {
    match (scan.phase, answer) {
        (ScanPhaseView::Working { follow_up, next_line }, _) => (
            files,
            batch_request(
                scan,
                resume_lines_effect(
                    scan.state,
                    scan.lines,
                    next_line,
                    follow_up,
                    answer.reply(),
                    now,
                ),
                now,
            ),
        ),
        (ScanPhaseView::Reading, ScanAnswer::Bytes { bytes }) => bytes_effect(files, scan, bytes@),
        (ScanPhaseView::Opening, ScanAnswer::Done { .. }) => (
            files,
            batch_request(scan, lines_effect(scan.state, scan.lines, 0), now),
        ),
        (ScanPhaseView::Noting, ScanAnswer::Done { .. }) => (
            files,
            ScanProgressView::Ask {
                request: ScanRequestView::SaveState { row: scan.state.row(scan.path) },
                scan: FileScanView { phase: ScanPhaseView::Saving, ..scan },
            },
        ),
        (ScanPhaseView::Saving, ScanAnswer::Done { .. }) => (
            files,
            ScanProgressView::Ask {
                request: ScanRequestView::Commit,
                scan: FileScanView { phase: ScanPhaseView::Committing, ..scan },
            },
        ),
        (ScanPhaseView::Committing, ScanAnswer::Done { .. }) => (
            files.insert(scan.path.parts, scan.state),
            ScanProgressView::Finished,
        ),
        _ => (files, ScanProgressView::Failed),
    }
}

/// Starts the scan of the log at `path`, which is `len` bytes long. A log whose
/// length is not to be had is passed over, and stays known as it is.
pub fn process_file(ingestor: &mut SessionIngestor, path: &LogPath, len: Option<u64>) -> (progress:
    ScanProgress)
    ensures
        (final(ingestor)@, progress@) == (match len {
            Some(len) => start_effect(old(ingestor)@, path@, len),
            None => (old(ingestor)@, ScanProgressView::Finished),
        }),
{
    let len: u64 = match len {
        Some(len) => len,
        None => return ScanProgress::Finished,
    };
    match ingestor.open_file(path, len) {
        FileWork::UpToDate => ScanProgress::Finished,
        FileWork::Read { state } => {
            let offset: u64 = state.last_offset;
            let scan = FileScan {
                path: copy_path(path),
                state,
                lines: Vec::new(),
                new_offset: offset,
                phase: ScanPhase::Reading,
            };
            assert(scan@.lines =~= seq![]);
            ScanProgress::Ask { request: ScanRequest::Read { offset }, scan }
        },
    }
}

impl FileScan {
    /// Asks for what comes next while the lines are worked off.
    fn ask_for_batch(self, progress: BatchProgress, now: Timestamp) -> (asked: ScanProgress)
        ensures
            asked@ == batch_request(self@, (self.state@, progress@), now),
    {
        let mut scan = self;
        match progress {
            BatchProgress::Perform { action, follow_up, next_line } => {
                scan.phase = ScanPhase::Working { follow_up, next_line };
                ScanProgress::Ask { request: ScanRequest::Perform { action }, scan }
            },
            BatchProgress::Finished => {
                scan.state.last_offset = scan.new_offset;
                scan.phase = ScanPhase::Noting;
                assert(scan.state@ =~= FileStateView {
                    last_offset: self.new_offset,
                    ..self.state@
                });
                ScanProgress::Ask { request: ScanRequest::UpdateActivity { at: now }, scan }
            },
        }
    }

    /// Takes in the bytes of the log.
    fn take_bytes(self, ingestor: &mut SessionIngestor, bytes: &Vec<u8>) -> (progress: ScanProgress)
        requires
            self.state.last_offset + bytes.len() <= u64::MAX,
        ensures
            (final(ingestor)@, progress@) == bytes_effect(old(ingestor)@, self@, bytes@),
    {
        let mut scan = self;
        let (lines, new_offset) = read_new_lines(bytes, scan.state.last_offset);
        assert(texts(lines@).len() == lines@.len());
        if lines.len() == 0 {
            ingestor.put_state(&scan.path, scan.state);
            return ScanProgress::Finished;
        }
        scan.lines = lines;
        scan.new_offset = new_offset;
        scan.phase = ScanPhase::Opening;
        ScanProgress::Ask { request: ScanRequest::BeginTransaction, scan }
    }

    /// Goes on with the scan after an answer at the time `now`.
    pub fn advance(self, ingestor: &mut SessionIngestor, answer: ScanAnswer, now: Timestamp) -> (
        progress: ScanProgress)
        requires
            answer matches ScanAnswer::Bytes { bytes } ==> self.state.last_offset + bytes.len()
                <= u64::MAX,
        ensures
            (final(ingestor)@, progress@) == advance_effect(old(ingestor)@, self@, answer, now),
    {
        let mut scan = self;
        match scan.phase {
            ScanPhase::Working { follow_up, next_line } => {
                let reply: StorageReply = match answer {
                    ScanAnswer::Done { message_id } => StorageReply::Done { message_id },
                    _ => StorageReply::Failed,
                };
                let progress: BatchProgress = resume_lines(
                    &mut scan.state,
                    &scan.lines,
                    next_line,
                    follow_up,
                    reply,
                    now,
                );
                scan.phase = ScanPhase::Opening;
                scan.ask_for_batch(progress, now)
            },
            ScanPhase::Reading => match answer {
                ScanAnswer::Bytes { bytes } => scan.take_bytes(ingestor, &bytes),
                _ => ScanProgress::Failed,
            },
            ScanPhase::Opening => match answer {
                ScanAnswer::Done { .. } => {
                    let progress: BatchProgress = process_lines(&mut scan.state, &scan.lines, 0);
                    scan.ask_for_batch(progress, now)
                },
                _ => ScanProgress::Failed,
            },
            ScanPhase::Noting => match answer {
                ScanAnswer::Done { .. } => {
                    let row: IngestStateRow = scan.state.to_state_row(&scan.path);
                    scan.phase = ScanPhase::Saving;
                    ScanProgress::Ask { request: ScanRequest::SaveState { row }, scan }
                },
                _ => ScanProgress::Failed,
            },
            ScanPhase::Saving => match answer {
                ScanAnswer::Done { .. } => {
                    scan.phase = ScanPhase::Committing;
                    ScanProgress::Ask { request: ScanRequest::Commit, scan }
                },
                _ => ScanProgress::Failed,
            },
            ScanPhase::Committing => match answer {
                ScanAnswer::Done { .. } => {
                    ingestor.put_state(&scan.path, scan.state);
                    ScanProgress::Finished
                },
                _ => ScanProgress::Failed,
            },
        }
    }

    /// Goes on with the scan after an answer, at the present moment.
    pub fn advance_now(self, ingestor: &mut SessionIngestor, answer: ScanAnswer) -> (progress:
        ScanProgress)
        requires
            answer matches ScanAnswer::Bytes { bytes } ==> self.state.last_offset + bytes.len()
                <= u64::MAX,
        ensures
            exists|now: Timestamp|
                {
                    &&& is_clock_reading(now.seconds(), now.nanoseconds())
                    &&& (final(ingestor)@, progress@) == #[trigger] advance_effect(
                        old(ingestor)@,
                        self@,
                        answer,
                        now,
                    )
                },
    {
        let now: Timestamp = Timestamp::now();
        self.advance(ingestor, answer, now)
    }
}

} // verus!
