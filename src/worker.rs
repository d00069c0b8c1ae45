use vstd::prelude::*;

use crate::rules::{
    backoff_of, backoff_secs, is_offline_message, is_room_offline_error, MAX_SEGMENT_MINUTES,
    MIN_SEGMENT_MINUTES, OFFLINE_RETRY_LIMIT,
};
use crate::ids::{generate_task_id, is_id};
use crate::manager::RecordingPlan;
use crate::rules::{join_path, joined, segment_file_name, segment_name_of};
use crate::snapshot::{
    StartLiveRecordingResponse,
    increment_bytes_written, mark_status, saturating_sum, set_current_file, status_event,
    RecordingStatusEvent, RecordingTaskSnapshot,
};
use crate::text::{decimal, push_decimal, str_eq};
use crate::upstream::is_success_code;

verus! {

/// Relies on `chrono::Local::now` and `DateTime::timestamp_millis`: the wall
/// clock in milliseconds since the epoch, whatever it reads.
#[verifier::external_body]
pub(crate) fn now_millis() -> (r: i64) {
    chrono::Local::now().timestamp_millis()
}

/// Relies on `chrono::Local::now` and `DateTime::format` with
/// `%Y%m%d_%H%M%S`: the local time as text, whatever it reads.
#[verifier::external_body]
fn local_timestamp() -> (r: String) {
    chrono::Local::now().format("%Y%m%d_%H%M%S").to_string()
}

/// Where a worker goes once a stream URL has been resolved again.
#[derive(PartialEq, Eq, Structural, Clone, Copy, Debug)]
pub enum ResolveAfter {
    /// The request could not be sent.
    ConnectError,
    /// The stream ended or broke off.
    StreamEnd,
}

/// Why the current segment file is being flushed.
#[derive(PartialEq, Eq, Structural, Clone, Copy, Debug)]
pub enum FlushReason {
    /// The segment is full; the next one opens.
    Roll,
    /// The user asked the recording to stop.
    Stop,
    /// The upstream stream is over.
    StreamEnd,
}

/// What the worker's driver does next.
#[derive(PartialEq, Eq, Structural, Clone, Copy, Debug)]
pub enum WorkerAction {
    /// Check the stop flag (`begin_attempt`) and, unless stopped, send the request.
    Attempt,
    /// Sleep this many seconds, then `Attempt`.
    SleepThenAttempt(u64),
    /// Sleep this many seconds, then resolve the stream URL again.
    SleepThenResolve(u64),
    /// Send the request for the current stream URL.
    Connect,
    /// Resolve the stream URL again now.
    Resolve,
    /// Open the segment file with this index.
    OpenSegment(u32),
    /// Read the next chunk of the stream.
    ReadChunk,
    /// Write the chunk in hand to the current segment file.
    WriteChunk,
    /// Flush the current segment file.
    Flush,
    /// The worker is done.
    Exit,
}

/// The sizes of the chunks written, summed with saturation at `u64::MAX`.
pub open spec fn saturating_total(sizes: Seq<u64>) -> u64
    decreases sizes.len(),
{
    if sizes.len() == 0 {
        0
    } else {
        saturating_sum(saturating_total(sizes.drop_last()), sizes.last())
    }
}

/// The decisions of one recording task, from its start to its end.
pub struct RecordingWorker {
    pub snapshot: RecordingTaskSnapshot,
    pub stream_url: String,
    pub segment_minutes: u32,
    pub reconnect_attempts: u64,
    pub offline_attempts: u64,
    pub resolve_after: ResolveAfter,
    pub flush_reason: FlushReason,
    /// The segment being opened replaces a full one, and a chunk waits for it.
    pub rolling: bool,
    /// A segment file was opened and has not been flushed since.
    pub unflushed: bool,
    /// The size of the chunk in hand.
    pub pending: u64,
    /// The sizes of all chunks written so far.
    pub written: Ghost<Seq<u64>>,
}

pub open spec fn status_is(w: RecordingWorker, s: Seq<char>) -> bool {
    w.snapshot.status@ == s
}

/// The parts of a worker that no event changes.
pub open spec fn descriptor_kept(a: RecordingWorker, b: RecordingWorker) -> bool {
    &&& a.snapshot.task_id == b.snapshot.task_id
    &&& a.snapshot.platform == b.snapshot.platform
    &&& a.snapshot.room_id == b.snapshot.room_id
    &&& a.snapshot.quality == b.snapshot.quality
    &&& a.snapshot.output_dir == b.snapshot.output_dir
    &&& a.snapshot.started_at == b.snapshot.started_at
    &&& a.segment_minutes == b.segment_minutes
}

/// The recorded progress (segments and bytes) is as it was.
pub open spec fn progress_kept(a: RecordingWorker, b: RecordingWorker) -> bool {
    &&& a.snapshot.segment_index == b.snapshot.segment_index
    &&& a.snapshot.current_file == b.snapshot.current_file
    &&& a.snapshot.bytes_written == b.snapshot.bytes_written
    &&& a.written@ == b.written@
}

/// Status and message after an event that ends the worker in `failed`.
pub open spec fn failed_with(w: RecordingWorker, prefix: Seq<char>, err: Seq<char>) -> bool {
    &&& w.snapshot.status@ == "failed"@
    &&& w.snapshot.message is Some
    &&& w.snapshot.message->0@ == prefix + err
}

pub open spec fn message_is(w: RecordingWorker, m: Seq<char>) -> bool {
    w.snapshot.message is Some && w.snapshot.message->0@ == m
}

/// One event's effect on the segments: the same segment goes on, or the
/// next one, with an index one higher, has just been opened.
pub open spec fn segment_step(a: RecordingWorker, b: RecordingWorker) -> bool {
    (b.snapshot.segment_index == a.snapshot.segment_index && b.snapshot.current_file
        == a.snapshot.current_file) || (b.snapshot.segment_index == a.snapshot.segment_index + 1
        && b.snapshot.current_file is Some && b.unflushed)
}

/// A worker may end: no segment is left unflushed, unless the task failed.
pub open spec fn exit_clean(w: RecordingWorker) -> bool {
    !w.unflushed || w.snapshot.status@ == "failed"@
}

proof fn lemma_index_grows(run: Seq<RecordingWorker>, i: int, j: int)
    requires
        0 <= i <= j < run.len(),
        forall|k: int| 0 <= k < run.len() - 1 ==> #[trigger] segment_step(run[k], run[k + 1]),
    ensures
        run[i].snapshot.segment_index <= run[j].snapshot.segment_index,
    decreases j - i,
{
    if i < j {
        lemma_index_grows(run, i, j - 1);
        assert(segment_step(run[j - 1], run[j - 1 + 1]));
    }
}

/// Over any run of events, in which each event steps the segments as
/// `segment_step` says, the segment index never decreases.
pub proof fn lemma_segment_index_monotone(run: Seq<RecordingWorker>)
    requires
        forall|k: int| 0 <= k < run.len() - 1 ==> #[trigger] segment_step(run[k], run[k + 1]),
    ensures
        forall|i: int, j: int|
            0 <= i <= j < run.len() ==> #[trigger] run[i].snapshot.segment_index
                <= #[trigger] run[j].snapshot.segment_index,
{
    assert forall|i: int, j: int| 0 <= i <= j < run.len() implies #[trigger] run[i].snapshot.segment_index
        <= #[trigger] run[j].snapshot.segment_index by {
        lemma_index_grows(run, i, j);
    }
}

pub open spec fn segment_millis(minutes: u32) -> int {
    minutes as int * 60000
}

impl RecordingWorker {
    pub open spec fn wf(&self) -> bool {
        &&& self.snapshot.bytes_written == saturating_total(self.written@)
        &&& MIN_SEGMENT_MINUTES <= self.segment_minutes <= MAX_SEGMENT_MINUTES
    }

    /// A worker for a task that has just started, in status `starting`.
    pub fn new(
        task_id: String,
        platform: String,
        room_id: String,
        quality: String,
        output_dir: String,
        segment_minutes: u32,
        stream_url: String,
        started_at: i64,
    ) -> (r: Self)
        requires
            MIN_SEGMENT_MINUTES <= segment_minutes <= MAX_SEGMENT_MINUTES,
        ensures
            r.wf(),
            r.snapshot.task_id == task_id,
            r.snapshot.platform == platform,
            r.snapshot.room_id == room_id,
            r.snapshot.quality == quality,
            r.snapshot.output_dir == output_dir,
            r.snapshot.started_at == started_at,
            r.snapshot.updated_at == started_at,
            r.snapshot.status@ == "starting"@,
            r.snapshot.current_file is None,
            r.snapshot.message is None,
            r.snapshot.segment_index == 0,
            r.snapshot.bytes_written == 0,
            r.written@ == Seq::<u64>::empty(),
            r.stream_url == stream_url,
            r.segment_minutes == segment_minutes,
            r.reconnect_attempts == 0,
            r.offline_attempts == 0,
            !r.unflushed,
    {
        RecordingWorker {
            snapshot: RecordingTaskSnapshot {
                task_id,
                platform,
                room_id,
                quality,
                status: String::from_str("starting"),
                output_dir,
                current_file: None,
                segment_index: 0,
                bytes_written: 0,
                started_at,
                updated_at: started_at,
                message: None,
            },
            stream_url,
            segment_minutes,
            reconnect_attempts: 0,
            offline_attempts: 0,
            resolve_after: ResolveAfter::ConnectError,
            flush_reason: FlushReason::StreamEnd,
            rolling: false,
            unflushed: false,
            pending: 0,
            written: Ghost(Seq::empty()),
        }
    }

    /// A worker for a new task of `plan`, whose first stream URL is
    /// `stream_url`: a fresh task id, started now.
    pub fn start(plan: &RecordingPlan, stream_url: String) -> (r: Self)
        requires
            MIN_SEGMENT_MINUTES <= plan.segment_minutes <= MAX_SEGMENT_MINUTES,
        ensures
            r.wf(),
            is_id(r.snapshot.task_id@),
            r.snapshot.platform == plan.platform,
            r.snapshot.room_id == plan.room_id,
            r.snapshot.quality == plan.quality,
            r.snapshot.output_dir == plan.output_dir,
            r.snapshot.updated_at == r.snapshot.started_at,
            r.snapshot.status@ == "starting"@,
            r.snapshot.current_file is None,
            r.snapshot.message is None,
            r.reconnect_attempts == 0,
            r.offline_attempts == 0,
            r.written@ == Seq::<u64>::empty(),
            r.snapshot.segment_index == 0,
            r.snapshot.bytes_written == 0,
            r.stream_url == stream_url,
            r.segment_minutes == plan.segment_minutes,
            !r.unflushed,
    {
        let task_id = generate_task_id();
        let started_at = now_millis();
        RecordingWorker::new(
            task_id,
            plan.platform.clone(),
            plan.room_id.clone(),
            plan.quality.clone(),
            plan.output_dir.clone(),
            plan.segment_minutes,
            stream_url,
            started_at,
        )
    }

    /// What a start answers: the task id, the first stream URL, the output
    /// directory and the start time.
    pub fn start_response(&self) -> (r: StartLiveRecordingResponse)
        ensures
            r.task_id == self.snapshot.task_id,
            r.resolved_stream_url == self.stream_url,
            r.output_dir == self.snapshot.output_dir,
            r.started_at == self.snapshot.started_at,
    {
        StartLiveRecordingResponse {
            task_id: self.snapshot.task_id.clone(),
            resolved_stream_url: self.stream_url.clone(),
            output_dir: self.snapshot.output_dir.clone(),
            started_at: self.snapshot.started_at,
        }
    }

    /// The path of the segment file with this index, named with the local
    /// time now.
    pub fn segment_path(&self, index: u32) -> (r: String)
        ensures
            exists|t: Seq<char>|
                r@ == joined(
                    self.snapshot.output_dir@,
                    #[trigger] segment_name_of(self.snapshot.platform@, self.snapshot.room_id@, t, index),
                ),
    {
        let ts = local_timestamp();
        let name = segment_file_name(
            self.snapshot.platform.as_str(),
            self.snapshot.room_id.as_str(),
            ts.as_str(),
            index,
        );
        join_path(self.snapshot.output_dir.as_str(), name.as_str())
    }

    fn mark(&mut self, status: &str, message: Option<String>)
        ensures
            final(self).snapshot.status@ == status@,
            final(self).snapshot.message == message,
            descriptor_kept(*old(self), *final(self)),
            progress_kept(*old(self), *final(self)),
            final(self).stream_url == old(self).stream_url,
            final(self).reconnect_attempts == old(self).reconnect_attempts,
            final(self).offline_attempts == old(self).offline_attempts,
            final(self).unflushed == old(self).unflushed,
            final(self).rolling == old(self).rolling,
            final(self).pending == old(self).pending,
            final(self).resolve_after == old(self).resolve_after,
            final(self).flush_reason == old(self).flush_reason,
    {
        let now = now_millis();
        mark_status(&mut self.snapshot, status, message, now);
    }

    fn message(prefix: &str, err: &str) -> (r: Option<String>)
        ensures
            r is Some,
            r->0@ == prefix@ + err@,
    {
        let mut m = String::from_str(prefix);
        m.append(err);
        Some(m)
    }

    /// The event that publishes the current state. Its timestamp is never
    /// before the task's start.
    pub fn status_event(&self) -> (r: RecordingStatusEvent)
        ensures
            r.task_id == self.snapshot.task_id,
            r.platform == self.snapshot.platform,
            r.room_id == self.snapshot.room_id,
            r.status == self.snapshot.status,
            r.segment_index == self.snapshot.segment_index,
            r.bytes_written == self.snapshot.bytes_written,
            r.current_file == self.snapshot.current_file,
            r.message == self.snapshot.message,
            r.timestamp >= self.snapshot.started_at,
    {
        let now = now_millis();
        status_event(&self.snapshot, now)
    }

    /// The top of a connection attempt: stop if asked to, else connect.
    pub fn begin_attempt(&mut self, stop: bool) -> (r: WorkerAction)
        requires
            old(self).wf(),
        ensures
            final(self).wf(),
            segment_step(*old(self), *final(self)),
            r == WorkerAction::Exit ==> exit_clean(*final(self)),
            descriptor_kept(*old(self), *final(self)),
            progress_kept(*old(self), *final(self)),
            final(self).unflushed == old(self).unflushed,
            stop && !old(self).unflushed ==> r == WorkerAction::Exit && status_is(
                *final(self),
                "stopped"@,
            ) && message_is(*final(self), "stopped_by_user"@),
            stop && old(self).unflushed ==> r == WorkerAction::Flush && final(self).flush_reason
                == FlushReason::Stop && final(self).snapshot == old(self).snapshot,
            !stop ==> r == WorkerAction::Connect && *final(self) == *old(self),
            r == WorkerAction::Exit ==> !final(self).unflushed,
    {
        if stop {
            if self.unflushed {
                self.flush_reason = FlushReason::Stop;
                return WorkerAction::Flush;
            }
            self.mark("stopped", Some(String::from_str("stopped_by_user")));
            WorkerAction::Exit
        } else {
            WorkerAction::Connect
        }
    }

    /// The request could not be sent: back off, then resolve the URL again.
    pub fn on_connect_error(&mut self, err: &str) -> (r: WorkerAction)
        requires
            old(self).wf(),
        ensures
            final(self).wf(),
            segment_step(*old(self), *final(self)),
            r == WorkerAction::Exit ==> exit_clean(*final(self)),
            descriptor_kept(*old(self), *final(self)),
            progress_kept(*old(self), *final(self)),
            final(self).unflushed == old(self).unflushed,
            final(self).reconnect_attempts == saturating_sum(old(self).reconnect_attempts, 1),
            final(self).offline_attempts == old(self).offline_attempts,
            status_is(*final(self), "reconnecting"@),
            message_is(*final(self), "connect_failed: "@ + err@),
            final(self).resolve_after == ResolveAfter::ConnectError,
            r == WorkerAction::SleepThenResolve(backoff_of(final(self).reconnect_attempts)),
    {
        self.reconnect_attempts = if self.reconnect_attempts < u64::MAX {
            self.reconnect_attempts + 1
        } else {
            u64::MAX
        };
        self.mark("reconnecting", Self::message("connect_failed: ", err));
        self.resolve_after = ResolveAfter::ConnectError;
        WorkerAction::SleepThenResolve(backoff_secs(self.reconnect_attempts))
    }

    /// The upstream answered with `code`. On success the counters reset, the
    /// status becomes `recording` and the next segment opens; otherwise back off.
    pub fn on_response(&mut self, code: u16) -> (r: WorkerAction)
        requires
            old(self).wf(),
            old(self).snapshot.segment_index < u32::MAX,
        ensures
            final(self).wf(),
            segment_step(*old(self), *final(self)),
            r == WorkerAction::Exit ==> exit_clean(*final(self)),
            descriptor_kept(*old(self), *final(self)),
            progress_kept(*old(self), *final(self)),
            final(self).unflushed == old(self).unflushed,
            is_success_code(code) ==> {
                &&& final(self).reconnect_attempts == 0
                &&& final(self).offline_attempts == 0
                &&& status_is(*final(self), "recording"@)
                &&& final(self).snapshot.message is None
                &&& !final(self).rolling
                &&& r == WorkerAction::OpenSegment((old(self).snapshot.segment_index + 1) as u32)
            },
            !is_success_code(code) ==> {
                &&& final(self).reconnect_attempts == saturating_sum(old(self).reconnect_attempts, 1)
                &&& final(self).offline_attempts == old(self).offline_attempts
                &&& status_is(*final(self), "reconnecting"@)
                &&& message_is(*final(self), "upstream_status="@ + decimal(code as nat))
                &&& r == WorkerAction::SleepThenAttempt(backoff_of(final(self).reconnect_attempts))
            },
    {
        if 200 <= code && code <= 299 {
            self.reconnect_attempts = 0;
            self.offline_attempts = 0;
            self.mark("recording", None);
            self.rolling = false;
            WorkerAction::OpenSegment(self.snapshot.segment_index + 1)
        } else {
            self.reconnect_attempts = if self.reconnect_attempts < u64::MAX {
                self.reconnect_attempts + 1
            } else {
                u64::MAX
            };
            let mut m = String::from_str("upstream_status=");
            push_decimal(&mut m, code as u64);
            self.mark("reconnecting", Some(m));
            WorkerAction::SleepThenAttempt(backoff_secs(self.reconnect_attempts))
        }
    }

    /// The segment file asked for opened at `path`; it is now the one written.
    pub fn on_segment_opened(&mut self, path: String) -> (r: WorkerAction)
        requires
            old(self).wf(),
            old(self).snapshot.segment_index < u32::MAX,
        ensures
            final(self).wf(),
            segment_step(*old(self), *final(self)),
            r == WorkerAction::Exit ==> exit_clean(*final(self)),
            descriptor_kept(*old(self), *final(self)),
            final(self).pending == old(self).pending,
            final(self).stream_url == old(self).stream_url,
            final(self).reconnect_attempts == old(self).reconnect_attempts,
            final(self).offline_attempts == old(self).offline_attempts,
            final(self).snapshot.segment_index == old(self).snapshot.segment_index + 1,
            final(self).snapshot.current_file == Some(path),
            final(self).snapshot.status == old(self).snapshot.status,
            final(self).snapshot.message == old(self).snapshot.message,
            final(self).snapshot.bytes_written == old(self).snapshot.bytes_written,
            final(self).written@ == old(self).written@,
            final(self).unflushed,
            !final(self).rolling,
            r == (if old(self).rolling { WorkerAction::WriteChunk } else { WorkerAction::ReadChunk }),
    {
        let now = now_millis();
        let next = self.snapshot.segment_index + 1;
        set_current_file(&mut self.snapshot, path, next, now);
        self.unflushed = true;
        let was_rolling = self.rolling;
        self.rolling = false;
        if was_rolling {
            WorkerAction::WriteChunk
        } else {
            WorkerAction::ReadChunk
        }
    }

    /// The segment file could not be created: the task fails.
    pub fn on_segment_open_failed(&mut self, err: &str) -> (r: WorkerAction)
        requires
            old(self).wf(),
        ensures
            final(self).wf(),
            segment_step(*old(self), *final(self)),
            r == WorkerAction::Exit ==> exit_clean(*final(self)),
            descriptor_kept(*old(self), *final(self)),
            progress_kept(*old(self), *final(self)),
            r == WorkerAction::Exit,
            old(self).rolling ==> failed_with(*final(self), "failed_to_open_next_segment: "@, err@),
            !old(self).rolling ==> failed_with(*final(self), "failed_to_open_output_file: "@, err@),
    {
        if self.rolling {
            self.mark("failed", Self::message("failed_to_open_next_segment: ", err));
        } else {
            self.mark("failed", Self::message("failed_to_open_output_file: ", err));
        }
        WorkerAction::Exit
    }

    /// A chunk of `size` bytes arrived, `elapsed_ms` after the current segment
    /// opened. A stop request or a full segment flushes first.
    pub fn on_chunk(&mut self, stop: bool, size: u64, elapsed_ms: u64) -> (r: WorkerAction)
        requires
            old(self).wf(),
        ensures
            final(self).wf(),
            segment_step(*old(self), *final(self)),
            r == WorkerAction::Exit ==> exit_clean(*final(self)),
            descriptor_kept(*old(self), *final(self)),
            progress_kept(*old(self), *final(self)),
            final(self).snapshot.status == old(self).snapshot.status,
            final(self).snapshot.message == old(self).snapshot.message,
            final(self).unflushed == old(self).unflushed,
            final(self).pending == size,
            stop ==> r == WorkerAction::Flush && final(self).flush_reason == FlushReason::Stop,
            !stop && elapsed_ms >= segment_millis(old(self).segment_minutes) ==> r
                == WorkerAction::Flush && final(self).flush_reason == FlushReason::Roll,
            !stop && elapsed_ms < segment_millis(old(self).segment_minutes) ==> r
                == WorkerAction::WriteChunk,
    {
        self.pending = size;
        let limit: u64 = self.segment_minutes as u64 * 60000;
        if stop {
            self.flush_reason = FlushReason::Stop;
            WorkerAction::Flush
        } else if elapsed_ms >= limit {
            self.flush_reason = FlushReason::Roll;
            WorkerAction::Flush
        } else {
            WorkerAction::WriteChunk
        }
    }

    /// The chunk in hand was written: count its bytes.
    pub fn on_write_ok(&mut self) -> (r: WorkerAction)
        requires
            old(self).wf(),
        ensures
            final(self).wf(),
            segment_step(*old(self), *final(self)),
            r == WorkerAction::Exit ==> exit_clean(*final(self)),
            descriptor_kept(*old(self), *final(self)),
            final(self).written@ == old(self).written@.push(old(self).pending),
            final(self).snapshot.bytes_written == saturating_sum(
                old(self).snapshot.bytes_written,
                old(self).pending,
            ),
            final(self).snapshot.segment_index == old(self).snapshot.segment_index,
            final(self).snapshot.current_file == old(self).snapshot.current_file,
            final(self).snapshot.status == old(self).snapshot.status,
            final(self).unflushed == old(self).unflushed,
            r == WorkerAction::ReadChunk,
    {
        let now = now_millis();
        increment_bytes_written(&mut self.snapshot, self.pending, now);
        self.written = Ghost(self.written@.push(self.pending));
        assert(self.written@.drop_last() =~= old(self).written@);
        WorkerAction::ReadChunk
    }

    /// Writing the chunk failed: the task fails.
    pub fn on_write_failed(&mut self, err: &str) -> (r: WorkerAction)
        requires
            old(self).wf(),
        ensures
            final(self).wf(),
            segment_step(*old(self), *final(self)),
            r == WorkerAction::Exit ==> exit_clean(*final(self)),
            descriptor_kept(*old(self), *final(self)),
            progress_kept(*old(self), *final(self)),
            failed_with(*final(self), "write_failed: "@, err@),
            r == WorkerAction::Exit,
    {
        self.mark("failed", Self::message("write_failed: ", err));
        WorkerAction::Exit
    }

    /// Reading the stream failed: flush, then resolve again.
    pub fn on_read_error(&mut self, err: &str) -> (r: WorkerAction)
        requires
            old(self).wf(),
        ensures
            final(self).wf(),
            segment_step(*old(self), *final(self)),
            r == WorkerAction::Exit ==> exit_clean(*final(self)),
            descriptor_kept(*old(self), *final(self)),
            progress_kept(*old(self), *final(self)),
            final(self).unflushed == old(self).unflushed,
            status_is(*final(self), "reconnecting"@),
            message_is(*final(self), "stream_read_error: "@ + err@),
            final(self).reconnect_attempts == old(self).reconnect_attempts,
            final(self).flush_reason == FlushReason::StreamEnd,
            r == WorkerAction::Flush,
    {
        self.mark("reconnecting", Self::message("stream_read_error: ", err));
        self.flush_reason = FlushReason::StreamEnd;
        WorkerAction::Flush
    }

    /// The upstream stream ended: flush, then resolve again.
    pub fn on_stream_end(&mut self) -> (r: WorkerAction)
        requires
            old(self).wf(),
        ensures
            final(self).wf(),
            segment_step(*old(self), *final(self)),
            r == WorkerAction::Exit ==> exit_clean(*final(self)),
            descriptor_kept(*old(self), *final(self)),
            progress_kept(*old(self), *final(self)),
            final(self).snapshot.status == old(self).snapshot.status,
            final(self).unflushed == old(self).unflushed,
            final(self).flush_reason == FlushReason::StreamEnd,
            r == WorkerAction::Flush,
    {
        self.flush_reason = FlushReason::StreamEnd;
        WorkerAction::Flush
    }

    /// The current segment file was flushed.
    pub fn on_flush_ok(&mut self) -> (r: WorkerAction)
        requires
            old(self).wf(),
            old(self).snapshot.segment_index < u32::MAX,
        ensures
            final(self).wf(),
            segment_step(*old(self), *final(self)),
            r == WorkerAction::Exit ==> exit_clean(*final(self)),
            descriptor_kept(*old(self), *final(self)),
            final(self).pending == old(self).pending,
            final(self).stream_url == old(self).stream_url,
            final(self).reconnect_attempts == old(self).reconnect_attempts,
            final(self).offline_attempts == old(self).offline_attempts,
            progress_kept(*old(self), *final(self)),
            !final(self).unflushed,
            old(self).flush_reason == FlushReason::Roll ==> final(self).rolling && r
                == WorkerAction::OpenSegment((old(self).snapshot.segment_index + 1) as u32)
                && final(self).snapshot.status == old(self).snapshot.status,
            r == WorkerAction::Exit ==> !final(self).unflushed,
            old(self).flush_reason == FlushReason::Stop ==> r == WorkerAction::Exit && status_is(
                *final(self),
                "stopped"@,
            ) && message_is(*final(self), "stopped_by_user"@),
            old(self).flush_reason == FlushReason::StreamEnd ==> r == WorkerAction::Resolve
                && final(self).resolve_after == ResolveAfter::StreamEnd
                && final(self).snapshot.status == old(self).snapshot.status,
    {
        self.unflushed = false;
        match self.flush_reason {
            FlushReason::Roll => {
                self.rolling = true;
                WorkerAction::OpenSegment(self.snapshot.segment_index + 1)
            },
            FlushReason::Stop => {
                self.mark("stopped", Some(String::from_str("stopped_by_user")));
                WorkerAction::Exit
            },
            FlushReason::StreamEnd => {
                self.resolve_after = ResolveAfter::StreamEnd;
                WorkerAction::Resolve
            },
        }
    }

    /// Flushing the segment file failed: the task fails.
    pub fn on_flush_failed(&mut self, err: &str) -> (r: WorkerAction)
        requires
            old(self).wf(),
        ensures
            final(self).wf(),
            segment_step(*old(self), *final(self)),
            r == WorkerAction::Exit ==> exit_clean(*final(self)),
            descriptor_kept(*old(self), *final(self)),
            progress_kept(*old(self), *final(self)),
            failed_with(*final(self), "flush_failed: "@, err@),
            r == WorkerAction::Exit,
    {
        self.mark("failed", Self::message("flush_failed: ", err));
        WorkerAction::Exit
    }

    /// The stream URL was resolved again, to a URL or to an error. Offline
    /// answers count against a budget of five; reaching it ends the task.
    pub fn on_resolved(&mut self, result: Result<String, String>) -> (r: WorkerAction)
        requires
            old(self).wf(),
            !old(self).unflushed,
        ensures
            r == WorkerAction::Exit ==> !final(self).unflushed,
            final(self).wf(),
            segment_step(*old(self), *final(self)),
            r == WorkerAction::Exit ==> exit_clean(*final(self)),
            descriptor_kept(*old(self), *final(self)),
            progress_kept(*old(self), *final(self)),
            final(self).unflushed == old(self).unflushed,
            final(self).reconnect_attempts == old(self).reconnect_attempts,
            match result {
                Ok(url) => {
                    &&& final(self).stream_url == url
                    &&& final(self).offline_attempts == old(self).offline_attempts
                    &&& old(self).resolve_after == ResolveAfter::ConnectError ==> r
                        == WorkerAction::Attempt && final(self).snapshot.status
                        == old(self).snapshot.status
                    &&& old(self).resolve_after == ResolveAfter::StreamEnd ==> r
                        == WorkerAction::SleepThenAttempt(2) && status_is(
                        *final(self),
                        "reconnecting"@,
                    ) && message_is(*final(self), "stream_reconnect"@)
                },
                Err(e) => {
                    &&& final(self).stream_url == old(self).stream_url
                    &&& final(self).offline_attempts == (if is_offline_message(e@) {
                        saturating_sum(old(self).offline_attempts, 1)
                    } else {
                        old(self).offline_attempts
                    })
                    &&& final(self).offline_attempts >= OFFLINE_RETRY_LIMIT && is_offline_message(
                        e@,
                    ) ==> r == WorkerAction::Exit && status_is(*final(self), "stopped"@)
                        && message_is(*final(self), "stream_ended_or_offline"@)
                    &&& !(final(self).offline_attempts >= OFFLINE_RETRY_LIMIT
                        && is_offline_message(e@)) ==> status_is(*final(self), "reconnecting"@)
                        && message_is(*final(self), e@) && r == (if old(self).resolve_after
                        == ResolveAfter::ConnectError {
                        WorkerAction::Attempt
                    } else {
                        WorkerAction::SleepThenAttempt(3)
                    })
                },
            },
    {
        match result {
            Ok(url) => {
                self.stream_url = url;
                if self.resolve_after == ResolveAfter::ConnectError {
                    WorkerAction::Attempt
                } else {
                    self.mark("reconnecting", Some(String::from_str("stream_reconnect")));
                    WorkerAction::SleepThenAttempt(2)
                }
            },
            Err(err) => {
                if is_room_offline_error(err.as_str()) {
                    self.offline_attempts = if self.offline_attempts < u64::MAX {
                        self.offline_attempts + 1
                    } else {
                        u64::MAX
                    };
                    if self.offline_attempts >= OFFLINE_RETRY_LIMIT {
                        self.mark("stopped", Some(String::from_str("stream_ended_or_offline")));
                        return WorkerAction::Exit;
                    }
                }
                let after = self.resolve_after;
                self.mark("reconnecting", Some(err));
                if after == ResolveAfter::ConnectError {
                    WorkerAction::Attempt
                } else {
                    WorkerAction::SleepThenAttempt(3)
                }
            },
        }
    }

    /// The final status once the worker has exited: a stop request wins;
    /// otherwise a status that is neither `failed` nor `stopped` becomes
    /// `stopped` with `worker_exit`.
    pub fn finish(&mut self, stop: bool)
        requires
            old(self).wf(),
        ensures
            final(self).wf(),
            segment_step(*old(self), *final(self)),
            descriptor_kept(*old(self), *final(self)),
            progress_kept(*old(self), *final(self)),
            final(self).unflushed == old(self).unflushed,
            stop ==> status_is(*final(self), "stopped"@) && message_is(
                *final(self),
                "stopped_by_user"@,
            ),
            !stop && (status_is(*old(self), "failed"@) || status_is(*old(self), "stopped"@))
                ==> *final(self) == *old(self),
            !stop && !(status_is(*old(self), "failed"@) || status_is(*old(self), "stopped"@))
                ==> status_is(*final(self), "stopped"@) && message_is(
                *final(self),
                "worker_exit"@,
            ),
    {
        if stop {
            self.mark("stopped", Some(String::from_str("stopped_by_user")));
        } else if !str_eq(self.snapshot.status.as_str(), "failed") && !str_eq(
            self.snapshot.status.as_str(),
            "stopped",
        ) {
            self.mark("stopped", Some(String::from_str("worker_exit")));
        }
    }
}

} // verus!
