use vstd::prelude::*;

verus! {

/// What a caller asks for when starting a recording.
pub struct StartLiveRecordingPayload {
    pub platform: String,
    pub room_id: String,
    pub quality: Option<String>,
    pub segment_minutes: Option<u32>,
    pub output_dir: Option<String>,
    pub cookie: Option<String>,
}

/// What a started recording reports back.
pub struct StartLiveRecordingResponse {
    pub task_id: String,
    pub resolved_stream_url: String,
    pub output_dir: String,
    pub started_at: i64,
}

/// The observable state of one recording task.
pub struct RecordingTaskSnapshot {
    pub task_id: String,
    pub platform: String,
    pub room_id: String,
    pub quality: String,
    pub status: String,
    pub output_dir: String,
    pub current_file: Option<String>,
    pub segment_index: u32,
    pub bytes_written: u64,
    pub started_at: i64,
    pub updated_at: i64,
    pub message: Option<String>,
}

/// The event published on each change of a task's state.
pub struct RecordingStatusEvent {
    pub task_id: String,
    pub platform: String,
    pub room_id: String,
    pub status: String,
    pub current_file: Option<String>,
    pub segment_index: u32,
    pub bytes_written: u64,
    pub message: Option<String>,
    pub timestamp: i64,
}

pub fn clone_opt_string(s: &Option<String>) -> (r: Option<String>)
    ensures
        r == *s,
{
    match s {
        Some(v) => Some(v.clone()),
        None => None,
    }
}

/// Sets the status and the message, and stamps the time of the change.
pub fn mark_status(snapshot: &mut RecordingTaskSnapshot, status: &str, message: Option<String>, now: i64)
    ensures
        final(snapshot).status@ == status@,
        final(snapshot).message == message,
        final(snapshot).updated_at == now,
        final(snapshot).segment_index == old(snapshot).segment_index,
        final(snapshot).bytes_written == old(snapshot).bytes_written,
        final(snapshot).current_file == old(snapshot).current_file,
        final(snapshot).started_at == old(snapshot).started_at,
        final(snapshot).task_id == old(snapshot).task_id,
        final(snapshot).platform == old(snapshot).platform,
        final(snapshot).room_id == old(snapshot).room_id,
        final(snapshot).quality == old(snapshot).quality,
        final(snapshot).output_dir == old(snapshot).output_dir,
{
    snapshot.status = String::from_str(status);
    snapshot.updated_at = now;
    snapshot.message = message;
}

/// Records the segment file now written and its index.
pub fn set_current_file(snapshot: &mut RecordingTaskSnapshot, current_file: String, segment_index: u32, now: i64)
    ensures
        final(snapshot).current_file == Some(current_file),
        final(snapshot).segment_index == segment_index,
        final(snapshot).updated_at == now,
        final(snapshot).status == old(snapshot).status,
        final(snapshot).message == old(snapshot).message,
        final(snapshot).bytes_written == old(snapshot).bytes_written,
        final(snapshot).started_at == old(snapshot).started_at,
        final(snapshot).task_id == old(snapshot).task_id,
        final(snapshot).platform == old(snapshot).platform,
        final(snapshot).room_id == old(snapshot).room_id,
        final(snapshot).quality == old(snapshot).quality,
        final(snapshot).output_dir == old(snapshot).output_dir,
{
    snapshot.current_file = Some(current_file);
    snapshot.segment_index = segment_index;
    snapshot.updated_at = now;
}

/// `a + b`, or `u64::MAX` where the sum does not fit.
pub open spec fn saturating_sum(a: u64, b: u64) -> u64 {
    if a + b > u64::MAX {
        u64::MAX
    } else {
        (a + b) as u64
    }
}

/// Adds `size` to the byte count, saturating at `u64::MAX`.
pub fn increment_bytes_written(snapshot: &mut RecordingTaskSnapshot, size: u64, now: i64)
    ensures
        final(snapshot).bytes_written == saturating_sum(old(snapshot).bytes_written, size),
        final(snapshot).updated_at == now,
        final(snapshot).status == old(snapshot).status,
        final(snapshot).message == old(snapshot).message,
        final(snapshot).segment_index == old(snapshot).segment_index,
        final(snapshot).current_file == old(snapshot).current_file,
        final(snapshot).started_at == old(snapshot).started_at,
        final(snapshot).task_id == old(snapshot).task_id,
        final(snapshot).platform == old(snapshot).platform,
        final(snapshot).room_id == old(snapshot).room_id,
        final(snapshot).quality == old(snapshot).quality,
        final(snapshot).output_dir == old(snapshot).output_dir,
{
    snapshot.bytes_written = if snapshot.bytes_written > u64::MAX - size {
        u64::MAX
    } else {
        snapshot.bytes_written + size
    };
    snapshot.updated_at = now;
}

/// A copy of the snapshot.
pub fn snapshot_clone(snapshot: &RecordingTaskSnapshot) -> (r: RecordingTaskSnapshot)
    ensures
        r == *snapshot,
{
    RecordingTaskSnapshot {
        task_id: snapshot.task_id.clone(),
        platform: snapshot.platform.clone(),
        room_id: snapshot.room_id.clone(),
        quality: snapshot.quality.clone(),
        status: snapshot.status.clone(),
        output_dir: snapshot.output_dir.clone(),
        current_file: clone_opt_string(&snapshot.current_file),
        segment_index: snapshot.segment_index,
        bytes_written: snapshot.bytes_written,
        started_at: snapshot.started_at,
        updated_at: snapshot.updated_at,
        message: clone_opt_string(&snapshot.message),
    }
}

/// The event that publishes `snapshot` at time `now`. A clock that went back
/// since the task started does not date an event before its start.
pub fn status_event(snapshot: &RecordingTaskSnapshot, now: i64) -> (r: RecordingStatusEvent)
    ensures
        r.task_id == snapshot.task_id,
        r.platform == snapshot.platform,
        r.room_id == snapshot.room_id,
        r.status == snapshot.status,
        r.current_file == snapshot.current_file,
        r.segment_index == snapshot.segment_index,
        r.bytes_written == snapshot.bytes_written,
        r.message == snapshot.message,
        r.timestamp == (if now >= snapshot.started_at { now } else { snapshot.started_at }),
        r.timestamp >= snapshot.started_at,
{
    RecordingStatusEvent {
        task_id: snapshot.task_id.clone(),
        platform: snapshot.platform.clone(),
        room_id: snapshot.room_id.clone(),
        status: snapshot.status.clone(),
        current_file: clone_opt_string(&snapshot.current_file),
        segment_index: snapshot.segment_index,
        bytes_written: snapshot.bytes_written,
        message: clone_opt_string(&snapshot.message),
        timestamp: if now >= snapshot.started_at {
            now
        } else {
            snapshot.started_at
        },
    }
}

} // verus!
