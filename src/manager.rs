use vstd::prelude::*;

use crate::rules::{
    build_platform_room_output_dir, is_active, is_active_status, normalize_platform,
    normalize_quality, normalize_segment_minutes, output_root_of, platform_code, quality_of,
    resolve_output_root, room_dir_of, segment_minutes_of,
};
use crate::snapshot::{RecordingTaskSnapshot, StartLiveRecordingPayload};
use crate::text::{str_eq, trim, trimmed};

verus! {

/// A validated request to record: what a worker is built from.
pub struct RecordingPlan {
    pub platform: String,
    pub room_id: String,
    pub quality: String,
    pub segment_minutes: u32,
    pub cookie: Option<String>,
    pub output_dir: String,
}

pub open spec fn opt_str_view(o: Option<String>) -> Option<Seq<char>> {
    match o {
        Some(s) => Some(s@),
        None => None,
    }
}

/// The cookie that requests carry: the given one, unless it is blank.
pub open spec fn cookie_of(c: Option<Seq<char>>) -> Option<Seq<char>> {
    match c {
        Some(v) => if trimmed(v).len() > 0 {
            Some(v)
        } else {
            None
        },
        None => None,
    }
}

/// Checks and normalises a start request. The platform must be known, the
/// room id must not be blank; quality and segment length fall back to their
/// defaults, and the output directory is `<root>/<platform>/<room token>`.
pub fn plan_recording(payload: &StartLiveRecordingPayload, default_root: &str) -> (r: Result<
    RecordingPlan,
    String,
>)
    ensures
        platform_code(payload.platform@) is None ==> r is Err && r->Err_0@
            == "Unsupported platform: "@ + payload.platform@,
        platform_code(payload.platform@) is Some && trimmed(payload.room_id@).len() == 0 ==> r is Err
            && r->Err_0@ == "room_id is required"@,
        r is Ok ==> {
            let p = r->Ok_0;
            &&& platform_code(payload.platform@) == Some(p.platform@)
            &&& p.room_id@ == trimmed(payload.room_id@)
            &&& p.room_id@.len() > 0
            &&& p.quality@ == quality_of(opt_str_view(payload.quality))
            &&& p.segment_minutes == segment_minutes_of(payload.segment_minutes)
            &&& opt_str_view(p.cookie) == cookie_of(opt_str_view(payload.cookie))
            &&& p.output_dir@ == room_dir_of(
                output_root_of(opt_str_view(payload.output_dir), default_root@),
                p.platform@,
                p.room_id@,
            )
        },
        (platform_code(payload.platform@) is Some && trimmed(payload.room_id@).len() > 0) ==> r is Ok,
{
    let platform = match normalize_platform(payload.platform.as_str()) {
        Some(p) => p,
        None => {
            let mut e = String::from_str("Unsupported platform: ");
            e.append(payload.platform.as_str());
            return Err(e);
        },
    };
    let room_id = trim(payload.room_id.as_str());
    if room_id.as_str().unicode_len() == 0 {
        return Err(String::from_str("room_id is required"));
    }
    let quality = match &payload.quality {
        Some(q) => normalize_quality(Some(q.as_str())),
        None => normalize_quality(None),
    };
    let segment_minutes = normalize_segment_minutes(payload.segment_minutes);
    let cookie = match &payload.cookie {
        Some(c) => {
            let t = trim(c.as_str());
            if t.as_str().unicode_len() > 0 {
                Some(c.clone())
            } else {
                None
            }
        },
        None => None,
    };
    let root = match &payload.output_dir {
        Some(d) => resolve_output_root(Some(d.as_str()), default_root),
        None => resolve_output_root(None, default_root),
    };
    let output_dir = build_platform_room_output_dir(root.as_str(), platform, room_id.as_str());
    Ok(
        RecordingPlan {
            platform: String::from_str(platform),
            room_id,
            quality,
            segment_minutes,
            cookie,
            output_dir,
        },
    )
}

/// Whether a snapshot is an active recording of `platform` and `room_id`.
pub open spec fn active_for(s: RecordingTaskSnapshot, platform: Seq<char>, room_id: Seq<char>) -> bool {
    s.platform@ == platform && s.room_id@ == room_id && is_active(s.status@)
}

/// No two active tasks record the same room of the same platform.
pub open spec fn at_most_one_active(tasks: Seq<RecordingTaskSnapshot>) -> bool {
    forall|i: int, j: int|
        0 <= i < tasks.len() && 0 <= j < tasks.len() && #[trigger] is_active(tasks[i].status@)
            && #[trigger] is_active(tasks[j].status@) && tasks[i].platform@ == tasks[j].platform@
            && tasks[i].room_id@ == tasks[j].room_id@ ==> i == j
}

/// The id of an active task that records `platform` and `room_id`, if any.
pub fn find_active_task(tasks: &Vec<RecordingTaskSnapshot>, platform: &str, room_id: &str) -> (r:
    Option<String>)
    ensures
        r is None <==> forall|i: int| 0 <= i < tasks@.len() ==> !active_for(#[trigger] tasks@[i], platform@, room_id@),
        r is Some ==> exists|i: int|
            0 <= i < tasks@.len() && active_for(#[trigger] tasks@[i], platform@, room_id@)
                && tasks@[i].task_id == r->0,
{
    let mut i: usize = 0;
    while i < tasks.len()
        invariant
            i <= tasks@.len(),
            forall|k: int| 0 <= k < i ==> !active_for(#[trigger] tasks@[k], platform@, room_id@),
        decreases tasks@.len() - i,
    {
        let t = &tasks[i];
        if str_eq(t.platform.as_str(), platform) && str_eq(t.room_id.as_str(), room_id)
            && is_active_status(t.status.as_str()) {
            return Some(t.task_id.clone());
        }
        i = i + 1;
    }
    None
}

/// The error for a second start of a room that is being recorded.
pub open spec fn duplicate_message(platform: Seq<char>, room_id: Seq<char>, task_id: Seq<char>) -> Seq<
    char,
> {
    "Recording already running for "@ + platform + ":"@ + room_id + " (task_id="@ + task_id + ")"@
}

/// Refuses a plan whose room is already being recorded.
pub fn check_duplicate(tasks: &Vec<RecordingTaskSnapshot>, platform: &str, room_id: &str) -> (r:
    Result<(), String>)
    ensures
        r is Ok <==> forall|i: int| 0 <= i < tasks@.len() ==> !active_for(#[trigger] tasks@[i], platform@, room_id@),
        r is Err ==> exists|i: int|
            0 <= i < tasks@.len() && active_for(#[trigger] tasks@[i], platform@, room_id@)
                && r->Err_0@ == duplicate_message(platform@, room_id@, tasks@[i].task_id@),
        at_most_one_active(tasks@) && r is Err ==> forall|i: int|
            0 <= i < tasks@.len() && active_for(#[trigger] tasks@[i], platform@, room_id@) ==> r->Err_0@
                == duplicate_message(platform@, room_id@, tasks@[i].task_id@),
{
    match find_active_task(tasks, platform, room_id) {
        None => Ok(()),
        Some(id) => {
            let mut e = String::from_str("Recording already running for ");
            e.append(platform);
            e.append(":");
            e.append(room_id);
            e.append(" (task_id=");
            e.append(id.as_str());
            e.append(")");
            Err(e)
        },
    }
}

/// Adding a task whose room has no active recording keeps every room at one
/// active recording at most.
pub proof fn lemma_admit_keeps_single_active(
    tasks: Seq<RecordingTaskSnapshot>,
    new_task: RecordingTaskSnapshot,
)
    requires
        at_most_one_active(tasks),
        forall|i: int|
            0 <= i < tasks.len() ==> !active_for(#[trigger] tasks[i], new_task.platform@, new_task.room_id@),
    ensures
        at_most_one_active(tasks.push(new_task)),
{
    let t = tasks.push(new_task);
    assert forall|i: int, j: int|
        0 <= i < t.len() && 0 <= j < t.len() && #[trigger] is_active(t[i].status@)
            && #[trigger] is_active(t[j].status@) && t[i].platform@ == t[j].platform@
            && t[i].room_id@ == t[j].room_id@ implies i == j by {
        if i < tasks.len() && j == tasks.len() {
            assert(active_for(tasks[i], new_task.platform@, new_task.room_id@));
        } else if j < tasks.len() && i == tasks.len() {
            assert(active_for(tasks[j], new_task.platform@, new_task.room_id@));
        } else if i < tasks.len() && j < tasks.len() {
            assert(is_active(tasks[i].status@) && is_active(tasks[j].status@));
        }
    }
}

/// One tracked recording task and what its driver keeps for it.
pub struct RecordingRuntime<R> {
    pub task_id: String,
    pub platform: String,
    pub room_id: String,
    pub runtime: R,
}

/// The recording tasks, by id.
pub struct RecordingManager<R> {
    pub tasks: Vec<RecordingRuntime<R>>,
}

impl<R> RecordingManager<R> {
    /// The ids of the tracked tasks, in order.
    pub open spec fn ids(&self) -> Seq<Seq<char>> {
        self.tasks@.map_values(|t: RecordingRuntime<R>| t.task_id@)
    }

    pub open spec fn wf(&self) -> bool {
        self.ids().no_duplicates()
    }

    pub fn new() -> (r: Self)
        ensures
            r.wf(),
            r.tasks@.len() == 0,
    {
        RecordingManager { tasks: Vec::new() }
    }

    pub fn len(&self) -> (r: usize)
        ensures
            r == self.tasks@.len(),
    {
        self.tasks.len()
    }

    fn position(&self, task_id: &str) -> (r: Option<usize>)
        ensures
            match r {
                Some(i) => i < self.tasks@.len() && self.tasks@[i as int].task_id@ == task_id@
                    && self.ids().contains(task_id@),
                None => !self.ids().contains(task_id@),
            },
    {
        let mut i: usize = 0;
        while i < self.tasks.len()
            invariant
                i <= self.tasks@.len(),
                forall|k: int| 0 <= k < i ==> self.tasks@[k].task_id@ != task_id@,
            decreases self.tasks@.len() - i,
        {
            if str_eq(self.tasks[i].task_id.as_str(), task_id) {
                assert(self.ids()[i as int] == task_id@);
                return Some(i);
            }
            i = i + 1;
        }
        proof {
            if self.ids().contains(task_id@) {
                let k = choose|k: int| 0 <= k < self.ids().len() && self.ids()[k] == task_id@;
                assert(self.tasks@[k].task_id@ == task_id@);
            }
        }
        None
    }

    /// Whether a task with this id is tracked.
    pub fn contains(&self, task_id: &str) -> (r: bool)
        ensures
            r == self.ids().contains(task_id@),
    {
        self.position(task_id).is_some()
    }

    /// Tracks a new task. A task id that is already tracked is refused and
    /// handed back.
    pub fn insert(&mut self, entry: RecordingRuntime<R>) -> (r: Option<RecordingRuntime<R>>)
        requires
            old(self).wf(),
        ensures
            final(self).wf(),
            old(self).ids().contains(entry.task_id@) ==> r == Some(entry) && final(self).tasks@
                == old(self).tasks@,
            !old(self).ids().contains(entry.task_id@) ==> r is None && final(self).tasks@
                == old(self).tasks@.push(entry),
    {
        if self.contains(entry.task_id.as_str()) {
            return Some(entry);
        }
        let ghost id = entry.task_id@;
        self.tasks.push(entry);
        assert(self.ids() =~= old(self).ids().push(id));
        None
    }

    /// Stops tracking the task with this id and hands it back; an unknown id
    /// changes nothing.
    pub fn remove(&mut self, task_id: &str) -> (r: Option<RecordingRuntime<R>>)
        requires
            old(self).wf(),
        ensures
            final(self).wf(),
            !old(self).ids().contains(task_id@) ==> r is None && final(self).tasks@
                == old(self).tasks@,
            old(self).ids().contains(task_id@) ==> r is Some && r->0.task_id@ == task_id@
                && !final(self).ids().contains(task_id@) && exists|i: int|
                0 <= i < old(self).tasks@.len() && final(self).tasks@ == old(self).tasks@.remove(i)
                    && r->0 == #[trigger] old(self).tasks@[i],
    {
        match self.position(task_id) {
            None => None,
            Some(i) => {
                let ghost before = self.ids();
                let ghost old_tasks = self.tasks@;
                let e = self.tasks.remove(i);
                assert(self.tasks@ == old_tasks.remove(i as int));
                assert(e == old_tasks[i as int]);
                assert(self.ids() =~= before.remove(i as int));
                proof {
                    if self.ids().contains(task_id@) {
                        let k = choose|k: int|
                            0 <= k < self.ids().len() && self.ids()[k] == task_id@;
                        if k < i {
                            assert(before[k] == before[i as int]);
                        } else {
                            assert(before[k + 1] == before[i as int]);
                        }
                    }
                }
                Some(e)
            },
        }
    }

    /// Stops tracking every task and hands them all back, in order.
    pub fn drain(&mut self) -> (r: Vec<RecordingRuntime<R>>)
        requires
            old(self).wf(),
        ensures
            final(self).wf(),
            final(self).tasks@.len() == 0,
            r@ == old(self).tasks@,
    {
        let mut taken: Vec<RecordingRuntime<R>> = Vec::new();
        std::mem::swap(&mut taken, &mut self.tasks);
        assert(self.ids() =~= Seq::<Seq<char>>::empty());
        taken
    }
}

} // verus!
