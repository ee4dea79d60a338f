//! The task registry: assigns ids to launched processes, tracks their
//! lifecycle, and reconciles registry state against real OS process state on
//! demand.

use vstd::prelude::*;
use crate::os::{now_millis, poll_child};
use crate::status::{clone_status, is_terminal, reconcile, status_step, StatusModel, TaskStatus};
use tokio::process::Child;

verus! {

/// One task's metadata, as handed out to callers: a read-only snapshot that
/// reflects the most recent reconciliation.
#[derive(Debug, Clone)]
pub struct TaskInfo {
    /// The unique, positive id the registry assigned at launch.
    pub id: u32,
    /// The exact command string that was launched.
    pub command: String,
    /// The clock reading captured at launch, in milliseconds since the Unix
    /// epoch.
    pub start_time: u64,
    /// The task's status as of its last reconciliation.
    pub status: TaskStatus,
}

/// The mathematical model of a [`TaskInfo`].
pub struct InfoModel {
    pub id: u32,
    pub command: Seq<char>,
    pub start_time: u64,
    pub status: StatusModel,
}

impl View for TaskInfo {
    type V = InfoModel;

    open spec fn view(&self) -> InfoModel {
        InfoModel {
            id: self.id,
            command: self.command@,
            start_time: self.start_time,
            status: self.status@,
        }
    }
}

/// What the registry knows of one task; the task's id is the entry's
/// position in the registry, plus one.
pub struct TaskModel {
    pub command: Seq<char>,
    pub start_time: u64,
    pub status: StatusModel,
}

/// The snapshot that describes registry entry `m` under id `id`.
pub open spec fn info_of(id: u32, m: TaskModel) -> InfoModel {
    InfoModel { id, command: m.command, start_time: m.start_time, status: m.status }
}

/// One registry entry: the task's metadata, and — exactly while its status
/// is `Running` — the live handle of its process.
struct TaskRecord {
    command: String,
    start_time: u64,
    status: TaskStatus,
    child: Option<Child>,
}

impl TaskRecord {
    spec fn model(&self) -> TaskModel {
        TaskModel { command: self.command@, start_time: self.start_time, status: self.status@ }
    }

    spec fn wf(&self) -> bool {
        self.child is Some <==> self.status@ is Running
    }
}

/// The task registry. Entry `i` holds the task with id `i + 1`: ids are
/// assigned consecutively from 1, are never reused, and a task is never
/// deleted.
pub struct TaskManager {
    tasks: Vec<TaskRecord>,
}

impl View for TaskManager {
    type V = Seq<TaskModel>;

    closed spec fn view(&self) -> Seq<TaskModel> {
        self.tasks@.map(|i: int, r: TaskRecord| r.model())
    }
}

impl TaskManager {
    /// Well-formed: a live process handle is held for a task exactly while
    /// its last-observed status is `Running`, and the registry never
    /// outgrows the id space.
    pub closed spec fn wf(&self) -> bool {
        &&& forall|i: int| 0 <= i < self.tasks@.len() ==> (#[trigger] self.tasks@[i]).wf()
        &&& self.tasks@.len() <= u32::MAX
    }

    /// Whether a task with this id is registered.
    pub open spec fn contains_id(&self, id: u32) -> bool {
        1 <= id && id as int <= self@.len()
    }

    /// The registry entry of task `id`.
    pub open spec fn task(&self, id: u32) -> TaskModel
        recommends
            self.contains_id(id),
    {
        self@[id as int - 1]
    }

    /// An empty registry; the first id it assigns is 1.
    pub fn new() -> (r: TaskManager)
        ensures
            r.wf(),
            r@ == Seq::<TaskModel>::empty(),
    {
        let r = TaskManager { tasks: Vec::new() };
        proof {
            assert(r@ =~= Seq::<TaskModel>::empty());
        }
        r
    }

    /// The number of registered tasks.
    pub fn task_count(&self) -> (n: usize)
        ensures
            n == self@.len(),
    {
        self.tasks.len()
    }

    /// Registers a freshly launched process: assigns the next id — one more
    /// than the registry's size, so never an id assigned before — and
    /// records the command, the clock reading at registration, status
    /// `Running`, and the live handle, under that id.
    pub fn add_task(&mut self, command: String, child: Child) -> (id: u32)
        requires
            old(self).wf(),
            old(self)@.len() < u32::MAX,
        ensures
            final(self).wf(),
            id as int == old(self)@.len() + 1,
            !old(self).contains_id(id),
            final(self).contains_id(id),
            final(self)@.len() == old(self)@.len() + 1,
            forall|j: int| 0 <= j < old(self)@.len() ==> final(self)@[j] == old(self)@[j],
            final(self).task(id).command == command@,
            final(self).task(id).status is Running,
    {
        let start_time = now_millis();
        let id = (self.tasks.len() as u32) + 1;
        let record = TaskRecord {
            command,
            start_time,
            status: TaskStatus::Running,
            child: Some(child),
        };
        self.tasks.push(record);

        id
    }

    /// A read-only snapshot of task `id`'s metadata, exactly when such a
    /// task is registered.
    pub fn get_task(&self, id: u32) -> (r: Option<TaskInfo>)
        ensures
            r is Some <==> self.contains_id(id),
            r is Some ==> r->0@ == info_of(id, self.task(id)),
    {
        if id >= 1 && (id as usize) <= self.tasks.len() {
            let rec = &self.tasks[(id as usize) - 1];
            Some(
                TaskInfo {
                    id,
                    command: rec.command.clone(),
                    start_time: rec.start_time,
                    status: clone_status(&rec.status),
                },
            )
        } else {
            None
        }
    }

    /// A snapshot of all registered tasks, in order of id: entry `j`
    /// describes the task with id `j + 1`.
    pub fn list_tasks(&self) -> (r: Vec<TaskInfo>)
        requires
            self.wf(),
        ensures
            r@.len() == self@.len(),
            forall|j: int|
                0 <= j < self@.len() ==> (#[trigger] r@[j])@ == info_of((j + 1) as u32, self@[j]),
    {
        let mut out: Vec<TaskInfo> = Vec::new();
        let mut i: usize = 0;
        while i < self.tasks.len()
            invariant
                self.wf(),
                0 <= i <= self@.len(),
                out@.len() == i,
                forall|j: int|
                    0 <= j < i ==> (#[trigger] out@[j])@ == info_of((j + 1) as u32, self@[j]),
            decreases self@.len() - i,
        {
            let rec = &self.tasks[i];
            let info = TaskInfo {
                id: (i as u32) + 1,
                command: rec.command.clone(),
                start_time: rec.start_time,
                status: clone_status(&rec.status),
            };
            out.push(info);
            i += 1;
        }
        out
    }

    /// Reconciles task `id`'s recorded status against the real state of its
    /// process, and returns the reconciled status — or `None` exactly when
    /// no such task is registered.
    ///
    /// While a live handle is held, one non-blocking poll decides: a process
    /// that has not exited leaves the task `Running` and its entry untouched
    /// (the handle is retained); an exit, or a poll error, moves the task to
    /// the terminal status [`crate::status::reconciled`] gives and discards the handle.
    /// Once terminal, the entry never changes again: every later call
    /// returns the identical stored status, with no further side effect.
    pub fn check_task_status(&mut self, id: u32) -> (r: Option<TaskStatus>)
        requires
            old(self).wf(),
        ensures
            final(self).wf(),
            final(self)@.len() == old(self)@.len(),
            r is Some <==> old(self).contains_id(id),
            forall|j: int|
                0 <= j < final(self)@.len() && j != id as int - 1 ==> final(self)@[j] == old(
                    self,
                )@[j],
            r is Some ==> {
                let pre = old(self).task(id);
                let post = final(self).task(id);
                &&& post.command == pre.command
                &&& post.start_time == pre.start_time
                &&& r->0@ == post.status
                &&& status_step(pre.status, post.status)
                &&& (is_terminal(pre.status) ==> post == pre)
                &&& (post.status is Running ==> post == pre)
            },
    {
        if id < 1 || (id as usize) > self.tasks.len() {
            return None;
        }
        let i = (id as usize) - 1;
        let rec = &mut self.tasks[i];
        match rec.child.take() {
            Some(mut child) => {
                let outcome = poll_child(&mut child);
                let new_status = reconcile(outcome);
                match new_status {
                    TaskStatus::Running => {
                        rec.child = Some(child);
                        Some(TaskStatus::Running)
                    },
                    st => {
                        let result = clone_status(&st);
                        rec.status = st;
                        Some(result)
                    },
                }
            },
            None => Some(clone_status(&rec.status)),
        }
    }
}

/// Uniqueness of assigned ids: any run of registrations — each returning one
/// more than the registry's size at the time, as `add_task` ensures — hands
/// out pairwise distinct ids that form the consecutive integer range
/// starting just past the initial size.
pub proof fn lemma_assigned_ids_unique(start: int, ids: Seq<int>)
    requires
        forall|k: int| 0 <= k < ids.len() ==> #[trigger] ids[k] == start + 1 + k,
    ensures
        forall|j: int, k: int| 0 <= j < k < ids.len() ==> ids[j] != ids[k],
        forall|k: int| 0 <= k < ids.len() ==> start + 1 <= #[trigger] ids[k] <= start + ids.len(),
{
}

} // verus!
