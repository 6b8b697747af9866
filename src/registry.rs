use vstd::prelude::*;
use crate::tasks::PushType;

verus! {

/// Status of a submitted task.
#[derive(Clone, Debug)]
pub enum TaskStatus {
    Pending,
    Running,
    Completed(bool),
    Failed(String),
}

/// Kind of a submitted request.
#[derive(Clone, Copy, Debug, PartialEq, Eq, Structural)]
pub enum TaskKind {
    QrCodeLogin,
    LoginSms,
    Push,
    SubmitLoginSms,
    GetAllOrders,
    GetTicketInfo,
    GetBuyerInfo,
    GrabTicket,
}

/// The fields a task keeps of its request, by kind.
#[derive(Clone, Debug)]
pub enum TaskDetail {
    QrCodeLogin { qrcode_key: String, qrcode_url: String },
    LoginSms { phone: String },
    Push { push_type: PushType, title: String, message: String },
    SubmitLoginSms { phone: String, code: String, captcha_key: String },
    GetAllOrders { account_id: String },
    GetTicketInfo { project_id: String },
    GetBuyerInfo { uid: i64 },
    GrabTicket { project_id: String, screen_id: String, ticket_id: String, grab_mode: u8 },
}

/// The kind of request a detail belongs to.
pub open spec fn kind_of(d: TaskDetail) -> TaskKind {
    match d {
        TaskDetail::QrCodeLogin { .. } => TaskKind::QrCodeLogin,
        TaskDetail::LoginSms { .. } => TaskKind::LoginSms,
        TaskDetail::Push { .. } => TaskKind::Push,
        TaskDetail::SubmitLoginSms { .. } => TaskKind::SubmitLoginSms,
        TaskDetail::GetAllOrders { .. } => TaskKind::GetAllOrders,
        TaskDetail::GetTicketInfo { .. } => TaskKind::GetTicketInfo,
        TaskDetail::GetBuyerInfo { .. } => TaskKind::GetBuyerInfo,
        TaskDetail::GrabTicket { .. } => TaskKind::GrabTicket,
    }
}

impl TaskDetail {
    pub fn kind(&self) -> (r: TaskKind)
        ensures
            r == kind_of(*self),
    {
        match self {
            TaskDetail::QrCodeLogin { .. } => TaskKind::QrCodeLogin,
            TaskDetail::LoginSms { .. } => TaskKind::LoginSms,
            TaskDetail::Push { .. } => TaskKind::Push,
            TaskDetail::SubmitLoginSms { .. } => TaskKind::SubmitLoginSms,
            TaskDetail::GetAllOrders { .. } => TaskKind::GetAllOrders,
            TaskDetail::GetTicketInfo { .. } => TaskKind::GetTicketInfo,
            TaskDetail::GetBuyerInfo { .. } => TaskKind::GetBuyerInfo,
            TaskDetail::GrabTicket { .. } => TaskKind::GrabTicket,
        }
    }
}

/// One task known to the registry.
#[derive(Debug)]
pub struct TaskEntry {
    pub task_id: String,
    pub detail: TaskDetail,
    pub status: TaskStatus,
    pub cancel_requested: bool,
    pub start_time: std::time::Instant,
}

/// Why the registry refused a request.
#[derive(Clone, Copy, Debug, PartialEq, Eq, Structural)]
pub enum RegistryError {
    /// No task has this id.
    NotFound,
    /// A task with this id is already registered.
    DuplicateId,
    /// The registry was shut down.
    Closed,
}

/// Map from task id to task state. The entries are kept in a vector, oldest
/// first, and looked up by their string id; ids are unique.
pub struct TaskRegistry {
    entries: Vec<TaskEntry>,
    accepting: bool,
}

/// The entry registered under `id`, if any.
pub open spec fn lookup(entries: Seq<TaskEntry>, id: Seq<char>) -> Option<TaskEntry>
    decreases entries.len(),
{
    if entries.len() == 0 {
        None
    } else if entries.last().task_id@ == id {
        Some(entries.last())
    } else {
        lookup(entries.drop_last(), id)
    }
}

/// 0 while waiting, 1 while running, 2 once ended.
pub open spec fn rank(s: TaskStatus) -> int {
    match s {
        TaskStatus::Pending => 0,
        TaskStatus::Running => 1,
        _ => 2,
    }
}

/// The status reached by moving `s` towards `target`: a status never moves back,
/// and an ended task keeps its end.
pub open spec fn advanced(s: TaskStatus, target: TaskStatus) -> TaskStatus {
    if rank(target) > rank(s) { target } else { s }
}

fn clone_status(s: &TaskStatus) -> (r: TaskStatus)
    ensures
        r == *s,
{
    match s {
        TaskStatus::Pending => TaskStatus::Pending,
        TaskStatus::Running => TaskStatus::Running,
        TaskStatus::Completed(b) => TaskStatus::Completed(*b),
        TaskStatus::Failed(m) => TaskStatus::Failed(m.clone()),
    }
}

/// Relies on `uuid::Uuid::new_v4` and its `Display` form: a random, hyphenated id.
#[verifier::external_body]
fn new_task_id() -> (r: String)
{
    uuid::Uuid::new_v4().to_string()
}

/// Relies on `std::time::Instant::now`: the current instant.
#[verifier::external_body]
fn now_instant() -> (r: std::time::Instant)
{
    std::time::Instant::now()
}

/// No two entries share an id.
pub open spec fn ids_unique(s: Seq<TaskEntry>) -> bool {
    forall|i: int, j: int| 0 <= i < j < s.len() ==> (#[trigger] s[i]).task_id@ != (#[trigger] s[j]).task_id@
}

proof fn lemma_lookup_none(s: Seq<TaskEntry>, id: Seq<char>)
    ensures
        lookup(s, id) is None <==> forall|k: int| 0 <= k < s.len() ==> (#[trigger] s[k]).task_id@ != id,
    decreases s.len(),
{
    if s.len() > 0 {
        let d = s.drop_last();
        lemma_lookup_none(d, id);
        if lookup(s, id) is None {
            assert forall|k: int| 0 <= k < s.len() implies (#[trigger] s[k]).task_id@ != id by {
                if k < s.len() - 1 {
                    assert(d[k] == s[k]);
                }
            }
        }
        if forall|k: int| 0 <= k < s.len() ==> (#[trigger] s[k]).task_id@ != id {
            assert(s[s.len() - 1].task_id@ != id);
            assert forall|k: int| 0 <= k < d.len() implies (#[trigger] d[k]).task_id@ != id by {
                assert(d[k] == s[k]);
            }
        }
    }
}

proof fn lemma_lookup_remove(s: Seq<TaskEntry>, i: int, other: Seq<char>)
    requires
        0 <= i < s.len(),
        other != s[i].task_id@,
    ensures
        lookup(s.remove(i), other) == lookup(s, other),
    decreases s.len(),
{
    let t = s.remove(i);
    if i == s.len() - 1 {
        assert(t =~= s.drop_last());
    } else {
        assert(t.last() == s.last());
        assert(t.drop_last() =~= s.drop_last().remove(i));
        lemma_lookup_remove(s.drop_last(), i, other);
    }
}

impl TaskRegistry {
    /// The registered entries, oldest first.
    pub closed spec fn entries(&self) -> Seq<TaskEntry> {
        self.entries@
    }

    /// Whether new tasks are accepted.
    pub closed spec fn is_accepting(&self) -> bool {
        self.accepting
    }

    /// The entry registered under `id`, if any.
    pub open spec fn get(&self, id: Seq<char>) -> Option<TaskEntry> {
        lookup(self.entries(), id)
    }

    /// An empty registry that accepts tasks.
    pub fn new() -> (r: TaskRegistry)
        ensures
            r.entries().len() == 0,
            r.is_accepting(),
            r.wf(),
            forall|id: Seq<char>| r.get(id) is None,
    {
        TaskRegistry { entries: Vec::new(), accepting: true }
    }

    /// Position of the entry registered under `id`, searching from the newest.
    fn position(&self, id: &str) -> (r: Option<usize>)
        ensures
            r is None ==> self.get(id@) is None,
            r matches Some(i) ==> i < self.entries().len() && self.get(id@) == Some(self.entries()[i as int])
                && self.entries()[i as int].task_id@ == id@
                && forall|k: int| i < k < self.entries().len() ==> self.entries()[k].task_id@ != id@,
    {
        let mut i: usize = self.entries.len();
        assert(self.entries@.take(i as int) =~= self.entries@);
        while i > 0
            invariant
                i <= self.entries@.len(),
                lookup(self.entries@, id@) == lookup(self.entries@.take(i as int), id@),
                forall|k: int| i <= k < self.entries@.len() ==> self.entries@[k].task_id@ != id@,
            decreases i,
        {
            let ghost pre = self.entries@.take(i as int);
            assert(pre.drop_last() =~= self.entries@.take(i - 1));
            if self.entries[i - 1].task_id.as_str().unicode_len() == id.unicode_len()
                && str_eq(self.entries[i - 1].task_id.as_str(), id) {
                return Some(i - 1);
            }
            i = i - 1;
        }
        assert(self.entries@.take(0) =~= Seq::<TaskEntry>::empty());
        None
    }

    /// Status of the task registered under `task_id`.
    pub fn get_task_status(&self, task_id: &str) -> (r: Option<TaskStatus>)
        ensures
            r == (match self.get(task_id@) {
                Some(e) => Some(e.status),
                None => None::<TaskStatus>,
            }),
    {
        match self.position(task_id) {
            Some(i) => Some(clone_status(&self.entries[i].status)),
            None => None,
        }
    }

    /// Ids stay unique.
    pub open spec fn wf(&self) -> bool {
        ids_unique(self.entries())
    }

    /// Records a new task as pending, started at `start_time`.
    pub fn register(&mut self, task_id: String, detail: TaskDetail, start_time: std::time::Instant) -> (r: Result<(), RegistryError>)
        requires
            old(self).wf(),
        ensures
            final(self).wf(),
            !old(self).is_accepting() ==> r == Err::<(), RegistryError>(RegistryError::Closed)
                && final(self).entries() == old(self).entries(),
            old(self).is_accepting() && old(self).get(task_id@) is Some
                ==> r == Err::<(), RegistryError>(RegistryError::DuplicateId)
                && final(self).entries() == old(self).entries(),
            old(self).is_accepting() && old(self).get(task_id@) is None ==> r is Ok
                && final(self).entries() == old(self).entries().push(TaskEntry {
                    task_id,
                    detail,
                    status: TaskStatus::Pending,
                    cancel_requested: false,
                    start_time,
                }),
            final(self).is_accepting() == old(self).is_accepting(),
    {
        if !self.accepting {
            return Err(RegistryError::Closed);
        }
        if self.position(task_id.as_str()).is_some() {
            return Err(RegistryError::DuplicateId);
        }
        proof {
            lemma_lookup_none(self.entries@, task_id@);
        }
        self.entries.push(TaskEntry { task_id, detail, status: TaskStatus::Pending, cancel_requested: false, start_time });
        Ok(())
    }

    /// Allocates a fresh random id for a new request and records the task as
    /// pending, started now. It fails only when the registry is shut down, or
    /// when the drawn id collides with a known one.
    pub fn submit_task(&mut self, detail: TaskDetail) -> (r: Result<String, RegistryError>)
        requires
            old(self).wf(),
        ensures
            final(self).wf(),
            r == Err::<String, RegistryError>(RegistryError::Closed) <==> !old(self).is_accepting(),
            old(self).is_accepting() && old(self).entries().len() == 0 ==> r is Ok,
            r matches Err(e) ==> e == RegistryError::Closed || (e == RegistryError::DuplicateId
                && old(self).is_accepting() && old(self).entries().len() > 0),
            r matches Ok(id) ==> old(self).get(id@) is None && final(self).entries() == old(self).entries().push(
                TaskEntry {
                    task_id: id,
                    detail,
                    status: TaskStatus::Pending,
                    cancel_requested: false,
                    start_time: final(self).entries().last().start_time,
                },
            ),
            r is Err ==> final(self).entries() == old(self).entries(),
            final(self).is_accepting() == old(self).is_accepting(),
    {
        let id = new_task_id();
        let start = now_instant();
        proof {
            lemma_lookup_none(self.entries@, id@);
        }
        match self.register(id.clone(), detail, start) {
            Ok(()) => Ok(id),
            Err(e) => Err(e),
        }
    }

    /// Forgets a task.
    pub fn remove_task(&mut self, task_id: &str) -> (r: Result<(), RegistryError>)
        requires
            old(self).wf(),
        ensures
            final(self).wf(),
            old(self).get(task_id@) is None ==> r == Err::<(), RegistryError>(RegistryError::NotFound)
                && final(self).entries() == old(self).entries(),
            old(self).get(task_id@) is Some ==> r is Ok && final(self).get(task_id@) is None,
            forall|other: Seq<char>| other != task_id@ ==> final(self).get(other) == old(self).get(other),
            final(self).is_accepting() == old(self).is_accepting(),
    {
        match self.position(task_id) {
            None => Err(RegistryError::NotFound),
            Some(i) => {
                let ghost before = self.entries@;
                self.entries.remove(i);
                proof {
                    assert(self.entries@ =~= before.remove(i as int));
                    assert forall|a: int, b: int| 0 <= a < b < self.entries@.len() implies
                        (#[trigger] self.entries@[a]).task_id@ != (#[trigger] self.entries@[b]).task_id@ by {
                        let a0 = if a < i { a } else { a + 1 };
                        let b0 = if b < i { b } else { b + 1 };
                        assert(self.entries@[a] == before[a0]);
                        assert(self.entries@[b] == before[b0]);
                    }
                    assert forall|k: int| 0 <= k < self.entries@.len() implies
                        (#[trigger] self.entries@[k]).task_id@ != task_id@ by {
                        let k0 = if k < i { k } else { k + 1 };
                        assert(self.entries@[k] == before[k0]);
                    }
                    lemma_lookup_none(self.entries@, task_id@);
                    assert forall|other: Seq<char>| other != task_id@ implies
                        lookup(self.entries@, other) == lookup(before, other) by {
                        lemma_lookup_remove(before, i as int, other);
                    }
                }
                Ok(())
            },
        }
    }

    /// Moves the status of `task_id` towards `target`; it never moves back.
    fn advance(&mut self, task_id: &str, target: TaskStatus) -> (r: Result<(), RegistryError>)
        requires
            old(self).wf(),
        ensures
            final(self).wf(),
            old(self).get(task_id@) is None ==> r == Err::<(), RegistryError>(RegistryError::NotFound)
                && final(self).entries() == old(self).entries(),
            old(self).get(task_id@) matches Some(e) ==> r is Ok
                && final(self).get(task_id@) == Some(TaskEntry { status: advanced(e.status, target), ..e }),
            old(self).get(task_id@) is Some ==> forall|other: Seq<char>| other != task_id@
                ==> final(self).get(other) == old(self).get(other),
            final(self).is_accepting() == old(self).is_accepting(),
            final(self).entries().len() == old(self).entries().len(),
    {
        match self.position(task_id) {
            None => Err(RegistryError::NotFound),
            Some(i) => {
                let ghost before = self.entries@;
                let mut e = self.entries.remove(i);
                let r = rank_of(&e.status);
                let t = rank_of(&target);
                if t > r {
                    e.status = target;
                }
                self.entries.insert(i, e);
                assert(self.entries@ =~= before.update(i as int, self.entries@[i as int]));
                proof {
                    lemma_lookup_update(before, i as int, self.entries@[i as int]);
                    assert forall|a: int, b: int| 0 <= a < b < self.entries@.len() implies
                        (#[trigger] self.entries@[a]).task_id@ != (#[trigger] self.entries@[b]).task_id@ by {
                        assert(self.entries@[a].task_id@ == before[a].task_id@);
                        assert(self.entries@[b].task_id@ == before[b].task_id@);
                    }
                }
                Ok(())
            },
        }
    }

    /// Marks a pending task as running.
    pub fn mark_running(&mut self, task_id: &str) -> (r: Result<(), RegistryError>)
        requires
            old(self).wf(),
        ensures
            final(self).wf(),
            old(self).get(task_id@) is None ==> r == Err::<(), RegistryError>(RegistryError::NotFound),
            old(self).get(task_id@) matches Some(e) ==> r is Ok
                && final(self).get(task_id@) == Some(TaskEntry { status: advanced(e.status, TaskStatus::Running), ..e }),
            forall|other: Seq<char>| other != task_id@ ==> final(self).get(other) == old(self).get(other),
    {
        self.advance(task_id, TaskStatus::Running)
    }

    /// Records the end of a task: success, or failure with its reason. An
    /// ended task keeps its first end.
    pub fn complete(&mut self, task_id: &str, success: bool, reason: Option<String>) -> (r: Result<(), RegistryError>)
        requires
            old(self).wf(),
        ensures
            final(self).wf(),
            old(self).get(task_id@) is None ==> r == Err::<(), RegistryError>(RegistryError::NotFound),
            old(self).get(task_id@) matches Some(e) ==> r is Ok && final(self).get(task_id@) == Some(TaskEntry {
                status: advanced(e.status, end_status(success, reason)),
                ..e
            }),
            forall|other: Seq<char>| other != task_id@ ==> final(self).get(other) == old(self).get(other),
    {
        let target = match reason {
            Some(m) => if success { TaskStatus::Completed(true) } else { TaskStatus::Failed(m) },
            None => TaskStatus::Completed(success),
        };
        self.advance(task_id, target)
    }

    /// Asks the task to stop at its next stage boundary.
    pub fn cancel_task(&mut self, task_id: &str) -> (r: Result<(), RegistryError>)
        requires
            old(self).wf(),
        ensures
            final(self).wf(),
            old(self).get(task_id@) is None ==> r == Err::<(), RegistryError>(RegistryError::NotFound)
                && final(self).entries() == old(self).entries(),
            old(self).get(task_id@) matches Some(e) ==> r is Ok
                && final(self).get(task_id@) == Some(TaskEntry { cancel_requested: true, ..e }),
            forall|other: Seq<char>| other != task_id@ ==> final(self).get(other) == old(self).get(other),
            final(self).is_accepting() == old(self).is_accepting(),
    {
        match self.position(task_id) {
            None => Err(RegistryError::NotFound),
            Some(i) => {
                let ghost before = self.entries@;
                let mut e = self.entries.remove(i);
                e.cancel_requested = true;
                self.entries.insert(i, e);
                assert(self.entries@ =~= before.update(i as int, self.entries@[i as int]));
                proof {
                    lemma_lookup_update(before, i as int, self.entries@[i as int]);
                    assert forall|a: int, b: int| 0 <= a < b < self.entries@.len() implies
                        (#[trigger] self.entries@[a]).task_id@ != (#[trigger] self.entries@[b]).task_id@ by {
                        assert(self.entries@[a].task_id@ == before[a].task_id@);
                        assert(self.entries@[b].task_id@ == before[b].task_id@);
                    }
                }
                Ok(())
            },
        }
    }

    /// Whether cancellation was asked for the task; false for an unknown id.
    pub fn is_cancel_requested(&self, task_id: &str) -> (r: bool)
        ensures
            r == (self.get(task_id@) matches Some(e) && e.cancel_requested),
    {
        match self.position(task_id) {
            Some(i) => self.entries[i].cancel_requested,
            None => false,
        }
    }

    /// Stops accepting new tasks; the known tasks stay. Doing it twice is
    /// the same as once.
    pub fn shutdown(&mut self)
        requires
            old(self).wf(),
        ensures
            final(self).wf(),
            !final(self).is_accepting(),
            final(self).entries() == old(self).entries(),
    {
        self.accepting = false;
    }
}

/// The status a task ends in.
pub open spec fn end_status(success: bool, reason: Option<String>) -> TaskStatus {
    match reason {
        Some(m) => if success { TaskStatus::Completed(true) } else { TaskStatus::Failed(m) },
        None => TaskStatus::Completed(success),
    }
}

fn rank_of(s: &TaskStatus) -> (r: u8)
    ensures
        r == rank(*s),
{
    match s {
        TaskStatus::Pending => 0,
        TaskStatus::Running => 1,
        _ => 2,
    }
}

/// Whether two strings hold the same characters.
fn str_eq(a: &str, b: &str) -> (r: bool)
    ensures
        r == (a@ == b@),
{
    let n = a.unicode_len();
    if n != b.unicode_len() {
        return false;
    }
    let mut i: usize = 0;
    while i < n
        invariant
            n == a@.len(),
            n == b@.len(),
            i <= n,
            forall|k: int| 0 <= k < i ==> a@[k] == b@[k],
        decreases n - i,
    {
        if a.get_char(i) != b.get_char(i) {
            return false;
        }
        i = i + 1;
    }
    assert(a@ =~= b@);
    true
}

/// Replacing the entry at `i` by one with the same id changes the lookup of
/// that id only.
proof fn lemma_lookup_update(s: Seq<TaskEntry>, i: int, e: TaskEntry)
    requires
        0 <= i < s.len(),
        e.task_id@ == s[i].task_id@,
        lookup(s, e.task_id@) == Some(s[i]),
        forall|k: int| i < k < s.len() ==> s[k].task_id@ != e.task_id@,
    ensures
        lookup(s.update(i, e), e.task_id@) == Some(e),
        forall|other: Seq<char>| other != e.task_id@ ==> lookup(s.update(i, e), other) == lookup(s, other),
    decreases s.len(),
{
    let t = s.update(i, e);
    if i == s.len() - 1 {
        assert(t.drop_last() =~= s.drop_last());
        assert forall|other: Seq<char>| other != e.task_id@ implies lookup(t, other) == lookup(s, other) by {
            assert(t.last() == e);
        }
    } else {
        assert(t.drop_last() =~= s.drop_last().update(i, e));
        assert(s.last().task_id@ != e.task_id@);
        lemma_lookup_update(s.drop_last(), i, e);
        assert(t.last() == s.last());
        assert forall|other: Seq<char>| other != e.task_id@ implies lookup(t, other) == lookup(s, other) by {
            if s.last().task_id@ != other {
                assert(t.last().task_id@ != other);
                assert(lookup(t, other) == lookup(t.drop_last(), other));
                assert(lookup(s.drop_last().update(i, e), other) == lookup(s.drop_last(), other));
                assert(lookup(s, other) == lookup(s.drop_last(), other));
            }
        }
    }
}

/// A task's status never moves back: waiting, then running, then ended, and
/// an ended task keeps its end.
pub proof fn lemma_status_monotonic(s: TaskStatus, target: TaskStatus)
    ensures
        rank(advanced(s, target)) >= rank(s),
        rank(s) == 2 ==> advanced(s, target) == s,
        rank(advanced(s, target)) >= rank(target) || rank(s) > rank(target),
        advanced(s, target) != TaskStatus::Pending || s == TaskStatus::Pending,
{
}

} // verus!
