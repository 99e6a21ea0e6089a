//! Durable tasks: an in-memory store that binds each task to the caller that
//! created it, expires it after its time to live, tracks its status and the
//! input it waits for, and records cancellation. Running the task's work and
//! publishing its status are left to the caller; the store decides.
use vstd::prelude::*;
use vstd::string::StringExecFns;
use crate::error::{McpError, spec_error_text, INTERNAL_ERROR};
use crate::json::{JsonValue, json_get, json_get_str, json_same, object_set, entries_lookup, lemma_lookup_push};
use crate::registry::Registry;
use crate::text::text_eq;

verus! {

/// Where a task stands.
#[derive(Clone, Copy, Debug, PartialEq, Eq, Structural)]
pub enum TaskStatus {
    Working,
    InputRequired,
    Completed,
    Failed,
    Cancelled,
}

/// A status no task leaves: completed, failed or cancelled.
pub open spec fn is_terminal(s: TaskStatus) -> bool {
    s == TaskStatus::Completed || s == TaskStatus::Failed || s == TaskStatus::Cancelled
}

impl TaskStatus {
    /// Whether no task leaves this status.
    pub fn is_terminal(&self) -> (r: bool)
        ensures
            r == is_terminal(*self),
    {
        match self {
            TaskStatus::Completed | TaskStatus::Failed | TaskStatus::Cancelled => true,
            _ => false,
        }
    }
}

/// A task as its creator sees it.
pub struct Task {
    pub task_id: String,
    pub status: TaskStatus,
    pub status_message: Option<String>,
    pub created_at: String,
    pub last_updated_at: String,
    pub ttl_ms: Option<u64>,
    pub poll_interval_ms: Option<u64>,
    pub input_requests: Registry<JsonValue>,
    pub result: Option<JsonValue>,
    pub error: Option<JsonValue>,
}

/// What the store keeps of a task.
pub struct TaskRecord {
    pub owner: String,
    pub task: Task,
    pub responses: Registry<JsonValue>,
    pub cancelled: bool,
    pub expires_at_ms: Option<u64>,
}

/// The time, as RFC 3339 text (`chrono::Utc::now().to_rfc3339()`); it
/// depends on when the call is made, so nothing is stated of it.
#[verifier::external_body]
fn utc_now_text() -> (r: String)
{
    chrono::Utc::now().to_rfc3339()
}

/// A fresh random task id (`uuid::Uuid::new_v4`, hyphenated): its text is
/// 36 characters long; which id comes out is chance.
#[verifier::external_body]
fn fresh_task_id() -> (r: String)
    ensures
        r@.len() == 36,
{
    uuid::Uuid::new_v4().to_string()
}

/// Why a caller may not reach a task, if it may not: an unknown id and a
/// task of another caller read alike, and a task past its deadline has
/// expired.
pub open spec fn access_problem(rec: Option<TaskRecord>, owner: Seq<char>, now_ms: u64) -> Option<Seq<char>> {
    match rec {
        None => Some("Task not found"@),
        Some(r) => if r.owner@ != owner {
            Some("Task not found"@)
        } else if r.expires_at_ms matches Some(d) && now_ms >= d {
            Some("Task has expired"@)
        } else {
            None
        },
    }
}

/// The answer `update` takes for `k` from `incoming`: the first one given,
/// when the task still asks for `k` and has no answer to it yet.
pub open spec fn answer_taken(o: TaskRecord, incoming: Seq<(String, JsonValue)>, k: Seq<char>) -> Option<JsonValue> {
    if o.task.input_requests.lookup(k) is Some && o.responses.lookup(k) is None {
        entries_lookup(incoming, k)
    } else {
        None
    }
}

/// `n` is `o` after taking the answers in `incoming`: each taken answer is
/// kept (as a copy) and its key no longer asked for; every other key is
/// asked for and answered as before.
pub open spec fn answers_recorded(o: TaskRecord, incoming: Seq<(String, JsonValue)>, n: TaskRecord) -> bool {
    &&& forall|k: Seq<char>| #[trigger] answer_taken(o, incoming, k) is None ==> {
        &&& n.task.input_requests.lookup(k) == o.task.input_requests.lookup(k)
        &&& n.responses.lookup(k) == o.responses.lookup(k)
    }
    &&& forall|k: Seq<char>| #[trigger] answer_taken(o, incoming, k) matches Some(v) ==> {
        &&& n.task.input_requests.lookup(k) is None
        &&& n.responses.lookup(k) matches Some(x) && json_same(x, v)
    }
}

/// What a caller answers is what the task reads back: when every key the
/// task asked for (and had no answer to) is answered, the record afterwards
/// holds those answers under those keys and asks for none of them, so an
/// input poll on those keys finds exactly the answers given.
pub proof fn answers_are_read_back(o: TaskRecord, incoming: Seq<(String, JsonValue)>, n: TaskRecord, keys: Seq<String>)
    requires
        answers_recorded(o, incoming, n),
        forall|j: int| 0 <= j < keys.len() ==> {
            &&& o.task.input_requests.lookup((#[trigger] keys[j])@) is Some
            &&& o.responses.lookup(keys[j]@) is None
            &&& entries_lookup(incoming, keys[j]@) is Some
        },
    ensures
        forall|j: int| 0 <= j < keys.len() ==> {
            &&& n.task.input_requests.lookup((#[trigger] keys[j])@) is None
            &&& n.responses.lookup(keys[j]@) matches Some(x) && json_same(x, entries_lookup(incoming, keys[j]@).unwrap())
        },
{
    assert forall|j: int| 0 <= j < keys.len() implies {
        &&& n.task.input_requests.lookup((#[trigger] keys[j])@) is None
        &&& n.responses.lookup(keys[j]@) matches Some(x) && json_same(x, entries_lookup(incoming, keys[j]@).unwrap())
    } by {
        assert(answer_taken(o, incoming, keys[j]@) == entries_lookup(incoming, keys[j]@));
    }
}

/// What an input poll finds.
pub enum InputPoll {
    /// The task was cancelled while waiting.
    Cancelled(McpError),
    /// Some requested input has not arrived.
    Waiting,
    /// Every requested input, in the order of the keys.
    Ready(Vec<(String, JsonValue)>),
}

/// The store of tasks.
pub struct TaskRegistry {
    records: Registry<TaskRecord>,
    default_ttl_ms: Option<u64>,
    poll_interval_ms: u64,
}

impl TaskRegistry {
    /// The record of the task `id`.
    pub closed spec fn stored(self, id: Seq<char>) -> Option<TaskRecord> {
        self.records.lookup(id)
    }

    /// The time to live given to new tasks.
    pub closed spec fn spec_default_ttl(self) -> Option<u64> {
        self.default_ttl_ms
    }

    /// The poll interval suggested to clients.
    pub closed spec fn spec_poll_interval(self) -> u64 {
        self.poll_interval_ms
    }

    /// Number of tasks held.
    pub closed spec fn task_count(self) -> nat {
        self.records.count()
    }

    /// An empty store.
    pub fn new(default_ttl_ms: Option<u64>, poll_interval_ms: u64) -> (r: TaskRegistry)
        ensures
            forall|id: Seq<char>| #[trigger] r.stored(id) is None,
            r.spec_default_ttl() == default_ttl_ms,
            r.spec_poll_interval() == poll_interval_ms,
            r.task_count() == 0,
    {
        TaskRegistry { records: Registry::new(), default_ttl_ms, poll_interval_ms }
    }

    /// Whether `owner` may reach the task `id` at `now_ms`. A task past its
    /// deadline is removed.
    pub fn check_access(&mut self, id: &str, owner: &str, now_ms: u64) -> (r: Result<(), McpError>)
        ensures
            match access_problem(old(self).stored(id@), owner@, now_ms) {
                None => r is Ok,
                Some(m) => r matches Err(McpError::InvalidParams(t)) && t@ == m,
            },
            access_problem(old(self).stored(id@), owner@, now_ms) == Some("Task has expired"@)
                ==> final(self).stored(id@) is None,
            access_problem(old(self).stored(id@), owner@, now_ms) != Some("Task has expired"@)
                ==> final(self).stored(id@) == old(self).stored(id@),
            forall|k: Seq<char>| k != id@ ==> #[trigger] final(self).stored(k) == old(self).stored(k),
            final(self).spec_default_ttl() == old(self).spec_default_ttl(),
            final(self).spec_poll_interval() == old(self).spec_poll_interval(),
    {
        proof {
            reveal_strlit("Task not found");
            reveal_strlit("Task has expired");
        }
        let (owned, expired) = match self.records.get(id) {
            None => (false, false),
            Some(rec) => (
                text_eq(rec.owner.as_str(), owner),
                match rec.expires_at_ms {
                    Some(d) => now_ms >= d,
                    None => false,
                },
            ),
        };
        if !owned {
            return Err(McpError::InvalidParams(String::from_str("Task not found")));
        }
        if expired {
            let _ = self.records.remove(id);
            return Err(McpError::InvalidParams(String::from_str("Task has expired")));
        }
        Ok(())
    }

    /// The record of the task `id` as `owner` may reach it at `now_ms`: an
    /// unknown id and a task of another caller are both "Task not found", a
    /// task past its deadline is removed and "Task has expired"; otherwise
    /// the record, which belongs to `owner`.
    pub fn record(&mut self, id: &str, owner: &str, now_ms: u64) -> (r: Result<&TaskRecord, McpError>)
        ensures
            match access_problem(old(self).stored(id@), owner@, now_ms) {
                None => r matches Ok(rec) && old(self).stored(id@) == Some(*rec) && rec.owner@ == owner@,
                Some(m) => r matches Err(McpError::InvalidParams(t)) && t@ == m,
            },
            access_problem(old(self).stored(id@), owner@, now_ms) == Some("Task has expired"@)
                ==> final(self).stored(id@) is None,
            access_problem(old(self).stored(id@), owner@, now_ms) != Some("Task has expired"@)
                ==> final(self).stored(id@) == old(self).stored(id@),
            forall|k: Seq<char>| k != id@ ==> #[trigger] final(self).stored(k) == old(self).stored(k),
            final(self).spec_default_ttl() == old(self).spec_default_ttl(),
            final(self).spec_poll_interval() == old(self).spec_poll_interval(),
    {
        match self.check_access(id, owner, now_ms) {
            Err(e) => Err(e),
            Ok(()) => match self.records.get(id) {
                Some(rec) => Ok(rec),
                None => Err(McpError::InvalidParams(String::from_str("Task not found"))),
            },
        }
    }

    /// Creates a task for `owner` at `now_ms`: working, "Task accepted",
    /// with the store's time to live and poll interval, no input requests,
    /// and a deadline a time to live from now (saturating). Returns its id.
    pub fn create(&mut self, owner: String, now_ms: u64) -> (id: String)
        ensures
            id@.len() == 36,
            final(self).stored(id@) matches Some(r) && {
                &&& r.owner == owner
                &&& !r.cancelled
                &&& r.task.task_id == id
                &&& r.task.status == TaskStatus::Working
                &&& r.task.status_message matches Some(m) && m@ == "Task accepted"@
                &&& r.task.ttl_ms == old(self).spec_default_ttl()
                &&& r.task.poll_interval_ms == Some(old(self).spec_poll_interval())
                &&& r.task.input_requests.count() == 0
                &&& r.task.result is None
                &&& r.task.error is None
                &&& r.responses.count() == 0
                &&& r.expires_at_ms == match old(self).spec_default_ttl() {
                    Some(t) => Some(if now_ms + t > u64::MAX { u64::MAX } else { (now_ms + t) as u64 }),
                    None => None::<u64>,
                }
            },
            forall|k: Seq<char>| k != id@ ==> #[trigger] final(self).stored(k) == old(self).stored(k),
            final(self).spec_default_ttl() == old(self).spec_default_ttl(),
            final(self).spec_poll_interval() == old(self).spec_poll_interval(),
    {
        let id = fresh_task_id();
        let now = utc_now_text();
        let task = Task {
            task_id: id.clone(),
            status: TaskStatus::Working,
            status_message: Some(String::from_str("Task accepted")),
            created_at: now.clone(),
            last_updated_at: now,
            ttl_ms: self.default_ttl_ms,
            poll_interval_ms: Some(self.poll_interval_ms),
            input_requests: Registry::new(),
            result: None,
            error: None,
        };
        let record = TaskRecord {
            owner,
            task,
            responses: Registry::new(),
            cancelled: false,
            expires_at_ms: match self.default_ttl_ms {
                Some(t) => Some(now_ms.saturating_add(t)),
                None => None,
            },
        };
        self.records.insert(id.clone(), record);
        id
    }

    /// The task `id`, when there is one.
    pub fn task(&self, id: &str) -> (r: Option<&Task>)
        ensures
            r matches Some(t) ==> (self.stored(id@) matches Some(rec) && *t == rec.task),
            r is None ==> self.stored(id@) is None,
    {
        match self.records.get(id) {
            Some(rec) => Some(&rec.task),
            None => None,
        }
    }

    /// The task `id` as `owner` sees it: refused, and a task past its
    /// deadline removed, exactly as `record` decides; otherwise the
    /// task, which belongs to `owner`.
    pub fn get(&mut self, id: &str, owner: &str, now_ms: u64) -> (r: Result<&Task, McpError>)
        ensures
            match access_problem(old(self).stored(id@), owner@, now_ms) {
                None => r matches Ok(t) && (old(self).stored(id@) matches Some(rec)
                    && rec.owner@ == owner@ && *t == rec.task),
                Some(m) => r matches Err(McpError::InvalidParams(t)) && t@ == m,
            },
            access_problem(old(self).stored(id@), owner@, now_ms) == Some("Task has expired"@)
                ==> final(self).stored(id@) is None,
            access_problem(old(self).stored(id@), owner@, now_ms) != Some("Task has expired"@)
                ==> final(self).stored(id@) == old(self).stored(id@),
            forall|k: Seq<char>| k != id@ ==> #[trigger] final(self).stored(k) == old(self).stored(k),
            final(self).spec_default_ttl() == old(self).spec_default_ttl(),
            final(self).spec_poll_interval() == old(self).spec_poll_interval(),
    {
        match self.record(id, owner, now_ms) {
            Err(e) => Err(e),
            Ok(rec) => Ok(&rec.task),
        }
    }

    /// Whether the task `id` was marked for cancellation.
    pub fn is_cancelled(&self, id: &str) -> (r: bool)
        ensures
            r == (self.stored(id@) matches Some(rec) && rec.cancelled),
    {
        match self.records.get(id) {
            Some(rec) => rec.cancelled,
            None => false,
        }
    }

    /// Marks the task `id` of `owner` for cancellation.
    pub fn cancel(&mut self, id: &str, owner: &str, now_ms: u64) -> (r: Result<(), McpError>)
        ensures
            match access_problem(old(self).stored(id@), owner@, now_ms) {
                Some(m) => r matches Err(McpError::InvalidParams(t)) && t@ == m,
                None => r is Ok && (final(self).stored(id@) matches Some(n) && old(self).stored(id@) matches Some(o)
                    && n == (TaskRecord { cancelled: true, ..o })),
            },
            forall|k: Seq<char>| k != id@ ==> #[trigger] final(self).stored(k) == old(self).stored(k),
    {
        match self.check_access(id, owner, now_ms) {
            Err(e) => return Err(e),
            Ok(()) => {},
        }
        let ghost s1 = *self;
        match self.records.take(id) {
            Some(rec) => {
                let ghost s2 = *self;
                let rec = TaskRecord { cancelled: true, ..rec };
                self.records.insert(String::from_str(id), rec);
                proof {
                    assert forall|k: Seq<char>| k != id@ implies #[trigger] self.stored(k) == old(self).stored(k) by {
                        assert(s2.stored(k) == s1.stored(k));
                        assert(s1.stored(k) == old(self).stored(k));
                    }
                }
                Ok(())
            },
            None => Ok(()),
        }
    }

    /// Sets the working status message of the task `id`; a task in a
    /// terminal status is left alone.
    pub fn report_progress(&mut self, id: &str, message: String) -> (r: Result<(), McpError>)
        ensures
            match old(self).stored(id@) {
                None => r matches Err(McpError::InvalidParams(t)) && t@ == "Task not found"@
                    && final(self).stored(id@) is None,
                Some(o) => if is_terminal(o.task.status) {
                    r matches Err(McpError::Cancelled(t)) && t@ == "task is already terminal"@
                        && final(self).stored(id@) == Some(o)
                } else {
                    r is Ok && (final(self).stored(id@) matches Some(n) && {
                        &&& n.task.status == TaskStatus::Working
                        &&& n.task.status_message == Some(message)
                        &&& n.task.input_requests.count() == 0
                        &&& n.owner == o.owner
                        &&& n.cancelled == o.cancelled
                        &&& n.expires_at_ms == o.expires_at_ms
                        &&& n.responses == o.responses
                        &&& n.task.task_id == o.task.task_id
                    })
                },
            },
            forall|k: Seq<char>| k != id@ ==> #[trigger] final(self).stored(k) == old(self).stored(k),
    {
        match self.records.take(id) {
            None => Err(McpError::InvalidParams(String::from_str("Task not found"))),
            Some(rec) => {
                if rec.task.status.is_terminal() {
                    self.records.insert(String::from_str(id), rec);
                    return Err(McpError::Cancelled(String::from_str("task is already terminal")));
                }
                let now = utc_now_text();
                let task = Task {
                    status: TaskStatus::Working,
                    status_message: Some(message),
                    input_requests: Registry::new(),
                    last_updated_at: now,
                    ..rec.task
                };
                self.records.insert(String::from_str(id), TaskRecord { task, ..rec });
                Ok(())
            },
        }
    }

    /// Asks for input: the task `id` waits for every key of `requests`.
    pub fn require_input(&mut self, id: &str, requests: Registry<JsonValue>, message: Option<String>) -> (r: Result<(), McpError>)
        ensures
            requests.count() == 0 ==> (r matches Err(McpError::InvalidParams(t)) && t@ == "task inputRequests cannot be empty"@
                && final(self).stored(id@) == old(self).stored(id@)),
            requests.count() > 0 ==> match old(self).stored(id@) {
                None => r matches Err(McpError::InvalidParams(t)) && t@ == "Task not found"@
                    && final(self).stored(id@) is None,
                Some(o) => if is_terminal(o.task.status) {
                    r matches Err(McpError::Cancelled(t)) && t@ == "task is already terminal"@
                        && final(self).stored(id@) == Some(o)
                } else {
                    r is Ok && (final(self).stored(id@) matches Some(n) && {
                        &&& n.task.status == TaskStatus::InputRequired
                        &&& n.task.status_message == message
                        &&& n.task.input_requests == requests
                        &&& n.owner == o.owner
                        &&& n.cancelled == o.cancelled
                        &&& n.expires_at_ms == o.expires_at_ms
                        &&& n.responses == o.responses
                        &&& n.task.task_id == o.task.task_id
                    })
                },
            },
            forall|k: Seq<char>| k != id@ ==> #[trigger] final(self).stored(k) == old(self).stored(k),
    {
        if requests.is_empty() {
            return Err(McpError::InvalidParams(String::from_str("task inputRequests cannot be empty")));
        }
        match self.records.take(id) {
            None => Err(McpError::InvalidParams(String::from_str("Task not found"))),
            Some(rec) => {
                if rec.task.status.is_terminal() {
                    self.records.insert(String::from_str(id), rec);
                    return Err(McpError::Cancelled(String::from_str("task is already terminal")));
                }
                let now = utc_now_text();
                let task = Task {
                    status: TaskStatus::InputRequired,
                    status_message: message,
                    input_requests: requests,
                    last_updated_at: now,
                    ..rec.task
                };
                self.records.insert(String::from_str(id), TaskRecord { task, ..rec });
                Ok(())
            },
        }
    }

    /// Records answers from `owner` to the task `id`: an answer is kept only
    /// for a key the task still asks for and has no answer to yet, and that
    /// key is no longer asked for. A task that asked for input and has
    /// nothing left to ask goes back to working.
    pub fn update(&mut self, id: &str, owner: &str, responses: Vec<(String, JsonValue)>, now_ms: u64) -> (r: Result<(), McpError>)
        ensures
            match access_problem(old(self).stored(id@), owner@, now_ms) {
                Some(m) => r matches Err(McpError::InvalidParams(t)) && t@ == m,
                None => r is Ok && (old(self).stored(id@) matches Some(o) && final(self).stored(id@) matches Some(n) && {
                    &&& n.owner == o.owner
                    &&& n.cancelled == o.cancelled
                    &&& n.expires_at_ms == o.expires_at_ms
                    &&& n.task.task_id == o.task.task_id
                    &&& answers_recorded(o, responses@, n)
                    &&& n.task.status == (if o.task.status == TaskStatus::InputRequired && n.task.input_requests.count() == 0 {
                        TaskStatus::Working } else { o.task.status })
                }),
            },
            forall|k: Seq<char>| k != id@ ==> #[trigger] final(self).stored(k) == old(self).stored(k),
    {
        match self.check_access(id, owner, now_ms) {
            Err(e) => return Err(e),
            Ok(()) => {},
        }
        let ghost s1 = *self;
        let rec = match self.records.take(id) {
            Some(rec) => rec,
            None => return Ok(()),
        };
        let ghost s2 = *self;
        let ghost o = rec;
        let TaskRecord { owner: rec_owner, task, responses: accepted, cancelled, expires_at_ms } = rec;
        let Task { task_id, status, status_message, created_at, last_updated_at: _, ttl_ms, poll_interval_ms,
            input_requests, result, error } = task;
        let mut requests = input_requests;
        let mut accepted = accepted;
        let mut incoming = responses;
        let n = incoming.len();
        let mut i: usize = 0;
        while i < n
            invariant
                n == incoming@.len(),
                i <= n,
                incoming@ == responses@,
                forall|k: Seq<char>| #[trigger] answer_taken(o, incoming@.take(i as int), k) is None ==> {
                    &&& requests.lookup(k) == o.task.input_requests.lookup(k)
                    &&& accepted.lookup(k) == o.responses.lookup(k)
                },
                forall|k: Seq<char>| #[trigger] answer_taken(o, incoming@.take(i as int), k) matches Some(v) ==> {
                    &&& requests.lookup(k) is None
                    &&& accepted.lookup(k) matches Some(x) && json_same(x, v)
                },
            decreases n - i,
        {
            let key = incoming[i].0.clone();
            let ghost e = incoming@[i as int];
            let ghost before = incoming@.take(i as int);
            let ghost req0 = requests;
            let ghost acc0 = accepted;
            assert(incoming@.take(i + 1) =~= before.push(e));
            assert forall|k: Seq<char>| true implies #[trigger] entries_lookup(incoming@.take(i + 1), k) == match entries_lookup(before, k) {
                Some(v) => Some(v),
                None => if e.0@ == k { Some(e.1) } else { None },
            } by {
                lemma_lookup_push(before, e, k);
            }
            if requests.contains(key.as_str()) && !accepted.contains(key.as_str()) {
                let value = crate::json::json_clone(&incoming[i].1);
                let _ = requests.remove(key.as_str());
                accepted.insert(key, value);
                proof {
                    assert(answer_taken(o, before, e.0@) is None);
                    assert(answer_taken(o, incoming@.take(i + 1), e.0@) == Some(e.1));
                    assert forall|k: Seq<char>| k != e.0@ implies #[trigger] answer_taken(o, incoming@.take(i + 1), k) == answer_taken(o, before, k) by {
                    }
                }
            } else {
                proof {
                    assert forall|k: Seq<char>| true implies #[trigger] answer_taken(o, incoming@.take(i + 1), k) == answer_taken(o, before, k) by {
                        if k == e.0@ && answer_taken(o, before, k) is None {
                            assert(req0.lookup(k) == o.task.input_requests.lookup(k));
                            assert(acc0.lookup(k) == o.responses.lookup(k));
                        }
                    }
                }
            }
            i = i + 1;
        }
        assert(incoming@.take(n as int) =~= responses@);
        let new_status = if status == TaskStatus::InputRequired && requests.is_empty() {
            TaskStatus::Working
        } else {
            status
        };
        let now = utc_now_text();
        let task = Task {
            task_id,
            status: new_status,
            status_message,
            created_at,
            last_updated_at: now,
            ttl_ms,
            poll_interval_ms,
            input_requests: requests,
            result,
            error,
        };
        self.records.insert(String::from_str(id), TaskRecord { owner: rec_owner, task, responses: accepted, cancelled, expires_at_ms });
        proof {
            assert forall|k: Seq<char>| k != id@ implies #[trigger] self.stored(k) == old(self).stored(k) by {
                assert(s2.stored(k) == s1.stored(k));
                assert(s1.stored(k) == old(self).stored(k));
            }
        }
        Ok(())
    }

    /// Checks whether the input the task `id` waits for under `keys` has
    /// arrived: a cancelled task stops waiting; when every key has an answer,
    /// the answers are handed out (and forgotten), the task works again and
    /// asks for nothing.
    #[verifier::loop_isolation(false)]
    pub fn poll_input(&mut self, id: &str, keys: &Vec<String>) -> (r: InputPoll)
        requires
            forall|i: int, j: int| 0 <= i < j < keys@.len() ==> (#[trigger] keys@[i])@ != (#[trigger] keys@[j])@,
        ensures
            match old(self).stored(id@) {
                None => r is Waiting && final(self).stored(id@) is None,
                Some(o) => if o.cancelled {
                    (r matches InputPoll::Cancelled(McpError::Cancelled(t)) && t@ == "task cancellation requested"@)
                        && final(self).stored(id@) == Some(o)
                } else if forall|j: int| 0 <= j < keys@.len() ==> o.responses.lookup((#[trigger] keys@[j])@) is Some {
                    (r matches InputPoll::Ready(vals) && {
                        &&& vals@.len() == keys@.len()
                        &&& forall|j: int| 0 <= j < keys@.len() ==> (#[trigger] vals@[j]).0 == keys@[j]
                            && o.responses.lookup(keys@[j]@) == Some(vals@[j].1)
                    }) && (final(self).stored(id@) matches Some(n) && {
                            &&& n.task.status == TaskStatus::Working
                            &&& n.task.input_requests.count() == 0
                            &&& forall|j: int| 0 <= j < keys@.len() ==> n.responses.lookup((#[trigger] keys@[j])@) is None
                            &&& n.owner == o.owner
                            &&& n.cancelled == o.cancelled
                            &&& n.task.task_id == o.task.task_id
                        })
                } else {
                    r is Waiting && final(self).stored(id@) == Some(o)
                },
            },
            forall|k: Seq<char>| k != id@ ==> #[trigger] final(self).stored(k) == old(self).stored(k),
    {
        let m = keys.len();
        match self.records.get(id) {
            None => return InputPoll::Waiting,
            Some(rec) => {
                if rec.cancelled {
                    return InputPoll::Cancelled(McpError::Cancelled(String::from_str("task cancellation requested")));
                }
                let mut j: usize = 0;
                while j < m
                    invariant
                        m == keys@.len(),
                        j <= m,
                        forall|t: int| 0 <= t < j ==> rec.responses.lookup((#[trigger] keys@[t])@) is Some,
                    decreases m - j,
                {
                    if !rec.responses.contains(keys[j].as_str()) {
                        assert(rec.responses.lookup(keys@[j as int]@) is None);
                        return InputPoll::Waiting;
                    }
                    j = j + 1;
                }
            },
        }
        let ghost s0 = *self;
        let rec = match self.records.take(id) {
            Some(rec) => rec,
            None => return InputPoll::Waiting,
        };
        let ghost o = rec;
        let TaskRecord { owner, task, responses, cancelled, expires_at_ms } = rec;
        let mut responses = responses;
        let mut out: Vec<(String, JsonValue)> = Vec::new();
        let mut j: usize = 0;
        while j < m
            invariant
                m == keys@.len(),
                j <= m,
                out@.len() == j,
                forall|a: int, b: int| 0 <= a < b < keys@.len() ==> (#[trigger] keys@[a])@ != (#[trigger] keys@[b])@,
                forall|t: int| 0 <= t < j ==> (#[trigger] out@[t]).0 == keys@[t] && o.responses.lookup(keys@[t]@) == Some(out@[t].1),
                forall|t: int| 0 <= t < j ==> responses.lookup((#[trigger] keys@[t])@) is None,
                forall|t: int| j <= t < m ==> responses.lookup((#[trigger] keys@[t])@) == o.responses.lookup(keys@[t]@),
                forall|t: int| 0 <= t < m ==> o.responses.lookup((#[trigger] keys@[t])@) is Some,
            decreases m - j,
        {
            let key = keys[j].clone();
            let taken = responses.take(key.as_str());
            match taken {
                Some(v) => {
                    out.push((key, v));
                },
                None => {
                    assert(false);
                    return InputPoll::Waiting;
                },
            }
            proof {
                assert forall|t: int| j + 1 <= t < m implies responses.lookup((#[trigger] keys@[t])@) == o.responses.lookup(keys@[t]@) by {
                    assert(keys@[t]@ != keys@[j as int]@);
                }
                assert forall|t: int| 0 <= t < j implies responses.lookup((#[trigger] keys@[t])@) is None by {
                    assert(keys@[t]@ != keys@[j as int]@);
                }
            }
            j = j + 1;
        }
        let now = utc_now_text();
        let task = Task {
            status: TaskStatus::Working,
            input_requests: Registry::new(),
            last_updated_at: now,
            ..task
        };
        let ghost s1 = *self;
        self.records.insert(String::from_str(id), TaskRecord { owner, task, responses, cancelled, expires_at_ms });
        proof {
            assert forall|k: Seq<char>| k != id@ implies #[trigger] self.stored(k) == old(self).stored(k) by {
                assert(s1.stored(k) == s0.stored(k));
            }
        }
        InputPoll::Ready(out)
    }

    /// Ends the task `id` with the outcome of its work: a task cancelled
    /// before it ended is cancelled; otherwise it completes with the result
    /// or fails with the error (code `INTERNAL_ERROR`, the error's text).
    /// It asks for nothing afterwards.
    pub fn finish(&mut self, id: &str, outcome: Result<JsonValue, McpError>) -> (r: bool)
        ensures
            r == old(self).stored(id@) is Some,
            match old(self).stored(id@) {
                None => final(self).stored(id@) is None,
                Some(o) => final(self).stored(id@) matches Some(n) && {
                    &&& n.owner == o.owner
                    &&& n.cancelled == o.cancelled
                    &&& n.expires_at_ms == o.expires_at_ms
                    &&& n.task.task_id == o.task.task_id
                    &&& n.task.input_requests.count() == 0
                    &&& if o.cancelled && !is_terminal(o.task.status) {
                        n.task.status == TaskStatus::Cancelled
                            && (n.task.status_message matches Some(m) && m@ == "Task cancellation accepted"@)
                    } else {
                        match outcome {
                            Ok(v) => n.task.status == TaskStatus::Completed
                                && (n.task.status_message matches Some(m) && m@ == "Task completed"@)
                                && n.task.result == Some(v),
                            Err(e) => n.task.status == TaskStatus::Failed
                                && (n.task.status_message matches Some(m) && m@ == spec_error_text(e))
                                && (n.task.error matches Some(x) && json_get(x, "code"@) == Some(JsonValue::Int(INTERNAL_ERROR))
                                    && json_get_str(x, "message"@) == Some(spec_error_text(e))),
                        }
                    }
                },
            },
            forall|k: Seq<char>| k != id@ ==> #[trigger] final(self).stored(k) == old(self).stored(k),
    {
        let rec = match self.records.take(id) {
            Some(rec) => rec,
            None => return false,
        };
        let now = utc_now_text();
        let task = if rec.cancelled && !rec.task.status.is_terminal() {
            Task {
                status: TaskStatus::Cancelled,
                status_message: Some(String::from_str("Task cancellation accepted")),
                input_requests: Registry::new(),
                last_updated_at: now,
                ..rec.task
            }
        } else {
            match outcome {
                Ok(v) => Task {
                    status: TaskStatus::Completed,
                    status_message: Some(String::from_str("Task completed")),
                    input_requests: Registry::new(),
                    last_updated_at: now,
                    result: Some(v),
                    ..rec.task
                },
                Err(e) => {
                    proof { reveal_strlit("code"); reveal_strlit("message"); }
                    let text = e.text();
                    let mut err = JsonValue::Object(Vec::new());
                    object_set(&mut err, "code", JsonValue::Int(INTERNAL_ERROR));
                    object_set(&mut err, "message", JsonValue::Str(text.clone()));
                    assert("code"@[0] != "message"@[0]);
                    Task {
                        status: TaskStatus::Failed,
                        status_message: Some(text),
                        input_requests: Registry::new(),
                        last_updated_at: now,
                        error: Some(err),
                        ..rec.task
                    }
                },
            }
        };
        self.records.insert(String::from_str(id), TaskRecord { task, ..rec });
        true
    }
}

impl Default for TaskRegistry {
    /// Tasks live an hour; clients are told to poll every second.
    fn default() -> (r: TaskRegistry)
        ensures
            forall|id: Seq<char>| #[trigger] r.stored(id) is None,
            r.spec_default_ttl() == Some(3600000u64),
            r.spec_poll_interval() == 1000,
    {
        TaskRegistry::new(Some(3600000), 1000)
    }
}

/// Task handles are bound to their creator and to their lifetime: a caller
/// other than the creator is told the task does not exist, and past its
/// deadline the creator is told it has expired.
pub proof fn tasks_are_caller_bound(reg: TaskRegistry, id: Seq<char>, other: Seq<char>, now_ms: u64)
    requires
        reg.stored(id) is Some,
    ensures
        reg.stored(id).unwrap().owner@ != other ==> access_problem(reg.stored(id), other, now_ms) == Some("Task not found"@),
        (reg.stored(id).unwrap().expires_at_ms matches Some(d) && now_ms >= d)
            ==> access_problem(reg.stored(id), reg.stored(id).unwrap().owner@, now_ms) == Some("Task has expired"@),
        (reg.stored(id).unwrap().owner@ == other && !(reg.stored(id).unwrap().expires_at_ms matches Some(d) && now_ms >= d))
            ==> access_problem(reg.stored(id), other, now_ms) is None,
{
}

} // verus!
