//! Asynchronous operations of the controller: the handle that a write
//! returns, the tasks that its status endpoint reports, and the poller that
//! follows them to their end.

use vstd::prelude::*;
use crate::envelope::FromJson;
use crate::envelope::ResponseType;
use crate::json::Json;
use crate::json::JsonValue;

verus! {

/// The handle of a started task: its identifier and where to ask for it.
#[derive(Debug, PartialEq)]
pub struct TaskInfo {
    pub task_id: String,
    pub url: String,
}

/// Model of [`TaskInfo`].
pub struct TaskInfoValue {
    pub task_id: Seq<char>,
    pub url: Seq<char>,
}

impl DeepView for TaskInfo {
    type V = TaskInfoValue;

    open spec fn deep_view(&self) -> TaskInfoValue {
        TaskInfoValue { task_id: self.task_id@, url: self.url@ }
    }
}

impl FromJson for TaskInfo {
    open spec fn decoded(j: JsonValue) -> Option<TaskInfoValue> {
        match (j.required_text("taskId"@), j.required_text("url"@)) {
            (Some(task_id), Some(url)) => Some(TaskInfoValue { task_id, url }),
            _ => None,
        }
    }

    fn from_json(j: &Json) -> (r: Option<TaskInfo>) {
        let task_id = j.required_text("taskId");
        let url = j.required_text("url");
        match (task_id, url) {
            (Some(task_id), Some(url)) => Some(TaskInfo { task_id, url }),
            _ => None,
        }
    }
}

/// One task of an asynchronous operation, as the status endpoint reports
/// it. A task has ended once `end_time` is set.
#[derive(Debug, PartialEq)]
pub struct Task {
    pub id: String,
    pub additional_status_url: Option<String>,
    pub data: Option<String>,
    pub end_time: Option<u64>,
    pub error_code: Option<String>,
    pub error_key: Option<String>,
    pub failure_reason: Option<String>,
    pub instance_tenant_id: String,
    pub is_error: bool,
    pub last_update: Option<u64>,
    pub operation_id_list: Option<Json>,
    pub parent_id: Option<String>,
    pub progress: String,
    pub root_id: Option<String>,
    pub service_type: String,
    pub start_time: u64,
    pub username: Option<String>,
    pub version: u64,
}

/// Model of [`Task`].
pub struct TaskValue {
    pub id: Seq<char>,
    pub additional_status_url: Option<Seq<char>>,
    pub data: Option<Seq<char>>,
    pub end_time: Option<u64>,
    pub error_code: Option<Seq<char>>,
    pub error_key: Option<Seq<char>>,
    pub failure_reason: Option<Seq<char>>,
    pub instance_tenant_id: Seq<char>,
    pub is_error: bool,
    pub last_update: Option<u64>,
    pub operation_id_list: Option<JsonValue>,
    pub parent_id: Option<Seq<char>>,
    pub progress: Seq<char>,
    pub root_id: Option<Seq<char>>,
    pub service_type: Seq<char>,
    pub start_time: u64,
    pub username: Option<Seq<char>>,
    pub version: u64,
}

impl DeepView for Task {
    type V = TaskValue;

    open spec fn deep_view(&self) -> TaskValue {
        TaskValue {
            id: self.id@,
            additional_status_url: self.additional_status_url.deep_view(),
            data: self.data.deep_view(),
            end_time: self.end_time,
            error_code: self.error_code.deep_view(),
            error_key: self.error_key.deep_view(),
            failure_reason: self.failure_reason.deep_view(),
            instance_tenant_id: self.instance_tenant_id@,
            is_error: self.is_error,
            last_update: self.last_update,
            operation_id_list: self.operation_id_list.deep_view(),
            parent_id: self.parent_id.deep_view(),
            progress: self.progress@,
            root_id: self.root_id.deep_view(),
            service_type: self.service_type@,
            start_time: self.start_time,
            username: self.username.deep_view(),
            version: self.version,
        }
    }
}

impl Task {
    /// Whether `j` has every mandatory member of a task, and every
    /// optional one either absent or of the right kind.
    pub open spec fn shaped(j: JsonValue) -> bool {
        &&& j.required_text("id"@) is Some
        &&& j.optional_text("additionalStatusURL"@) is Some
        &&& j.optional_text("data"@) is Some
        &&& j.optional_unsigned("endTime"@) is Some
        &&& j.optional_text("errorCode"@) is Some
        &&& j.optional_text("errorKey"@) is Some
        &&& j.optional_text("failureReason"@) is Some
        &&& j.required_text("instanceTenantId"@) is Some
        &&& j.required_bool("isError"@) is Some
        &&& j.optional_unsigned("lastUpdate"@) is Some
        &&& j.optional_text("parentId"@) is Some
        &&& j.required_text("progress"@) is Some
        &&& j.optional_text("rootId"@) is Some
        &&& j.required_text("serviceType"@) is Some
        &&& j.required_unsigned("startTime"@) is Some
        &&& j.optional_text("username"@) is Some
        &&& j.required_unsigned("version"@) is Some
    }

    /// The task that a well-shaped `j` holds.
    pub open spec fn assembled(j: JsonValue) -> TaskValue {
        TaskValue {
            id: j.required_text("id"@)->0,
            additional_status_url: j.optional_text("additionalStatusURL"@)->0,
            data: j.optional_text("data"@)->0,
            end_time: j.optional_unsigned("endTime"@)->0,
            error_code: j.optional_text("errorCode"@)->0,
            error_key: j.optional_text("errorKey"@)->0,
            failure_reason: j.optional_text("failureReason"@)->0,
            instance_tenant_id: j.required_text("instanceTenantId"@)->0,
            is_error: j.required_bool("isError"@)->0,
            last_update: j.optional_unsigned("lastUpdate"@)->0,
            operation_id_list: j.optional_value("operationIdList"@),
            parent_id: j.optional_text("parentId"@)->0,
            progress: j.required_text("progress"@)->0,
            root_id: j.optional_text("rootId"@)->0,
            service_type: j.required_text("serviceType"@)->0,
            start_time: j.required_unsigned("startTime"@)->0,
            username: j.optional_text("username"@)->0,
            version: j.required_unsigned("version"@)->0,
        }
    }
}

impl FromJson for Task {
    open spec fn decoded(j: JsonValue) -> Option<TaskValue> {
        if Task::shaped(j) {
            Some(Task::assembled(j))
        } else {
            None
        }
    }

    fn from_json(j: &Json) -> (r: Option<Task>) {
        let id = j.required_text("id")?;
        let additional_status_url = j.optional_text("additionalStatusURL")?;
        let data = j.optional_text("data")?;
        let end_time = j.optional_unsigned("endTime")?;
        let error_code = j.optional_text("errorCode")?;
        let error_key = j.optional_text("errorKey")?;
        let failure_reason = j.optional_text("failureReason")?;
        let instance_tenant_id = j.required_text("instanceTenantId")?;
        let is_error = j.required_bool("isError")?;
        let last_update = j.optional_unsigned("lastUpdate")?;
        let operation_id_list = j.optional_value("operationIdList");
        let parent_id = j.optional_text("parentId")?;
        let progress = j.required_text("progress")?;
        let root_id = j.optional_text("rootId")?;
        let service_type = j.required_text("serviceType")?;
        let start_time = j.required_unsigned("startTime")?;
        let username = j.optional_text("username")?;
        let version = j.required_unsigned("version")?;
        Some(
            Task {
                id,
                additional_status_url,
                data,
                end_time,
                error_code,
                error_key,
                failure_reason,
                instance_tenant_id,
                is_error,
                last_update,
                operation_id_list,
                parent_id,
                progress,
                root_id,
                service_type,
                start_time,
                username,
                version,
            },
        )
    }
}

/// Time units to wait between two polls of a running task.
pub const POLL_DELAY: u64 = 5;

/// What a task tree says of the operation it belongs to.
#[derive(Clone, Copy, Debug, PartialEq, Eq)]
pub enum Verdict {
    /// Some task has not ended.
    Running,
    /// Every task has ended and none reports an error.
    Succeeded,
    /// Every task has ended and one of them reports an error.
    Failed,
}

/// Every task of the tree has an end time.
pub open spec fn all_ended(tasks: Seq<TaskValue>) -> bool {
    forall|i: int| 0 <= i < tasks.len() ==> (#[trigger] tasks[i]).end_time is Some
}

/// Some task of the tree reports an error.
pub open spec fn any_error(tasks: Seq<TaskValue>) -> bool {
    exists|i: int| 0 <= i < tasks.len() && (#[trigger] tasks[i]).is_error
}

/// The verdict of a task tree: terminal once every task has ended, failed
/// if it is terminal and a task reports an error.
pub open spec fn verdict_of(tasks: Seq<TaskValue>) -> Verdict {
    if !all_ended(tasks) {
        Verdict::Running
    } else if any_error(tasks) {
        Verdict::Failed
    } else {
        Verdict::Succeeded
    }
}

/// The three cases of terminal detection, spelled out: with every end time
/// set and no error the tree has succeeded; with every end time set and an
/// error it has failed; with an end time missing it is still running,
/// whatever else it holds.
pub proof fn lemma_verdict(tasks: Seq<TaskValue>)
    ensures
        (forall|i: int| 0 <= i < tasks.len() ==> tasks[i].end_time is Some && !tasks[i].is_error)
            ==> verdict_of(tasks) == Verdict::Succeeded,
        (forall|i: int| 0 <= i < tasks.len() ==> tasks[i].end_time is Some) && (exists|i: int|
            0 <= i < tasks.len() && tasks[i].is_error) ==> verdict_of(tasks) == Verdict::Failed,
        (exists|i: int| 0 <= i < tasks.len() && tasks[i].end_time is None) ==> verdict_of(tasks)
            == Verdict::Running,
{
    if exists|i: int| 0 <= i < tasks.len() && tasks[i].end_time is None {
        let i = choose|i: int| 0 <= i < tasks.len() && tasks[i].end_time is None;
        assert(tasks[i].end_time is None);
    }
    if (forall|i: int| 0 <= i < tasks.len() ==> tasks[i].end_time is Some) && (exists|i: int|
        0 <= i < tasks.len() && tasks[i].is_error) {
        let i = choose|i: int| 0 <= i < tasks.len() && tasks[i].is_error;
        assert(tasks[i].is_error);
    }
}

fn scan(tasks: &Vec<Task>) -> (v: Verdict)
    ensures
        v == verdict_of(tasks.deep_view()),
{
    let mut failed = false;
    let mut i: usize = 0;
    while i < tasks.len()
        invariant
            i <= tasks.len(),
            forall|k: int| 0 <= k < i ==> (#[trigger] tasks.deep_view()[k]).end_time is Some,
            failed == (exists|k: int| 0 <= k < i && (#[trigger] tasks.deep_view()[k]).is_error),
        decreases tasks.len() - i,
    {
        assert(tasks.deep_view()[i as int] == tasks@[i as int].deep_view());
        if tasks[i].end_time.is_none() {
            return Verdict::Running;
        }
        if tasks[i].is_error {
            failed = true;
        }
        i += 1;
    }
    if failed {
        Verdict::Failed
    } else {
        Verdict::Succeeded
    }
}

/// Judges a task tree, reported as one task or as many.
pub fn verdict(tree: &ResponseType<Task>) -> (v: Verdict)
    ensures
        v == verdict_of(tree.deep_view().items()),
{
    match tree {
        ResponseType::Array(tasks) => scan(tasks),
        ResponseType::Item(task) => {
            let ghost items = tree.deep_view().items();
            assert(items[0] == task.deep_view());
            if task.end_time.is_none() {
                Verdict::Running
            } else if task.is_error {
                Verdict::Failed
            } else {
                Verdict::Succeeded
            }
        },
    }
}

/// Where a poller stands.
#[derive(Clone, Copy, Debug, PartialEq, Eq)]
pub enum TaskState {
    /// Nothing has been observed yet.
    Pending,
    /// The last tree observed was still running.
    Running,
    Succeeded,
    Failed,
}

impl TaskState {
    /// No transition leaves a terminal state.
    pub open spec fn terminal(self) -> bool {
        self is Succeeded || self is Failed
    }
}

/// A failed operation, with the whole tree as it was last reported.
#[derive(Debug, PartialEq)]
pub struct TaskFailure {
    pub tree: ResponseType<Task>,
}

/// What to do after an observation.
#[derive(Debug, PartialEq)]
pub enum PollStep {
    /// The task is still running: wait `delay` time units, ask once more
    /// and observe the answer.
    Again { delay: u64 },
    /// The task has ended well.
    Succeeded,
    /// The task has ended with an error.
    Failed(TaskFailure),
    /// The poller had finished before; the observation changed nothing.
    Ignored,
}

/// Follows one asynchronous operation. The caller asks the status endpoint
/// at [`TaskPoller::url`] and hands each answer to [`TaskPoller::observe`],
/// until a step other than [`PollStep::Again`] comes back. A failed call is
/// the caller's to report: the poller neither hides nor repeats it.
#[derive(Debug)]
pub struct TaskPoller {
    state: TaskState,
    url: String,
}

/// Model of a [`TaskPoller`].
pub struct TaskPollerValue {
    pub state: TaskState,
    pub url: Seq<char>,
}

impl DeepView for TaskPoller {
    type V = TaskPollerValue;

    closed spec fn deep_view(&self) -> TaskPollerValue {
        TaskPollerValue { state: self.state, url: self.url@ }
    }
}

impl TaskPollerValue {
    /// The state after observing a tree with the given verdict.
    pub open spec fn after(self, seen: Verdict) -> TaskPollerValue {
        if self.state.terminal() {
            self
        } else {
            TaskPollerValue {
                state: match seen {
                    Verdict::Running => TaskState::Running,
                    Verdict::Succeeded => TaskState::Succeeded,
                    Verdict::Failed => TaskState::Failed,
                },
                url: self.url,
            }
        }
    }
}

impl TaskPoller {
    /// A poller for the task behind `handle`, in state `Pending`. It asks at
    /// the handle's address followed by `/tree/`, where the controller
    /// reports the task with all its sub-tasks.
    pub fn new(handle: TaskInfo) -> (p: TaskPoller)
        ensures
            p.deep_view() == (TaskPollerValue {
                state: TaskState::Pending,
                url: handle.url@ + "/tree/"@,
            }),
    {
        let mut url = handle.url;
        vstd::string::StringExecFns::append(&mut url, "/tree/");
        TaskPoller { state: TaskState::Pending, url }
    }

    /// Where the poller stands.
    pub fn state(&self) -> (s: TaskState)
        ensures
            s == self.deep_view().state,
    {
        self.state
    }

    /// Where to ask for the task.
    pub fn url(&self) -> (u: &String)
        ensures
            u@ == self.deep_view().url,
    {
        &self.url
    }

    /// Whether the poller has reached a terminal state.
    pub fn finished(&self) -> (r: bool)
        ensures
            r == self.deep_view().state.terminal(),
    {
        match self.state {
            TaskState::Succeeded => true,
            TaskState::Failed => true,
            _ => false,
        }
    }

    /// Takes one answer of the status endpoint. While a task of the tree
    /// has not ended the poller is `Running` and asks for exactly one more
    /// poll, after [`POLL_DELAY`]. Once all have ended it is `Succeeded`, or
    /// `Failed` if one of them reports an error, and hands the tree out with
    /// the failure. A poller that had finished stays as it is.
    pub fn observe(&mut self, tree: ResponseType<Task>) -> (step: PollStep)
        ensures
            final(self).deep_view() == old(self).deep_view().after(
                verdict_of(tree.deep_view().items()),
            ),
            old(self).deep_view().state.terminal() ==> step == PollStep::Ignored,
            !old(self).deep_view().state.terminal() ==> step == match verdict_of(
                tree.deep_view().items(),
            ) {
                Verdict::Running => PollStep::Again { delay: POLL_DELAY },
                Verdict::Succeeded => PollStep::Succeeded,
                Verdict::Failed => PollStep::Failed(TaskFailure { tree }),
            },
    {
        if self.finished() {
            return PollStep::Ignored;
        }
        match verdict(&tree) {
            Verdict::Running => {
                self.state = TaskState::Running;
                PollStep::Again { delay: POLL_DELAY }
            },
            Verdict::Succeeded => {
                self.state = TaskState::Succeeded;
                PollStep::Succeeded
            },
            Verdict::Failed => {
                self.state = TaskState::Failed;
                PollStep::Failed(TaskFailure { tree })
            },
        }
    }
}

} // verus!
