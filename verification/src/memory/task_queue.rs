//! The shared task queue: tasks are posted, claimed by an agent, and completed.

use crate::error::{unit_view, ErrorView, OpenFangError, OpenFangResult};
use crate::ids::{fresh_uuid_text, hyphenated, is_random_uuid};
use crate::json::{
    entries_map, entry_models, json_model, json_models, json_of_object, json_of_text,
    maybe_text_tree, put, write_maybe_text, JsonTree,
};
use crate::memory::table::{
    by_key, distinct_by, find_first, first, first_finds, found_has_key, labels, picked,
    row_is_found, row_with, select, selection, stored, stored_is_found, views, Choice, Label,
};
use crate::memory::time::{instant_written, Timestamp};
use crate::text::{
    copy_optional, optional_text, same_text, text_before, text_less, text_order_is_total,
    text_order_is_transitive,
};
use vstd::prelude::*;

verus! {

/// A task in the queue.
#[derive(Debug)]
pub struct QueuedTask {
    pub id: String,
    pub title: String,
    pub description: String,
    /// "pending", "in_progress" or "completed".
    pub status: String,
    /// Tasks with a higher priority are claimed first.
    pub priority: i64,
    /// The agent that may claim the task; empty for any.
    pub assigned_to: String,
    pub created_by: String,
    /// When the task was posted, as RFC 3339 text.
    pub created_at: String,
    /// When the task was completed, as RFC 3339 text.
    pub completed_at: Option<String>,
    pub result: Option<String>,
}

/// What a task holds.
pub struct QueuedTaskView {
    pub id: Seq<char>,
    pub title: Seq<char>,
    pub description: Seq<char>,
    pub status: Seq<char>,
    pub priority: i64,
    pub assigned_to: Seq<char>,
    pub created_by: Seq<char>,
    pub created_at: Seq<char>,
    pub completed_at: Option<Seq<char>>,
    pub result: Option<Seq<char>>,
}

impl View for QueuedTask {
    type V = QueuedTaskView;

    open spec fn view(&self) -> QueuedTaskView {
        QueuedTaskView {
            id: self.id@,
            title: self.title@,
            description: self.description@,
            status: self.status@,
            priority: self.priority,
            assigned_to: self.assigned_to@,
            created_by: self.created_by@,
            created_at: self.created_at@,
            completed_at: optional_text(self.completed_at),
            result: optional_text(self.result),
        }
    }
}

impl Clone for QueuedTask {
    fn clone(&self) -> (r: Self)
        ensures
            r@ == self@,
    {
        QueuedTask {
            id: self.id.clone(),
            title: self.title.clone(),
            description: self.description.clone(),
            status: self.status.clone(),
            priority: self.priority,
            assigned_to: self.assigned_to.clone(),
            created_by: self.created_by.clone(),
            created_at: self.created_at.clone(),
            completed_at: copy_optional(&self.completed_at),
            result: copy_optional(&self.result),
        }
    }
}

/// What a task is found by.
pub open spec fn task_key() -> spec_fn(QueuedTaskView) -> Seq<char> {
    |task: QueuedTaskView| task.id
}

/// A task as it is posted.
pub open spec fn posted(
    id: Seq<char>,
    title: Seq<char>,
    description: Seq<char>,
    assigned_to: Seq<char>,
    created_by: Seq<char>,
    created_at: Seq<char>,
) -> QueuedTaskView {
    QueuedTaskView {
        id,
        title,
        description,
        status: "pending"@,
        priority: 0,
        assigned_to,
        created_by,
        created_at,
        completed_at: None,
        result: Some(""@),
    }
}

/// Whether an agent may claim a task: it is pending, and for this agent or for any.
pub open spec fn claimable(task: QueuedTaskView, agent: Seq<char>) -> bool {
    task.status == "pending"@ && (task.assigned_to == agent || task.assigned_to.len() == 0)
}

/// Whether a task is claimed before another: by its priority, then by its age.
pub open spec fn sooner(a: QueuedTaskView, b: QueuedTaskView) -> bool {
    a.priority > b.priority || (a.priority == b.priority && text_less(a.created_at, b.created_at))
}

/// The position of the task that an agent claims next: of those that it may claim the soonest,
/// and of equally soon ones the one that was posted first.
pub open spec fn next_task(tasks: Seq<QueuedTaskView>, agent: Seq<char>) -> Option<int>
    decreases tasks.len(),
{
    if tasks.len() == 0 {
        None
    } else {
        let before = next_task(tasks.drop_last(), agent);
        if claimable(tasks.last(), agent) && match before {
            Some(at) => sooner(tasks.last(), tasks[at]),
            None => true,
        } {
            Some(tasks.len() - 1)
        } else {
            before
        }
    }
}

/// A task that an agent has claimed.
pub open spec fn claimed(task: QueuedTaskView, agent: Seq<char>) -> QueuedTaskView {
    QueuedTaskView { status: "in_progress"@, assigned_to: agent, ..task }
}

/// The tasks after an agent claimed the next one, if there is one.
pub open spec fn after_claim(tasks: Seq<QueuedTaskView>, agent: Seq<char>) -> Seq<QueuedTaskView> {
    match next_task(tasks, agent) {
        Some(at) => tasks.update(at, claimed(tasks[at], agent)),
        None => tasks,
    }
}

/// What an agent is told of a task that it claimed.
pub open spec fn claim_tree(task: QueuedTaskView) -> JsonTree {
    JsonTree::Object(
        entries_map(
            seq![
                ("id"@, JsonTree::Text(task.id)),
                ("title"@, JsonTree::Text(task.title)),
                ("description"@, JsonTree::Text(task.description)),
                ("status"@, JsonTree::Text(task.status)),
                ("assigned_to"@, JsonTree::Text(task.assigned_to)),
                ("created_by"@, JsonTree::Text(task.created_by)),
                ("created_at"@, JsonTree::Text(task.created_at)),
            ],
        ),
    )
}

/// A completed task.
pub open spec fn completed(
    task: QueuedTaskView,
    result: Seq<char>,
    at: Seq<char>,
) -> QueuedTaskView {
    QueuedTaskView {
        status: "completed"@,
        result: Some(result),
        completed_at: Some(at),
        ..task
    }
}

/// The tasks after one was completed.
pub open spec fn after_complete(
    tasks: Seq<QueuedTaskView>,
    id: Seq<char>,
    result: Seq<char>,
    at: Seq<char>,
) -> Seq<QueuedTaskView> {
    match row_with(tasks, task_key(), id) {
        Some(task) => stored(tasks, task_key(), completed(task, result, at)),
        None => tasks,
    }
}

/// Picks the tasks with a status, or all.
pub open spec fn with_status(status: Option<Seq<char>>) -> spec_fn(QueuedTaskView) -> bool {
    |task: QueuedTaskView|
        match status {
            Some(s) => task.status == s,
            None => true,
        }
}

/// What is listed of a task.
pub open spec fn list_tree(task: QueuedTaskView) -> JsonTree {
    JsonTree::Object(
        entries_map(
            seq![
                ("id"@, JsonTree::Text(task.id)),
                ("title"@, JsonTree::Text(task.title)),
                ("description"@, JsonTree::Text(task.description)),
                ("status"@, JsonTree::Text(task.status)),
                ("assigned_to"@, JsonTree::Text(task.assigned_to)),
                ("created_by"@, JsonTree::Text(task.created_by)),
                ("created_at"@, JsonTree::Text(task.created_at)),
                ("completed_at"@, maybe_text_tree(task.completed_at)),
                ("result"@, maybe_text_tree(task.result)),
            ],
        ),
    )
}

/// When a task was posted.
pub open spec fn posting_date() -> spec_fn(QueuedTaskView) -> Seq<char> {
    |task: QueuedTaskView| task.created_at
}

/// The tasks that are listed, the newest first.
pub open spec fn listed(tasks: Seq<QueuedTaskView>, status: Option<Seq<char>>) -> Seq<
    QueuedTaskView,
> {
    selection(tasks, with_status(status), posting_date(), true)
}

/// Sorts tasks by when they were posted.
struct ByPostingDate;

impl Label<QueuedTask> for ByPostingDate {
    closed spec fn label(&self, row: QueuedTaskView) -> Seq<char> {
        row.created_at
    }

    fn read(&self, row: &QueuedTask) -> String {
        row.created_at.clone()
    }
}

/// The text of an optional string, empty if there is none.
pub open spec fn text_or_empty(text: Option<&str>) -> Seq<char> {
    match text {
        Some(s) => s@,
        None => ""@,
    }
}

/// The characters of an optional borrowed string.
pub open spec fn status_filter(status: Option<&str>) -> Option<Seq<char>> {
    match status {
        Some(s) => Some(s@),
        None => None,
    }
}

/// Picks one task.
struct OneTask<'a> {
    id: &'a str,
}

impl<'a> Choice<QueuedTask> for OneTask<'a> {
    closed spec fn picks(&self, row: QueuedTaskView) -> bool {
        row.id == self.id@
    }

    fn pick(&self, row: &QueuedTask) -> bool {
        same_text(row.id.as_str(), self.id)
    }
}

/// Picks the tasks with a status, or all.
struct StatusTasks<'a> {
    status: Option<&'a str>,
}

impl<'a> Choice<QueuedTask> for StatusTasks<'a> {
    closed spec fn picks(&self, row: QueuedTaskView) -> bool {
        match self.status {
            Some(s) => row.status == s@,
            None => true,
        }
    }

    fn pick(&self, row: &QueuedTask) -> bool {
        match self.status {
            Some(s) => same_text(row.status.as_str(), s),
            None => true,
        }
    }
}

/// Whether an agent may claim a task.
fn may_claim(task: &QueuedTask, agent: &str) -> (r: bool)
    ensures
        r == claimable(task@, agent@),
{
    same_text(task.status.as_str(), "pending") && (same_text(task.assigned_to.as_str(), agent)
        || task.assigned_to.as_str().is_empty())
}

/// Whether a task is claimed before another.
fn is_sooner(a: &QueuedTask, b: &QueuedTask) -> (r: bool)
    ensures
        r == sooner(a@, b@),
{
    a.priority > b.priority || (a.priority == b.priority && text_before(
        a.created_at.as_str(),
        b.created_at.as_str(),
    ))
}

/// What an agent is told of a task that it claimed.
fn claim_json(task: &QueuedTask) -> (r: serde_json::Value)
    ensures
        json_model(r) == claim_tree(task@),
{
    let mut entries: Vec<(String, serde_json::Value)> = Vec::new();
    put(&mut entries, "id", json_of_text(task.id.clone()));
    put(&mut entries, "title", json_of_text(task.title.clone()));
    put(&mut entries, "description", json_of_text(task.description.clone()));
    put(&mut entries, "status", json_of_text(task.status.clone()));
    put(&mut entries, "assigned_to", json_of_text(task.assigned_to.clone()));
    put(&mut entries, "created_by", json_of_text(task.created_by.clone()));
    put(&mut entries, "created_at", json_of_text(task.created_at.clone()));
    assert(entry_models(entries@) =~= seq![
        ("id"@, JsonTree::Text(task@.id)),
        ("title"@, JsonTree::Text(task@.title)),
        ("description"@, JsonTree::Text(task@.description)),
        ("status"@, JsonTree::Text(task@.status)),
        ("assigned_to"@, JsonTree::Text(task@.assigned_to)),
        ("created_by"@, JsonTree::Text(task@.created_by)),
        ("created_at"@, JsonTree::Text(task@.created_at)),
    ]);
    json_of_object(entries)
}

/// What is listed of a task.
fn list_json(task: &QueuedTask) -> (r: serde_json::Value)
    ensures
        json_model(r) == list_tree(task@),
{
    let mut entries: Vec<(String, serde_json::Value)> = Vec::new();
    put(&mut entries, "id", json_of_text(task.id.clone()));
    put(&mut entries, "title", json_of_text(task.title.clone()));
    put(&mut entries, "description", json_of_text(task.description.clone()));
    put(&mut entries, "status", json_of_text(task.status.clone()));
    put(&mut entries, "assigned_to", json_of_text(task.assigned_to.clone()));
    put(&mut entries, "created_by", json_of_text(task.created_by.clone()));
    put(&mut entries, "created_at", json_of_text(task.created_at.clone()));
    put(&mut entries, "completed_at", write_maybe_text(&task.completed_at));
    put(&mut entries, "result", write_maybe_text(&task.result));
    assert(entry_models(entries@) =~= seq![
        ("id"@, JsonTree::Text(task@.id)),
        ("title"@, JsonTree::Text(task@.title)),
        ("description"@, JsonTree::Text(task@.description)),
        ("status"@, JsonTree::Text(task@.status)),
        ("assigned_to"@, JsonTree::Text(task@.assigned_to)),
        ("created_by"@, JsonTree::Text(task@.created_by)),
        ("created_at"@, JsonTree::Text(task@.created_at)),
        ("completed_at"@, maybe_text_tree(task@.completed_at)),
        ("result"@, maybe_text_tree(task@.result)),
    ]);
    json_of_object(entries)
}

/// The queue.
#[derive(Debug)]
pub struct TaskQueue {
    tasks: Vec<QueuedTask>,
}

impl TaskQueue {
    /// The tasks, in the order in which they were posted.
    pub closed spec fn tasks(&self) -> Seq<QueuedTaskView> {
        views(self.tasks@)
    }

    /// No two tasks have one id.
    #[verifier::type_invariant]
    spec fn well_formed(&self) -> bool {
        distinct_by(views(self.tasks@), task_key())
    }

    /// An empty queue.
    pub fn new() -> (r: Self)
        ensures
            r.tasks() == Seq::<QueuedTaskView>::empty(),
    {
        let r = TaskQueue { tasks: Vec::new() };
        assert(r.tasks() =~= Seq::<QueuedTaskView>::empty());
        r
    }

    /// A copy of every task.
    pub fn all_tasks(&self) -> (r: Vec<QueuedTask>)
        ensures
            views(r@) == self.tasks(),
            distinct_by(self.tasks(), task_key()),
    {
        proof {
            use_type_invariant(self);
        }
        let r: Vec<QueuedTask> = self.tasks.clone();
        assert(views(r@) =~= views(self.tasks@));
        r
    }

    /// The position of a task, or the number of tasks if there is none.
    fn find(&self, id: &str) -> (r: usize)
        ensures
            r == first(self.tasks(), by_key(task_key(), id@)),
            r <= self.tasks@.len(),
    {
        let choice = OneTask { id };
        assert(picked::<QueuedTask, OneTask>(choice) =~= by_key(task_key(), id@));
        find_first(&self.tasks, &choice)
    }

    /// Put a task in the place of the one with its id, or at the end.
    pub fn restore(&mut self, task: QueuedTask)
        ensures
            final(self).tasks() == stored(old(self).tasks(), task_key(), task@),
    {
        proof {
            use_type_invariant(&*self);
            stored_is_found(self.tasks(), task_key(), task@, task@.id);
        }
        let at: usize = self.find(task.id.as_str());
        let mut tasks: Vec<QueuedTask> = Vec::new();
        std::mem::swap(&mut tasks, &mut self.tasks);
        let ghost before = views(tasks@);
        if at < tasks.len() {
            tasks.set(at, task);
            assert(views(tasks@) =~= before.update(at as int, task@));
        } else {
            tasks.push(task);
            assert(views(tasks@) =~= before.push(task@));
        }
        self.tasks = tasks;
    }

    /// Post a task under `id` at `created_at`. An id that is taken is an error, and changes
    /// nothing.
    pub fn post(
        &mut self,
        id: &str,
        created_at: &str,
        title: &str,
        description: &str,
        assigned_to: Option<&str>,
        created_by: Option<&str>,
    ) -> (r: OpenFangResult<()>)
        ensures
            unit_view(r) == match row_with(old(self).tasks(), task_key(), id@) {
                Some(_) => Err(ErrorView::Memory("UNIQUE constraint failed: task_queue.id"@)),
                None => Ok(()),
            },
            final(self).tasks() == match row_with(old(self).tasks(), task_key(), id@) {
                Some(_) => old(self).tasks(),
                None => old(self).tasks().push(
                    posted(
                        id@,
                        title@,
                        description@,
                        text_or_empty(assigned_to),
                        text_or_empty(created_by),
                        created_at@,
                    ),
                ),
            },
    {
        let at: usize = self.find(id);
        if at < self.tasks.len() {
            return Err(
                OpenFangError::Memory("UNIQUE constraint failed: task_queue.id".to_string()),
            );
        }
        let task = QueuedTask {
            id: id.to_string(),
            title: title.to_string(),
            description: description.to_string(),
            status: "pending".to_string(),
            priority: 0,
            assigned_to: match assigned_to {
                Some(s) => s.to_string(),
                None => "".to_string(),
            },
            created_by: match created_by {
                Some(s) => s.to_string(),
                None => "".to_string(),
            },
            created_at: created_at.to_string(),
            completed_at: None,
            result: Some("".to_string()),
        };
        self.restore(task);
        Ok(())
    }

    /// Post a new task. Returns the task ID: a fresh one, under which the task is now pending.
    /// It fails only if the fresh id is taken.
    pub fn task_post(
        &mut self,
        title: &str,
        description: &str,
        assigned_to: Option<&str>,
        created_by: Option<&str>,
    ) -> (r: OpenFangResult<String>)
        ensures
            match r {
                Ok(id) => {
                    &&& row_with(old(self).tasks(), task_key(), id@) is None
                    &&& exists|bits: u128| is_random_uuid(bits) && id@ == #[trigger] hyphenated(bits)
                    &&& exists|now: Timestamp|
                        now.on_clock() && final(self).tasks() == old(self).tasks().push(
                            posted(
                                id@,
                                title@,
                                description@,
                                text_or_empty(assigned_to),
                                text_or_empty(created_by),
                                #[trigger] instant_written(now),
                            ),
                        )
                },
                Err(e) => {
                    &&& e@ == ErrorView::Memory("UNIQUE constraint failed: task_queue.id"@)
                    &&& exists|bits: u128|
                        is_random_uuid(bits) && row_with(
                            old(self).tasks(),
                            task_key(),
                            #[trigger] hyphenated(bits),
                        ) is Some
                    &&& final(self).tasks() == old(self).tasks()
                },
            },
    {
        let id: String = fresh_uuid_text();
        let now: String = Timestamp::now().to_rfc3339();
        match self.post(id.as_str(), now.as_str(), title, description, assigned_to, created_by) {
            Ok(()) => Ok(id),
            Err(e) => Err(e),
        }
    }

    /// The position of the task that an agent claims next.
    fn find_next(&self, agent_id: &str) -> (r: Option<usize>)
        ensures
            next_task(self.tasks(), agent_id@) == match r {
                Some(at) => Some(at as int),
                None => None,
            },
            r matches Some(at) ==> at < self.tasks@.len(),
    {
        let ghost all = self.tasks();
        let mut best: Option<usize> = None;
        let mut i: usize = 0;
        assert(all.take(0) =~= Seq::empty());
        while i < self.tasks.len()
            invariant
                i <= self.tasks.len(),
                all == views(self.tasks@),
                next_task(all.take(i as int), agent_id@) == match best {
                    Some(at) => Some(at as int),
                    None => None,
                },
                best matches Some(at) ==> at < i,
            decreases self.tasks.len() - i,
        {
            let ghost seen = all.take(i + 1);
            assert(seen.drop_last() =~= all.take(i as int));
            assert(seen.last() == self.tasks@[i as int]@);
            let take: bool = may_claim(&self.tasks[i], agent_id) && match best {
                Some(at) => is_sooner(&self.tasks[i], &self.tasks[at]),
                None => true,
            };
            assert(best matches Some(at) ==> seen[at as int] == self.tasks@[at as int]@);
            if take {
                best = Some(i);
            }
            i = i + 1;
        }
        assert(all.take(i as int) =~= all);
        best
    }

    /// Claim the next pending task that is assigned to the agent or to nobody. Returns the task
    /// as JSON, or None.
    pub fn task_claim(&mut self, agent_id: &str) -> (r: OpenFangResult<Option<serde_json::Value>>)
        ensures
            final(self).tasks() == after_claim(old(self).tasks(), agent_id@),
            r matches Ok(told) && match next_task(old(self).tasks(), agent_id@) {
                Some(at) => told matches Some(value) && json_model(value) == claim_tree(
                    claimed(old(self).tasks()[at], agent_id@),
                ),
                None => told is None,
            },
    {
        match self.find_next(agent_id) {
            Some(at) => {
                proof {
                    use_type_invariant(&*self);
                    row_is_found(self.tasks(), task_key(), at as int);
                }
                let mut task: QueuedTask = self.tasks[at].clone();
                task.status = "in_progress".to_string();
                task.assigned_to = agent_id.to_string();
                let told: serde_json::Value = claim_json(&task);
                self.restore(task);
                Ok(Some(told))
            },
            None => Ok(None),
        }
    }

    /// Mark a task as completed with a result string at `completed_at`.
    pub fn complete(&mut self, task_id: &str, result: &str, completed_at: &str) -> (r:
        OpenFangResult<()>)
        ensures
            unit_view(r) == match row_with(old(self).tasks(), task_key(), task_id@) {
                Some(_) => Ok(()),
                None => Err(ErrorView::Internal("Task not found: "@ + task_id@)),
            },
            final(self).tasks() == after_complete(
                old(self).tasks(),
                task_id@,
                result@,
                completed_at@,
            ),
    {
        let at: usize = self.find(task_id);
        if at < self.tasks.len() {
            proof {
                first_finds(self.tasks(), by_key(task_key(), task_id@));
            }
            let mut task: QueuedTask = self.tasks[at].clone();
            task.status = "completed".to_string();
            task.result = Some(result.to_string());
            task.completed_at = Some(completed_at.to_string());
            self.restore(task);
            Ok(())
        } else {
            let mut text: String = "Task not found: ".to_string();
            text.append(task_id);
            Err(OpenFangError::Internal(text))
        }
    }

    /// Mark a task as completed with a result string.
    pub fn task_complete(&mut self, task_id: &str, result: &str) -> (r: OpenFangResult<()>)
        ensures
            unit_view(r) == match row_with(old(self).tasks(), task_key(), task_id@) {
                Some(_) => Ok(()),
                None => Err(ErrorView::Internal("Task not found: "@ + task_id@)),
            },
            exists|now: Timestamp|
                now.on_clock() && final(self).tasks() == after_complete(
                    old(self).tasks(),
                    task_id@,
                    result@,
                    #[trigger] instant_written(now),
                ),
    {
        let now: String = Timestamp::now().to_rfc3339();
        self.complete(task_id, result, now.as_str())
    }

    /// List tasks, optionally filtered by status, the newest first.
    pub fn task_list(&self, status: Option<&str>) -> (r: OpenFangResult<Vec<serde_json::Value>>)
        ensures
            r matches Ok(values) && json_models(values@) == listed(
                self.tasks(),
                status_filter(status),
            ).map_values(|task: QueuedTaskView| list_tree(task)),
    {
        let choice = StatusTasks { status };
        let label = ByPostingDate;
        let ghost pick = with_status(status_filter(status));
        assert(picked::<QueuedTask, StatusTasks>(choice) =~= pick);
        assert(labels::<QueuedTask, ByPostingDate>(label) =~= posting_date());
        let order: Vec<usize> = select(&self.tasks, &choice, &label, true);
        let ghost wanted = listed(self.tasks(), status_filter(status));
        let mut out: Vec<serde_json::Value> = Vec::new();
        let mut k: usize = 0;
        while k < order.len()
            invariant
                k <= order.len(),
                forall|i: int|
                    0 <= i < order@.len() ==> (#[trigger] order@[i]) < self.tasks@.len(),
                order@.map_values(|p: usize| self.tasks@[p as int]@) == wanted,
                out@.len() == k,
                forall|i: int| 0 <= i < k ==> json_model(#[trigger] out@[i]) == list_tree(wanted[i]),
            decreases order.len() - k,
        {
            assert(wanted[k as int] == self.tasks@[order@[k as int] as int]@);
            out.push(list_json(&self.tasks[order[k]]));
            k = k + 1;
        }
        assert(order@.len() == wanted.len());
        assert(json_models(out@) =~= wanted.map_values(|task: QueuedTaskView| list_tree(task)));
        Ok(out)
    }
}

/// The task that is claimed next may be claimed, and none that may be is sooner.
pub proof fn next_is_soonest(tasks: Seq<QueuedTaskView>, agent: Seq<char>)
    ensures
        match next_task(tasks, agent) {
            Some(at) => {
                &&& 0 <= at < tasks.len()
                &&& claimable(tasks[at], agent)
                &&& forall|i: int|
                    0 <= i < tasks.len() && claimable(#[trigger] tasks[i], agent) ==> !sooner(
                        tasks[i],
                        tasks[at],
                    )
            },
            None => forall|i: int|
                0 <= i < tasks.len() ==> !claimable(#[trigger] tasks[i], agent),
        },
    decreases tasks.len(),
{
    if tasks.len() > 0 {
        let front = tasks.drop_last();
        next_is_soonest(front, agent);
        let before = next_task(front, agent);
        assert forall|i: int| 0 <= i < front.len() implies #[trigger] tasks[i] == front[i] by {}
        match next_task(tasks, agent) {
            Some(at) => {
                assert forall|i: int|
                    0 <= i < tasks.len() && claimable(#[trigger] tasks[i], agent) implies !sooner(
                    tasks[i],
                    tasks[at],
                ) by {
                    if at == tasks.len() - 1 && i < front.len() {
                        let old_best = before.unwrap();
                        assert(tasks[i] == front[i]);
                        assert(!sooner(front[i], front[old_best]));
                        lemma_not_sooner(tasks[i], front[old_best], tasks[at]);
                    } else if at == tasks.len() - 1 {
                        text_order_is_total(tasks[at].created_at, tasks[at].created_at);
                    }
                }
            },
            None => {},
        }
    }
}

/// If `a` is not sooner than `b`, and `c` is, then `a` is not sooner than `c`.
proof fn lemma_not_sooner(a: QueuedTaskView, b: QueuedTaskView, c: QueuedTaskView)
    requires
        !sooner(a, b),
        sooner(c, b),
    ensures
        !sooner(a, c),
{
    text_order_is_total(a.created_at, b.created_at);
    text_order_is_total(b.created_at, c.created_at);
    text_order_is_total(a.created_at, c.created_at);
    if sooner(a, c) {
        if a.priority == c.priority && c.priority == b.priority {
            text_order_is_transitive(a.created_at, c.created_at, b.created_at);
        }
    }
}

/// A task that was posted for an agent, or for any, can be claimed by it, and then not again by
/// anyone.
pub proof fn task_is_claimed_once(
    tasks: Seq<QueuedTaskView>,
    agent: Seq<char>,
    other: Seq<char>,
)
    requires
        distinct_by(tasks, task_key()),
        next_task(tasks, agent) is Some,
    ensures
        ({
            let at = next_task(tasks, agent)->0;
            let now = after_claim(tasks, agent);
            &&& row_with(now, task_key(), tasks[at].id) == Some(claimed(tasks[at], agent))
            &&& !claimable(claimed(tasks[at], agent), other)
            &&& next_task(now, other) != Some(at)
            &&& distinct_by(now, task_key())
        }),
{
    reveal_strlit("pending");
    reveal_strlit("in_progress");
    let at = next_task(tasks, agent)->0;
    next_is_soonest(tasks, agent);
    let now = after_claim(tasks, agent);
    assert("pending"@[0] == 'p');
    assert("in_progress"@[0] == 'i');
    row_is_found(tasks, task_key(), at);
    assert(stored(tasks, task_key(), claimed(tasks[at], agent)) == now);
    stored_is_found(tasks, task_key(), claimed(tasks[at], agent), tasks[at].id);
    next_is_soonest(now, other);
}

/// Something that happens to the queue.
pub enum QueueStep {
    Post {
        id: Seq<char>,
        title: Seq<char>,
        description: Seq<char>,
        assigned_to: Seq<char>,
        created_by: Seq<char>,
        created_at: Seq<char>,
    },
    Claim { agent: Seq<char> },
    Complete { id: Seq<char>, result: Seq<char>, at: Seq<char> },
}

/// The tasks after something happened.
pub open spec fn after_step(tasks: Seq<QueuedTaskView>, step: QueueStep) -> Seq<QueuedTaskView> {
    match step {
        QueueStep::Post { id, title, description, assigned_to, created_by, created_at } => match row_with(
            tasks,
            task_key(),
            id,
        ) {
            Some(_) => tasks,
            None => tasks.push(
                posted(id, title, description, assigned_to, created_by, created_at),
            ),
        },
        QueueStep::Claim { agent } => after_claim(tasks, agent),
        QueueStep::Complete { id, result, at } => after_complete(tasks, id, result, at),
    }
}

/// The tasks after one thing after another happened.
pub open spec fn after_steps(tasks: Seq<QueuedTaskView>, steps: Seq<QueueStep>) -> Seq<
    QueuedTaskView,
>
    decreases steps.len(),
{
    if steps.len() == 0 {
        tasks
    } else {
        after_step(after_steps(tasks, steps.drop_last()), steps.last())
    }
}

/// Whether there is a task under an id, and it was claimed or completed.
pub open spec fn is_taken(tasks: Seq<QueuedTaskView>, id: Seq<char>) -> bool {
    match row_with(tasks, task_key(), id) {
        Some(task) => task.status == "in_progress"@ || task.status == "completed"@,
        None => false,
    }
}

/// A taken task cannot be claimed by anyone.
proof fn lemma_taken_is_not_next(tasks: Seq<QueuedTaskView>, id: Seq<char>, agent: Seq<char>)
    requires
        distinct_by(tasks, task_key()),
        is_taken(tasks, id),
    ensures
        next_task(tasks, agent) matches Some(at) ==> tasks[at].id != id,
{
    reveal_strlit("pending");
    reveal_strlit("in_progress");
    reveal_strlit("completed");
    assert("pending"@[0] == 'p');
    assert("in_progress"@[0] == 'i');
    assert("completed"@[0] == 'c');
    next_is_soonest(tasks, agent);
    if let Some(at) = next_task(tasks, agent) {
        row_is_found(tasks, task_key(), at);
    }
}

/// Whatever happens, a taken task stays taken, and the ids stay distinct.
proof fn lemma_stays_taken(tasks: Seq<QueuedTaskView>, id: Seq<char>, step: QueueStep)
    requires
        distinct_by(tasks, task_key()),
        is_taken(tasks, id),
    ensures
        distinct_by(after_step(tasks, step), task_key()),
        is_taken(after_step(tasks, step), id),
{
    let key = task_key();
    match step {
        QueueStep::Post { id: new_id, title, description, assigned_to, created_by, created_at } => {
            let task = posted(new_id, title, description, assigned_to, created_by, created_at);
            first_finds(tasks, by_key(key, new_id));
            stored_is_found(tasks, key, task, id);
        },
        QueueStep::Claim { agent } => {
            lemma_taken_is_not_next(tasks, id, agent);
            next_is_soonest(tasks, agent);
            if let Some(at) = next_task(tasks, agent) {
                row_is_found(tasks, key, at);
                stored_is_found(tasks, key, claimed(tasks[at], agent), id);
            }
        },
        QueueStep::Complete { id: done, result, at } => {
            found_has_key(tasks, key, done);
            if let Some(task) = row_with(tasks, key, done) {
                stored_is_found(tasks, key, completed(task, result, at), id);
            }
        },
    }
}

/// A claimed task stays claimed: whatever is posted, claimed and completed afterwards, in any
/// order, it is in progress or completed, and nobody claims it again.
pub proof fn claimed_task_stays_taken(
    tasks: Seq<QueuedTaskView>,
    agent: Seq<char>,
    steps: Seq<QueueStep>,
    other: Seq<char>,
)
    requires
        distinct_by(tasks, task_key()),
        next_task(tasks, agent) is Some,
    ensures
        ({
            let id = tasks[next_task(tasks, agent)->0].id;
            let now = after_steps(after_claim(tasks, agent), steps);
            &&& is_taken(now, id)
            &&& next_task(now, other) matches Some(at) ==> now[at].id != id
            &&& distinct_by(now, task_key())
        }),
    decreases steps.len(),
{
    let id = tasks[next_task(tasks, agent)->0].id;
    let start = after_claim(tasks, agent);
    if steps.len() == 0 {
        task_is_claimed_once(tasks, agent, other);
    } else {
        claimed_task_stays_taken(tasks, agent, steps.drop_last(), other);
        lemma_stays_taken(after_steps(start, steps.drop_last()), id, steps.last());
    }
    lemma_taken_is_not_next(after_steps(start, steps), id, other);
}

/// A posted task is pending under its id, and the agent that it is for may claim it.
pub proof fn posted_task_may_be_claimed(
    id: Seq<char>,
    title: Seq<char>,
    description: Seq<char>,
    agent: Seq<char>,
    created_by: Seq<char>,
    created_at: Seq<char>,
)
    ensures
        claimable(posted(id, title, description, agent, created_by, created_at), agent),
        claimable(posted(id, title, description, ""@, created_by, created_at), agent),
{
    reveal_strlit("");
}

/// A completed task has its result, and every other task is as before.
pub proof fn completed_task_has_result(
    tasks: Seq<QueuedTaskView>,
    id: Seq<char>,
    result: Seq<char>,
    at: Seq<char>,
    other: Seq<char>,
)
    requires
        distinct_by(tasks, task_key()),
    ensures
        row_with(after_complete(tasks, id, result, at), task_key(), other) == match row_with(
            tasks,
            task_key(),
            other,
        ) {
            Some(task) if other == id => Some(completed(task, result, at)),
            Some(task) => Some(task),
            None => None,
        },
{
    found_has_key(tasks, task_key(), id);
    match row_with(tasks, task_key(), id) {
        Some(task) => {
            stored_is_found(tasks, task_key(), completed(task, result, at), other);
        },
        None => {},
    }
}

} // verus!
