//! The store that tracks the lifecycle of tasks.

use crate::a2a::types::{
    artifact_views, message_views, optional_task, A2aArtifact, A2aMessage, A2aTask, A2aTaskStatus,
    A2aTaskStatusWrapper, ArtifactView, MessageView, StatusView, TaskView,
};
use crate::text::same_text;
use vstd::prelude::*;

verus! {

/// What a list of tasks holds.
pub open spec fn task_views(tasks: Seq<A2aTask>) -> Seq<TaskView> {
    tasks.map_values(|t: A2aTask| t@)
}

/// The position of the first task with the id `id`, or the length if there is none.
pub open spec fn position(tasks: Seq<TaskView>, id: Seq<char>) -> int
    decreases tasks.len(),
{
    if tasks.len() == 0 || tasks[0].id == id {
        0
    } else {
        1 + position(tasks.skip(1), id)
    }
}

/// Whether there is a task with the id `id`.
pub open spec fn is_known(tasks: Seq<TaskView>, id: Seq<char>) -> bool {
    position(tasks, id) < tasks.len()
}

/// The task with the id `id`.
pub open spec fn lookup(tasks: Seq<TaskView>, id: Seq<char>) -> Option<TaskView> {
    if is_known(tasks, id) {
        Some(tasks[position(tasks, id)])
    } else {
        None
    }
}

/// The position of the oldest finished task, or the length if none is finished.
pub open spec fn oldest_finished(tasks: Seq<TaskView>) -> int
    decreases tasks.len(),
{
    if tasks.len() == 0 || tasks[0].status.state().finished() {
        0
    } else {
        1 + oldest_finished(tasks.skip(1))
    }
}

/// The position of the task that makes room for another: the oldest finished one, and the oldest
/// one if none is finished.
pub open spec fn victim(tasks: Seq<TaskView>) -> int {
    if oldest_finished(tasks) < tasks.len() {
        oldest_finished(tasks)
    } else {
        0
    }
}

/// The tasks that stay when one more comes to a store for `max` tasks.
pub open spec fn with_room(tasks: Seq<TaskView>, max: nat) -> Seq<TaskView> {
    if tasks.len() >= max && tasks.len() > 0 {
        tasks.remove(victim(tasks))
    } else {
        tasks
    }
}

/// The tasks without the one with the id `id`.
pub open spec fn without(tasks: Seq<TaskView>, id: Seq<char>) -> Seq<TaskView> {
    if is_known(tasks, id) {
        tasks.remove(position(tasks, id))
    } else {
        tasks
    }
}

/// The tasks, oldest first, after `task` came to a store for `max` tasks.
pub open spec fn inserted(tasks: Seq<TaskView>, max: nat, task: TaskView) -> Seq<TaskView> {
    without(with_room(tasks, max), task.id).push(task)
}

/// The tasks after the one with the id `id`, if there is one, became `task`.
pub open spec fn changed(tasks: Seq<TaskView>, id: Seq<char>, task: TaskView) -> Seq<TaskView> {
    if is_known(tasks, id) {
        tasks.update(position(tasks, id), task)
    } else {
        tasks
    }
}

/// A task with another status.
pub open spec fn with_status(task: TaskView, status: A2aTaskStatus) -> TaskView {
    TaskView { status: StatusView::Enum(status), ..task }
}

/// A task with one more message, more artifacts and another status.
pub open spec fn advanced(
    task: TaskView,
    message: MessageView,
    artifacts: Seq<ArtifactView>,
    status: A2aTaskStatus,
) -> TaskView {
    TaskView {
        status: StatusView::Enum(status),
        messages: task.messages.push(message),
        artifacts: task.artifacts + artifacts,
        ..task
    }
}

/// Whether no two tasks have one id.
pub open spec fn distinct_ids(tasks: Seq<TaskView>) -> bool {
    forall|i: int, j: int|
        0 <= i < j < tasks.len() ==> (#[trigger] tasks[i]).id != (#[trigger] tasks[j]).id
}

/// The most tasks that a store for `max` tasks holds; a task that was just inserted always has
/// room.
pub open spec fn capacity(max: nat) -> nat {
    if max == 0 {
        1
    } else {
        max
    }
}

/// In-memory store for tracking A2A task lifecycle.
///
/// Tasks are created by `tasks/send`, polled by `tasks/get`, and cancelled
/// by `tasks/cancel`. The store is bounded to prevent memory exhaustion.
#[derive(Debug)]
pub struct A2aTaskStore {
    /// The tasks, oldest first.
    tasks: Vec<A2aTask>,
    /// Maximum number of tasks to retain.
    max_tasks: usize,
}

impl A2aTaskStore {
    /// The tasks, oldest first.
    pub closed spec fn tasks(&self) -> Seq<TaskView> {
        task_views(self.tasks@)
    }

    /// The number of tasks that the store was made for.
    pub closed spec fn max(&self) -> nat {
        self.max_tasks as nat
    }

    /// No two tasks have one id, and there are never more than there is room for.
    #[verifier::type_invariant]
    spec fn bounded(&self) -> bool {
        &&& distinct_ids(task_views(self.tasks@))
        &&& self.tasks@.len() <= capacity(self.max_tasks as nat)
    }

    /// Create a new task store with a capacity limit.
    pub fn new(max_tasks: usize) -> (r: Self)
        ensures
            r.tasks() == Seq::<TaskView>::empty(),
            r.max() == max_tasks,
    {
        let r = A2aTaskStore { tasks: Vec::new(), max_tasks };
        assert(r.tasks() =~= Seq::<TaskView>::empty());
        r
    }

    /// The position of the task with the id `task_id`, or the number of tasks if there is none.
    fn find(&self, task_id: &str) -> (r: usize)
        ensures
            r == position(self.tasks(), task_id@),
            r <= self.tasks@.len(),
    {
        find_task(&self.tasks, task_id)
    }

    /// Insert a task. If the store is at capacity, the oldest finished task is evicted, and the
    /// oldest task if none is finished. A task with the same id is replaced.
    pub fn insert(&mut self, task: A2aTask)
        ensures
            final(self).tasks() == inserted(old(self).tasks(), old(self).max(), task@),
            final(self).max() == old(self).max(),
    {
        proof {
            use_type_invariant(&*self);
            insert_keeps_bound(self.tasks(), self.max(), task@);
        }
        let mut tasks: Vec<A2aTask> = Vec::new();
        std::mem::swap(&mut tasks, &mut self.tasks);
        let ghost before = task_views(tasks@);
        if tasks.len() >= self.max_tasks && tasks.len() > 0 {
            let finished: usize = find_finished(&tasks);
            let at: usize = if finished < tasks.len() { finished } else { 0 };
            let ghost held = tasks@;
            tasks.remove(at);
            assert(task_views(tasks@) =~= task_views(held).remove(at as int));
        }
        let ghost kept = task_views(tasks@);
        assert(kept == with_room(before, self.max()));
        let same: usize = find_task(&tasks, task.id.as_str());
        if same < tasks.len() {
            let ghost held = tasks@;
            tasks.remove(same);
            assert(task_views(tasks@) =~= task_views(held).remove(same as int));
        }
        let ghost held = tasks@;
        tasks.push(task);
        assert(task_views(tasks@) =~= task_views(held).push(task@));
        self.tasks = tasks;
    }

    /// Get a task by ID.
    pub fn get(&self, task_id: &str) -> (r: Option<A2aTask>)
        ensures
            optional_task(r) == lookup(self.tasks(), task_id@),
    {
        let at: usize = self.find(task_id);
        if at < self.tasks.len() {
            Some(self.tasks[at].clone())
        } else {
            None
        }
    }

    /// Replace the task at `at`, which keeps its id.
    fn put(&mut self, at: usize, task: A2aTask)
        requires
            at < old(self).tasks().len(),
            task@.id == old(self).tasks()[at as int].id,
        ensures
            final(self).tasks() == old(self).tasks().update(at as int, task@),
            final(self).max() == old(self).max(),
    {
        proof {
            use_type_invariant(&*self);
        }
        let mut tasks: Vec<A2aTask> = Vec::new();
        std::mem::swap(&mut tasks, &mut self.tasks);
        let ghost held = tasks@;
        tasks.set(at, task);
        assert(task_views(tasks@) =~= task_views(held).update(at as int, task@));
        self.tasks = tasks;
    }

    /// Update a task's status. Returns whether the task exists.
    pub fn update_status(&mut self, task_id: &str, status: A2aTaskStatus) -> (r: bool)
        ensures
            r == is_known(old(self).tasks(), task_id@),
            final(self).tasks() == match lookup(old(self).tasks(), task_id@) {
                Some(task) => changed(old(self).tasks(), task_id@, with_status(task, status)),
                None => old(self).tasks(),
            },
            final(self).max() == old(self).max(),
    {
        let at: usize = self.find(task_id);
        if at < self.tasks.len() {
            let mut task: A2aTask = self.tasks[at].clone();
            task.status = A2aTaskStatusWrapper::from(status);
            self.put(at, task);
            true
        } else {
            false
        }
    }

    /// Complete a task with a response message and optional artifacts. Nothing happens if the
    /// task does not exist.
    pub fn complete(&mut self, task_id: &str, response: A2aMessage, artifacts: Vec<A2aArtifact>)
        ensures
            final(self).tasks() == match lookup(old(self).tasks(), task_id@) {
                Some(task) => changed(
                    old(self).tasks(),
                    task_id@,
                    advanced(
                        task,
                        response@,
                        artifact_views(artifacts@),
                        A2aTaskStatus::Completed,
                    ),
                ),
                None => old(self).tasks(),
            },
            final(self).max() == old(self).max(),
    {
        let at: usize = self.find(task_id);
        if at < self.tasks.len() {
            let mut task: A2aTask = self.tasks[at].clone();
            let ghost held = task;
            let mut more: Vec<A2aArtifact> = artifacts;
            task.messages.push(response);
            assert(message_views(task.messages@) =~= held@.messages.push(response@));
            task.artifacts.append(&mut more);
            assert(artifact_views(task.artifacts@) =~= held@.artifacts + artifact_views(
                artifacts@,
            ));
            task.status = A2aTaskStatusWrapper::from(A2aTaskStatus::Completed);
            self.put(at, task);
        }
    }

    /// Fail a task with an error message. Nothing happens if the task does not exist.
    pub fn fail(&mut self, task_id: &str, error_message: A2aMessage)
        ensures
            final(self).tasks() == match lookup(old(self).tasks(), task_id@) {
                Some(task) => changed(
                    old(self).tasks(),
                    task_id@,
                    advanced(task, error_message@, Seq::empty(), A2aTaskStatus::Failed),
                ),
                None => old(self).tasks(),
            },
            final(self).max() == old(self).max(),
    {
        let at: usize = self.find(task_id);
        if at < self.tasks.len() {
            let mut task: A2aTask = self.tasks[at].clone();
            let ghost held = task;
            task.messages.push(error_message);
            assert(message_views(task.messages@) =~= held@.messages.push(error_message@));
            assert(held@.artifacts =~= held@.artifacts + Seq::<ArtifactView>::empty());
            task.status = A2aTaskStatusWrapper::from(A2aTaskStatus::Failed);
            self.put(at, task);
        }
    }

    /// Cancel a task. Returns whether the task exists.
    pub fn cancel(&mut self, task_id: &str) -> (r: bool)
        ensures
            r == is_known(old(self).tasks(), task_id@),
            final(self).tasks() == match lookup(old(self).tasks(), task_id@) {
                Some(task) => changed(
                    old(self).tasks(),
                    task_id@,
                    with_status(task, A2aTaskStatus::Cancelled),
                ),
                None => old(self).tasks(),
            },
            final(self).max() == old(self).max(),
    {
        self.update_status(task_id, A2aTaskStatus::Cancelled)
    }

    /// Count of the tasks, which never exceeds the capacity. No two of them have one id.
    pub fn len(&self) -> (r: usize)
        ensures
            r == self.tasks().len(),
            r <= capacity(self.max()),
            distinct_ids(self.tasks()),
    {
        proof {
            use_type_invariant(self);
        }
        self.tasks.len()
    }

    /// Whether the store is empty.
    pub fn is_empty(&self) -> (r: bool)
        ensures
            r == (self.tasks().len() == 0),
    {
        self.len() == 0
    }
}

impl Default for A2aTaskStore {
    fn default() -> (r: Self)
        ensures
            r.tasks() == Seq::<TaskView>::empty(),
            r.max() == 1000,
    {
        Self::new(1000)
    }
}

/// The position of the first task with the id `id`, or the number of tasks if there is none.
fn find_task(tasks: &Vec<A2aTask>, id: &str) -> (r: usize)
    ensures
        r == position(task_views(tasks@), id@),
        r <= tasks@.len(),
{
    let ghost views = task_views(tasks@);
    assert(views.skip(0) =~= views);
    let mut i: usize = 0;
    while i < tasks.len() && !same_text(tasks[i].id.as_str(), id)
        invariant
            i <= tasks.len(),
            views == task_views(tasks@),
            position(views, id@) == i + position(views.skip(i as int), id@),
        decreases tasks.len() - i,
    {
        assert(views.skip(i as int).skip(1) =~= views.skip(i + 1));
        i = i + 1;
    }
    i
}

/// The position of the oldest finished task, or the number of tasks if none is finished.
fn find_finished(tasks: &Vec<A2aTask>) -> (r: usize)
    ensures
        r == oldest_finished(task_views(tasks@)),
        r <= tasks@.len(),
{
    let ghost views = task_views(tasks@);
    assert(views.skip(0) =~= views);
    let mut i: usize = 0;
    while i < tasks.len()
        invariant
            i <= tasks.len(),
            views == task_views(tasks@),
            oldest_finished(views) == i + oldest_finished(views.skip(i as int)),
        decreases tasks.len() - i,
    {
        let state: A2aTaskStatus = *tasks[i].status.state();
        if matches!(
            state,
            A2aTaskStatus::Completed | A2aTaskStatus::Failed | A2aTaskStatus::Cancelled
        ) {
            return i;
        }
        assert(views.skip(i as int).skip(1) =~= views.skip(i + 1));
        i = i + 1;
    }
    i
}

/// `position` is that of a task with the id, or the length if no task has the id.
pub proof fn position_finds(tasks: Seq<TaskView>, id: Seq<char>)
    ensures
        0 <= position(tasks, id) <= tasks.len(),
        is_known(tasks, id) ==> tasks[position(tasks, id)].id == id,
        forall|i: int| 0 <= i < position(tasks, id) ==> (#[trigger] tasks[i]).id != id,
    decreases tasks.len(),
{
    if tasks.len() > 0 && tasks[0].id != id {
        position_finds(tasks.skip(1), id);
        assert forall|i: int| 0 <= i < position(tasks, id) implies (#[trigger] tasks[i]).id
            != id by {
            if i > 0 {
                assert(tasks[i] == tasks.skip(1)[i - 1]);
            }
        }
    }
}

/// `oldest_finished` is the position of a finished task before which none is finished, or the
/// length if none is finished.
pub proof fn oldest_finished_finds(tasks: Seq<TaskView>)
    ensures
        0 <= oldest_finished(tasks) <= tasks.len(),
        oldest_finished(tasks) < tasks.len() ==> tasks[oldest_finished(
            tasks,
        )].status.state().finished(),
        forall|i: int|
            0 <= i < oldest_finished(tasks) ==> !(#[trigger] tasks[i]).status.state().finished(),
    decreases tasks.len(),
{
    if tasks.len() > 0 && !tasks[0].status.state().finished() {
        oldest_finished_finds(tasks.skip(1));
        assert forall|i: int| 0 <= i < oldest_finished(tasks) implies !(
        #[trigger] tasks[i]).status.state().finished() by {
            if i > 0 {
                assert(tasks[i] == tasks.skip(1)[i - 1]);
            }
        }
    }
}

/// Inserting keeps the ids distinct and the number of tasks within the capacity.
pub proof fn insert_keeps_bound(tasks: Seq<TaskView>, max: nat, task: TaskView)
    requires
        distinct_ids(tasks),
        tasks.len() <= capacity(max),
    ensures
        distinct_ids(inserted(tasks, max, task)),
        inserted(tasks, max, task).len() <= capacity(max),
{
    oldest_finished_finds(tasks);
    let kept = with_room(tasks, max);
    assert(distinct_ids(kept));
    position_finds(kept, task.id);
    let others = without(kept, task.id);
    assert(distinct_ids(others));
    assert forall|i: int| 0 <= i < others.len() implies (#[trigger] others[i]).id != task.id by {
        let at = position(kept, task.id);
        if is_known(kept, task.id) {
            if i < at {
                assert(others[i] == kept[i]);
            } else {
                assert(others[i] == kept[i + 1]);
                assert(kept[at].id == task.id);
            }
        }
    }
}

/// With distinct ids, a task is found by its id at its position.
proof fn lemma_lookup_at(tasks: Seq<TaskView>, at: int)
    requires
        distinct_ids(tasks),
        0 <= at < tasks.len(),
    ensures
        position(tasks, tasks[at].id) == at,
        lookup(tasks, tasks[at].id) == Some(tasks[at]),
{
    position_finds(tasks, tasks[at].id);
}

/// An id that no task has is not found.
proof fn lemma_lookup_absent(tasks: Seq<TaskView>, id: Seq<char>)
    requires
        forall|i: int| 0 <= i < tasks.len() ==> (#[trigger] tasks[i]).id != id,
    ensures
        lookup(tasks, id) is None,
{
    position_finds(tasks, id);
}

/// Removing the task at `at` loses that task and no other.
proof fn lemma_remove(tasks: Seq<TaskView>, at: int, id: Seq<char>)
    requires
        distinct_ids(tasks),
        0 <= at < tasks.len(),
    ensures
        distinct_ids(tasks.remove(at)),
        id == tasks[at].id ==> lookup(tasks.remove(at), id) is None,
        id != tasks[at].id ==> lookup(tasks.remove(at), id) == lookup(tasks, id),
{
    let rest = tasks.remove(at);
    position_finds(tasks, id);
    let here = position(tasks, id);
    if id == tasks[at].id || !is_known(tasks, id) {
        assert forall|i: int| 0 <= i < rest.len() implies (#[trigger] rest[i]).id != id by {
            if i < at {
                assert(rest[i] == tasks[i]);
            } else {
                assert(rest[i] == tasks[i + 1]);
            }
        }
        lemma_lookup_absent(rest, id);
    } else if here < at {
        assert(rest[here] == tasks[here]);
        lemma_lookup_at(rest, here);
    } else {
        assert(rest[here - 1] == tasks[here]);
        lemma_lookup_at(rest, here - 1);
    }
}

/// Appending a task with a new id adds that task and changes no other.
proof fn lemma_push(tasks: Seq<TaskView>, task: TaskView, id: Seq<char>)
    requires
        distinct_ids(tasks),
        lookup(tasks, task.id) is None,
    ensures
        lookup(tasks.push(task), id) == if id == task.id {
            Some(task)
        } else {
            lookup(tasks, id)
        },
{
    let all = tasks.push(task);
    position_finds(tasks, task.id);
    position_finds(tasks, id);
    assert(distinct_ids(all));
    if id == task.id {
        assert(all[tasks.len() as int] == task);
        lemma_lookup_at(all, tasks.len() as int);
    } else if is_known(tasks, id) {
        let at = position(tasks, id);
        assert(all[at] == tasks[at]);
        lemma_lookup_at(all, at);
    } else {
        assert forall|i: int| 0 <= i < all.len() implies (#[trigger] all[i]).id != id by {
            if i < tasks.len() {
                assert(all[i] == tasks[i]);
            }
        }
        lemma_lookup_absent(all, id);
    }
}

/// A task that was inserted is found, as it was inserted.
pub proof fn insert_then_get(tasks: Seq<TaskView>, max: nat, task: TaskView)
    requires
        distinct_ids(tasks),
    ensures
        lookup(inserted(tasks, max, task), task.id) == Some(task),
{
    insert_leaves_others(tasks, max, task, task.id);
}

/// Inserting a task below capacity changes no other task. At capacity it loses the victim and
/// changes no other task.
pub proof fn insert_leaves_others(tasks: Seq<TaskView>, max: nat, task: TaskView, id: Seq<char>)
    requires
        distinct_ids(tasks),
    ensures
        lookup(inserted(tasks, max, task), id) == if id == task.id {
            Some(task)
        } else if tasks.len() >= max && tasks.len() > 0 && tasks[victim(tasks)].id == id {
            None
        } else {
            lookup(tasks, id)
        },
{
    oldest_finished_finds(tasks);
    let kept = with_room(tasks, max);
    if tasks.len() >= max && tasks.len() > 0 {
        lemma_remove(tasks, victim(tasks), id);
    }
    position_finds(kept, task.id);
    if is_known(kept, task.id) {
        lemma_remove(kept, position(kept, task.id), id);
        lemma_remove(kept, position(kept, task.id), task.id);
    }
    lemma_push(without(kept, task.id), task, id);
}

/// As long as one task is finished, inserting loses no unfinished task.
pub proof fn insert_spares_unfinished(
    tasks: Seq<TaskView>,
    max: nat,
    task: TaskView,
    finished: int,
    id: Seq<char>,
)
    requires
        distinct_ids(tasks),
        0 <= finished < tasks.len(),
        tasks[finished].status.state().finished(),
        lookup(tasks, id) matches Some(t) && !t.status.state().finished(),
        id != task.id,
    ensures
        lookup(inserted(tasks, max, task), id) == lookup(tasks, id),
{
    insert_leaves_others(tasks, max, task, id);
    oldest_finished_finds(tasks);
    position_finds(tasks, id);
    lemma_lookup_at(tasks, victim(tasks));
}

/// Changing the task with the id `id` changes that task and no other.
pub proof fn change_is_local(
    tasks: Seq<TaskView>,
    id: Seq<char>,
    task: TaskView,
    other: Seq<char>,
)
    requires
        distinct_ids(tasks),
        task.id == id,
    ensures
        distinct_ids(changed(tasks, id, task)),
        lookup(changed(tasks, id, task), other) == if other == id && is_known(tasks, id) {
            Some(task)
        } else {
            lookup(tasks, other)
        },
{
    position_finds(tasks, id);
    position_finds(tasks, other);
    if is_known(tasks, id) {
        let at = position(tasks, id);
        let now = changed(tasks, id, task);
        assert forall|i: int| 0 <= i < now.len() implies (#[trigger] now[i]).id == tasks[i].id by {}
        if is_known(tasks, other) {
            let there = position(tasks, other);
            assert(now[there].id == other);
            lemma_lookup_at(now, there);
        } else {
            lemma_lookup_absent(now, other);
        }
    }
}

/// A cancelled task stays cancelled when it is cancelled again.
pub proof fn cancel_twice(tasks: Seq<TaskView>, id: Seq<char>, task: TaskView)
    requires
        distinct_ids(tasks),
        lookup(tasks, id) == Some(task),
    ensures
        ({
            let cancelled = with_status(task, A2aTaskStatus::Cancelled);
            let once = changed(tasks, id, cancelled);
            &&& lookup(once, id) == Some(cancelled)
            &&& changed(once, id, with_status(cancelled, A2aTaskStatus::Cancelled)) == once
        }),
{
    let cancelled = with_status(task, A2aTaskStatus::Cancelled);
    position_finds(tasks, id);
    change_is_local(tasks, id, cancelled, id);
    let once = changed(tasks, id, cancelled);
    lemma_lookup_at(once, position(tasks, id));
    assert(changed(once, id, with_status(cancelled, A2aTaskStatus::Cancelled)) =~= once);
}

} // verus!
