//! Laws of the task queue: what is told of a task, and which one is claimed.

use crate::json::{entries_map, entry_is_member, maybe_text_tree, member, JsonTree};
use crate::memory::table::{
    by_key, comes_first, distinct_by, first_finds, found_has_key, row_is_found, row_with,
    selection_holds_picked, selection_is_sorted, stored,
};
use crate::memory::task_queue::{
    after_claim, after_complete, claim_tree, claimable, claimed, completed, list_tree, listed,
    next_is_soonest, next_task, posted, posting_date, sooner, status_filter, task_key,
    text_or_empty, with_status, QueuedTask, QueuedTaskView,
};
use crate::text::{optional_text, text_less, text_order_is_total, text_order_is_transitive};
use vstd::prelude::*;

verus! {

/// What is stated of a task speaks of its fields.
pub proof fn queued_task_shows_its_fields(task: QueuedTask)
    ensures
        task@.id == task.id@,
        task@.title == task.title@,
        task@.description == task.description@,
        task@.status == task.status@,
        task@.priority == task.priority,
        task@.assigned_to == task.assigned_to@,
        task@.created_by == task.created_by@,
        task@.created_at == task.created_at@,
        task@.completed_at == optional_text(task.completed_at),
        task@.result == optional_text(task.result),
{
}

/// The names under which the fields of a task are told are nine.
proof fn lemma_task_names()
    ensures
        forall|i: int, j: int|
            0 <= i < j < 9 ==> #[trigger] task_names()[i] != #[trigger] task_names()[j],
{
    reveal_strlit("id");
    reveal_strlit("title");
    reveal_strlit("description");
    reveal_strlit("status");
    reveal_strlit("assigned_to");
    reveal_strlit("created_by");
    reveal_strlit("created_at");
    reveal_strlit("completed_at");
    reveal_strlit("result");
    assert("id"@.len() == 2 && "title"@.len() == 5 && "description"@.len() == 11);
    assert("status"@.len() == 6 && "assigned_to"@.len() == 11 && "created_by"@.len() == 10);
    assert("created_at"@.len() == 10 && "completed_at"@.len() == 12 && "result"@.len() == 6);
    assert("description"@[0] == 'd' && "assigned_to"@[0] == 'a');
    assert("status"@[0] == 's' && "result"@[0] == 'r');
    assert("created_by"@[8] == 'b' && "created_at"@[8] == 'a');
}

/// The names under which the fields of a task are told.
spec fn task_names() -> Seq<Seq<char>> {
    seq![
        "id"@,
        "title"@,
        "description"@,
        "status"@,
        "assigned_to"@,
        "created_by"@,
        "created_at"@,
        "completed_at"@,
        "result"@,
    ]
}

/// Who claims a task is told each of its fields under its own name.
pub proof fn claim_tells_every_field(task: QueuedTaskView)
    ensures
        member(claim_tree(task), "id"@) == Some(JsonTree::Text(task.id)),
        member(claim_tree(task), "title"@) == Some(JsonTree::Text(task.title)),
        member(claim_tree(task), "description"@) == Some(JsonTree::Text(task.description)),
        member(claim_tree(task), "status"@) == Some(JsonTree::Text(task.status)),
        member(claim_tree(task), "assigned_to"@) == Some(JsonTree::Text(task.assigned_to)),
        member(claim_tree(task), "created_by"@) == Some(JsonTree::Text(task.created_by)),
        member(claim_tree(task), "created_at"@) == Some(JsonTree::Text(task.created_at)),
{
    let e = seq![
        ("id"@, JsonTree::Text(task.id)),
        ("title"@, JsonTree::Text(task.title)),
        ("description"@, JsonTree::Text(task.description)),
        ("status"@, JsonTree::Text(task.status)),
        ("assigned_to"@, JsonTree::Text(task.assigned_to)),
        ("created_by"@, JsonTree::Text(task.created_by)),
        ("created_at"@, JsonTree::Text(task.created_at)),
    ];
    assert(claim_tree(task) == JsonTree::Object(entries_map(e)));
    lemma_task_names();
    let n = task_names();
    assert forall|i: int, j: int| 0 <= i < j < 7 implies #[trigger] e[j].0 != #[trigger] e[i].0 by {
        assert(n[i] == e[i].0 && n[j] == e[j].0);
    }
    entry_is_member(e, 0);
    entry_is_member(e, 1);
    entry_is_member(e, 2);
    entry_is_member(e, 3);
    entry_is_member(e, 4);
    entry_is_member(e, 5);
    entry_is_member(e, 6);
}

/// A list tells each field of a task under its own name.
pub proof fn list_tells_every_field(task: QueuedTaskView)
    ensures
        member(list_tree(task), "id"@) == Some(JsonTree::Text(task.id)),
        member(list_tree(task), "title"@) == Some(JsonTree::Text(task.title)),
        member(list_tree(task), "description"@) == Some(JsonTree::Text(task.description)),
        member(list_tree(task), "status"@) == Some(JsonTree::Text(task.status)),
        member(list_tree(task), "assigned_to"@) == Some(JsonTree::Text(task.assigned_to)),
        member(list_tree(task), "created_by"@) == Some(JsonTree::Text(task.created_by)),
        member(list_tree(task), "created_at"@) == Some(JsonTree::Text(task.created_at)),
        member(list_tree(task), "completed_at"@) == Some(
            match task.completed_at {
                Some(at) => JsonTree::Text(at),
                None => JsonTree::Null,
            },
        ),
        member(list_tree(task), "result"@) == Some(
            match task.result {
                Some(result) => JsonTree::Text(result),
                None => JsonTree::Null,
            },
        ),
{
    let e = seq![
        ("id"@, JsonTree::Text(task.id)),
        ("title"@, JsonTree::Text(task.title)),
        ("description"@, JsonTree::Text(task.description)),
        ("status"@, JsonTree::Text(task.status)),
        ("assigned_to"@, JsonTree::Text(task.assigned_to)),
        ("created_by"@, JsonTree::Text(task.created_by)),
        ("created_at"@, JsonTree::Text(task.created_at)),
        ("completed_at"@, maybe_text_tree(task.completed_at)),
        ("result"@, maybe_text_tree(task.result)),
    ];
    assert(list_tree(task) == JsonTree::Object(entries_map(e)));
    lemma_task_names();
    let n = task_names();
    assert forall|i: int, j: int| 0 <= i < j < 9 implies #[trigger] e[j].0 != #[trigger] e[i].0 by {
        assert(n[i] == e[i].0 && n[j] == e[j].0);
    }
    entry_is_member(e, 0);
    entry_is_member(e, 1);
    entry_is_member(e, 2);
    entry_is_member(e, 3);
    entry_is_member(e, 4);
    entry_is_member(e, 5);
    entry_is_member(e, 6);
    entry_is_member(e, 7);
    entry_is_member(e, 8);
}

/// A task is told as it was posted: whoever claims it is told its title, its description and who
/// posted it when, and that it is theirs and in progress; a list tells the same, and that it is
/// pending, for whom it is, and that it has no result.
pub proof fn posted_task_is_told(
    tasks: Seq<QueuedTaskView>,
    id: Seq<char>,
    title: Seq<char>,
    description: Seq<char>,
    assigned_to: Seq<char>,
    created_by: Seq<char>,
    created_at: Seq<char>,
    agent: Seq<char>,
)
    requires
        distinct_by(tasks, task_key()),
        row_with(tasks, task_key(), id) is None,
    ensures
        ({
            let now = tasks.push(
                posted(id, title, description, assigned_to, created_by, created_at),
            );
            &&& next_task(now, agent) matches Some(at) ==> now[at].id == id ==> {
                let told = claim_tree(claimed(now[at], agent));
                &&& member(told, "id"@) == Some(JsonTree::Text(id))
                &&& member(told, "title"@) == Some(JsonTree::Text(title))
                &&& member(told, "description"@) == Some(JsonTree::Text(description))
                &&& member(told, "status"@) == Some(JsonTree::Text("in_progress"@))
                &&& member(told, "assigned_to"@) == Some(JsonTree::Text(agent))
                &&& member(told, "created_by"@) == Some(JsonTree::Text(created_by))
                &&& member(told, "created_at"@) == Some(JsonTree::Text(created_at))
            }
            &&& forall|i: int|
                0 <= i < listed(now, None).len() && (#[trigger] listed(now, None)[i]).id == id ==> {
                    let told = list_tree(listed(now, None)[i]);
                    &&& member(told, "id"@) == Some(JsonTree::Text(id))
                    &&& member(told, "title"@) == Some(JsonTree::Text(title))
                    &&& member(told, "description"@) == Some(JsonTree::Text(description))
                    &&& member(told, "status"@) == Some(JsonTree::Text("pending"@))
                    &&& member(told, "assigned_to"@) == Some(JsonTree::Text(assigned_to))
                    &&& member(told, "created_by"@) == Some(JsonTree::Text(created_by))
                    &&& member(told, "created_at"@) == Some(JsonTree::Text(created_at))
                    &&& member(told, "completed_at"@) == Some(JsonTree::Null)
                    &&& member(told, "result"@) == Some(JsonTree::Text(""@))
                }
            &&& exists|i: int|
                0 <= i < listed(now, None).len() && (#[trigger] listed(now, None)[i]).id == id
            &&& (assigned_to == agent || assigned_to.len() == 0) ==> next_task(now, agent) is Some
        }),
{
    let task = posted(id, title, description, assigned_to, created_by, created_at);
    let now = tasks.push(task);
    found_has_key(tasks, task_key(), id);
    first_finds(tasks, by_key(task_key(), id));
    assert forall|i: int| 0 <= i < now.len() && (#[trigger] now[i]).id == id implies now[i]
        == task by {
        if i < tasks.len() {
            assert(tasks[i] == now[i]);
            assert(by_key(task_key(), id)(tasks[i]));
        }
    }
    next_is_soonest(now, agent);
    assert(now[tasks.len() as int] == task);
    claim_tells_every_field(claimed(task, agent));
    list_tells_every_field(task);
    let all = listed(now, None);
    assert forall|i: int| 0 <= i < all.len() && (#[trigger] all[i]).id == id implies all[i]
        == task by {
        selection_holds_picked(now, with_status(None), posting_date(), true, all[i]);
        assert(all.contains(all[i]));
        let p = choose|p: int| 0 <= p < now.len() && now[p] == all[i];
        assert(now[p].id == id);
    }
    selection_holds_picked(now, with_status(None), posting_date(), true, task);
    assert(now.contains(task));
    assert(all.contains(task));
    let at = choose|i: int| 0 <= i < all.len() && all[i] == task;
    assert(all[at].id == id);
}

/// Whether an agent may claim a task.
spec fn open_to(task: QueuedTaskView, agent: Seq<char>) -> bool {
    task.status == "pending"@ && (task.assigned_to == agent || task.assigned_to == ""@)
}

/// Of equally soon tasks the first is claimed.
proof fn lemma_first_of_equals(tasks: Seq<QueuedTaskView>, agent: Seq<char>)
    ensures
        next_task(tasks, agent) matches Some(at) ==> forall|i: int|
            0 <= i < at && open_to(#[trigger] tasks[i], agent) ==> sooner(tasks[at], tasks[i]),
    decreases tasks.len(),
{
    reveal_strlit("");
    if tasks.len() > 0 {
        let front = tasks.drop_last();
        lemma_first_of_equals(front, agent);
        next_is_soonest(front, agent);
        if let Some(at) = next_task(tasks, agent) {
            assert forall|i: int| 0 <= i < at && open_to(#[trigger] tasks[i], agent) implies sooner(
                tasks[at],
                tasks[i],
            ) by {
                assert(tasks[i] == front[i]);
                lemma_open_is_claimable(tasks[i], agent);
                if at == front.len() {
                    let best = next_task(front, agent)->0;
                    assert(!sooner(front[i], front[best]));
                    lemma_sooner_than_later(tasks[at], front[best], front[i]);
                } else {
                    assert(tasks[at] == front[at]);
                }
            }
        }
    }
}

/// A task that is open to an agent is one that it may claim.
proof fn lemma_open_is_claimable(task: QueuedTaskView, agent: Seq<char>)
    ensures
        open_to(task, agent) == claimable(task, agent),
{
    reveal_strlit("");
    if task.assigned_to.len() == 0 {
        assert(task.assigned_to =~= ""@);
    }
}

/// What is sooner than a task is sooner than everything that is not.
proof fn lemma_sooner_than_later(a: QueuedTaskView, b: QueuedTaskView, c: QueuedTaskView)
    requires
        sooner(a, b),
        !sooner(c, b),
    ensures
        sooner(a, c),
{
    text_order_is_total(a.created_at, b.created_at);
    text_order_is_total(b.created_at, c.created_at);
    text_order_is_total(a.created_at, c.created_at);
    if a.priority == b.priority && b.priority == c.priority {
        if text_less(b.created_at, c.created_at) {
            text_order_is_transitive(a.created_at, b.created_at, c.created_at);
        }
    }
}

/// An agent claims a pending task that is for it or for anybody: of those the one with the
/// highest priority, of these the oldest, and of these the one that was posted first. It gets
/// none exactly if there is none.
pub proof fn claim_takes_the_first_in_line(
    tasks: Seq<QueuedTaskView>,
    agent: Seq<char>,
    i: int,
)
    requires
        0 <= i < tasks.len(),
        tasks[i].status == "pending"@,
        tasks[i].assigned_to == agent || tasks[i].assigned_to == ""@,
    ensures
        next_task(tasks, agent) matches Some(at) && {
            &&& 0 <= at < tasks.len()
            &&& tasks[at].status == "pending"@
            &&& tasks[at].assigned_to == agent || tasks[at].assigned_to == ""@
            &&& tasks[at].priority >= tasks[i].priority
            &&& tasks[at].priority == tasks[i].priority ==> !text_less(
                tasks[i].created_at,
                tasks[at].created_at,
            )
            &&& tasks[at].priority == tasks[i].priority && tasks[at].created_at
                == tasks[i].created_at ==> at <= i
        },
{
    lemma_open_is_claimable(tasks[i], agent);
    next_is_soonest(tasks, agent);
    lemma_first_of_equals(tasks, agent);
    if let Some(at) = next_task(tasks, agent) {
        lemma_open_is_claimable(tasks[at], agent);
        if i < at {
            assert(open_to(tasks[i], agent));
            assert(sooner(tasks[at], tasks[i]));
            text_order_is_total(tasks[i].created_at, tasks[i].created_at);
        }
    }
}

/// Where no task is pending for an agent, it claims none, and nothing changes.
pub proof fn nothing_to_claim(tasks: Seq<QueuedTaskView>, agent: Seq<char>)
    requires
        forall|i: int|
            0 <= i < tasks.len() ==> (#[trigger] tasks[i]).status != "pending"@ || (
            tasks[i].assigned_to != agent && tasks[i].assigned_to != ""@),
    ensures
        next_task(tasks, agent) is None,
        after_claim(tasks, agent) == tasks,
{
    next_is_soonest(tasks, agent);
    if let Some(at) = next_task(tasks, agent) {
        lemma_open_is_claimable(tasks[at], agent);
    }
}

/// Claiming changes the status and the agent of the claimed task, and nothing else.
pub proof fn claim_marks_one_task(tasks: Seq<QueuedTaskView>, agent: Seq<char>, at: int)
    requires
        next_task(tasks, agent) == Some(at),
    ensures
        ({
            let now = after_claim(tasks, agent);
            &&& now.len() == tasks.len()
            &&& 0 <= at < tasks.len()
            &&& now[at].status == "in_progress"@
            &&& now[at].assigned_to == agent
            &&& now[at].id == tasks[at].id
            &&& now[at].title == tasks[at].title
            &&& now[at].description == tasks[at].description
            &&& now[at].priority == tasks[at].priority
            &&& now[at].created_by == tasks[at].created_by
            &&& now[at].created_at == tasks[at].created_at
            &&& now[at].completed_at == tasks[at].completed_at
            &&& now[at].result == tasks[at].result
            &&& forall|i: int| 0 <= i < tasks.len() && i != at ==> #[trigger] now[i] == tasks[i]
            &&& claimed(tasks[at], agent) == now[at]
        }),
{
    next_is_soonest(tasks, agent);
}

/// Completing a task sets its status, its result and when it was completed, and nothing else; no
/// other task changes.
pub proof fn completion_marks_one_task(
    tasks: Seq<QueuedTaskView>,
    at: int,
    result: Seq<char>,
    date: Seq<char>,
)
    requires
        distinct_by(tasks, task_key()),
        0 <= at < tasks.len(),
    ensures
        ({
            let now = after_complete(tasks, tasks[at].id, result, date);
            &&& now.len() == tasks.len()
            &&& now[at].status == "completed"@
            &&& now[at].result == Some(result)
            &&& now[at].completed_at == Some(date)
            &&& now[at].id == tasks[at].id
            &&& now[at].title == tasks[at].title
            &&& now[at].description == tasks[at].description
            &&& now[at].priority == tasks[at].priority
            &&& now[at].assigned_to == tasks[at].assigned_to
            &&& now[at].created_by == tasks[at].created_by
            &&& now[at].created_at == tasks[at].created_at
            &&& forall|i: int| 0 <= i < tasks.len() && i != at ==> #[trigger] now[i] == tasks[i]
        }),
{
    row_is_found(tasks, task_key(), at);
    assert(after_complete(tasks, tasks[at].id, result, date) == stored(
        tasks,
        task_key(),
        completed(tasks[at], result, date),
    ));
}

/// An id that no task has completes nothing.
pub proof fn unknown_task_completes_nothing(
    tasks: Seq<QueuedTaskView>,
    id: Seq<char>,
    result: Seq<char>,
    date: Seq<char>,
)
    requires
        forall|i: int| 0 <= i < tasks.len() ==> (#[trigger] tasks[i]).id != id,
    ensures
        row_with(tasks, task_key(), id) is None,
        after_complete(tasks, id, result, date) == tasks,
{
    found_has_key(tasks, task_key(), id);
}

/// A list holds the tasks with the status that is asked for, or all of them, and no others; the
/// newest comes first.
pub proof fn list_holds_what_is_asked(
    tasks: Seq<QueuedTaskView>,
    status: Option<Seq<char>>,
    task: QueuedTaskView,
)
    ensures
        listed(tasks, status).contains(task) <==> tasks.contains(task) && match status {
            Some(s) => task.status == s,
            None => true,
        },
        distinct_by(tasks, task_key()) ==> forall|i: int, j: int|
            0 <= i < j < listed(tasks, status).len() ==> (#[trigger] listed(tasks, status)[i]).id
                != (#[trigger] listed(tasks, status)[j]).id,
        forall|i: int, j: int|
            0 <= i < j < listed(tasks, status).len() ==> !text_less(
                (#[trigger] listed(tasks, status)[i]).created_at,
                (#[trigger] listed(tasks, status)[j]).created_at,
            ),
{
    let pick = with_status(status);
    selection_holds_picked(tasks, pick, posting_date(), true, task);
    selection_is_sorted(tasks, pick, posting_date(), true, task_key());
    let all = listed(tasks, status);
    assert forall|i: int, j: int| 0 <= i < j < all.len() implies !text_less(
        (#[trigger] all[i]).created_at,
        (#[trigger] all[j]).created_at,
    ) by {
        assert(!comes_first(
            posting_date()(all[j]),
            posting_date()(all[i]),
            true,
        ));
    }
    if distinct_by(tasks, task_key()) {
        assert forall|i: int, j: int| 0 <= i < j < all.len() implies (#[trigger] all[i]).id != (
        #[trigger] all[j]).id by {
            assert(task_key()(all[i]) != task_key()(all[j]));
        }
    }
}

/// A task for nobody in particular, or by nobody, has the empty text there; a status that is given
/// is the one that is asked for.
pub proof fn missing_texts_are_empty(text: Option<&str>)
    ensures
        match text {
            Some(s) => text_or_empty(text) == s@ && status_filter(text) == Some(s@),
            None => text_or_empty(text).len() == 0 && status_filter(text) is None,
        },
{
    reveal_strlit("");
}

} // verus!
