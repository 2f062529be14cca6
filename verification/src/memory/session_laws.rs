//! Laws of sessions, stated on their fields: who owns them, how they are labelled, and which of
//! them descend from another.

use crate::ids::{AgentId, SessionId, UserId};
use crate::memory::sessions::{
    fresh_session, in_tree, labelled, leads_to, of_agent, rewritten, session_key, session_with,
    unowned, Session, SessionView,
};
use crate::memory::table::{
    by_key, distinct_by, first, first_finds, found, found_has_key, others, row_is_found,
};
use crate::message::Message;
use crate::text::optional_text;
use vstd::prelude::*;

verus! {

/// What is stated of a session and of a message speaks of their fields.
pub proof fn sessions_show_their_fields(session: Session, message: Message)
    ensures
        session@.id == session.id,
        session@.agent_id == session.agent_id,
        session@.user_id == session.user_id,
        session@.messages.len() == session.messages@.len(),
        forall|i: int|
            0 <= i < session.messages@.len() ==> #[trigger] session@.messages[i]
                == session.messages@[i]@,
        session@.context_window_tokens == session.context_window_tokens,
        session@.label == optional_text(session.label),
        session@.parent_session_id == session.parent_session_id,
        message@.role == message.role,
        message@.content == message.content@,
        message@.source == message.source,
{
}

/// A new session has the id, the agent and the owner that were given, and is otherwise empty.
pub proof fn new_session_is_empty(id: SessionId, agent: AgentId, user: UserId)
    ensures
        ({
            let session = fresh_session(id, agent, user);
            &&& session.id == id
            &&& session.agent_id == agent
            &&& session.user_id == user
            &&& session.messages.len() == 0
            &&& session.context_window_tokens == 0
            &&& session.label is None
            &&& session.parent_session_id is None
        }),
{
}

/// A session is found by its id, and an id that no session has finds none.
pub proof fn session_is_found_by_id(sessions: Seq<SessionView>, i: int, id: SessionId)
    requires
        distinct_by(sessions, session_key()),
        0 <= i < sessions.len(),
    ensures
        session_with(sessions, sessions[i].id) == Some(sessions[i]),
        (forall|k: int| 0 <= k < sessions.len() ==> (#[trigger] sessions[k]).id != id)
            ==> session_with(sessions, id) is None,
{
    row_is_found(sessions, session_key(), i);
    found_has_key(sessions, session_key(), id);
}

/// Giving away the sessions of the nil user gives each of them the new owner and leaves the rest
/// of it as it was; the sessions of other users stay as they were.
pub proof fn only_unowned_sessions_are_given_away(
    sessions: Seq<SessionView>,
    target: UserId,
    i: int,
)
    requires
        0 <= i < sessions.len(),
    ensures
        ({
            let now = rewritten(sessions, target);
            &&& now.len() == sessions.len()
            &&& sessions[i].user_id != UserId(0) ==> now[i] == sessions[i]
            &&& sessions[i].user_id == UserId(0) ==> now[i].user_id == target
            &&& now[i].id == sessions[i].id
            &&& now[i].agent_id == sessions[i].agent_id
            &&& now[i].messages == sessions[i].messages
            &&& now[i].context_window_tokens == sessions[i].context_window_tokens
            &&& now[i].label == sessions[i].label
            &&& now[i].parent_session_id == sessions[i].parent_session_id
        }),
{
}

/// The number of sessions that are given away is the number of those that the nil user owns.
pub proof fn unowned_sessions_are_counted(sessions: Seq<SessionView>)
    ensures
        unowned(sessions) == sessions.filter(|s: SessionView| s.user_id == UserId(0)).len(),
    decreases sessions.len(),
{
    reveal(Seq::filter);
    if sessions.len() > 0 {
        unowned_sessions_are_counted(sessions.drop_last());
    }
}

/// A label finds the first session of the agent that has it, and none if no session of the agent
/// has it.
pub proof fn label_finds_first_session(
    sessions: Seq<SessionView>,
    agent: AgentId,
    label: Seq<char>,
)
    ensures
        match found(sessions, labelled(agent, label)) {
            Some(session) => exists|i: int|
                {
                    &&& 0 <= i < sessions.len()
                    &&& #[trigger] sessions[i] == session
                    &&& session.agent_id == agent
                    &&& session.label == Some(label)
                    &&& forall|k: int|
                        0 <= k < i ==> (#[trigger] sessions[k]).agent_id != agent
                            || sessions[k].label != Some(label)
                },
            None => forall|k: int|
                0 <= k < sessions.len() ==> (#[trigger] sessions[k]).agent_id != agent
                    || sessions[k].label != Some(label),
        },
{
    let pick = labelled(agent, label);
    first_finds(sessions, pick);
    let at = first(sessions, pick);
    assert forall|k: int| 0 <= k < at implies (#[trigger] sessions[k]).agent_id != agent
        || sessions[k].label != Some(label) by {
        assert(!pick(sessions[k]));
    }
    if at < sessions.len() {
        assert(sessions[at] == found(sessions, pick)->0);
    }
}

/// Deleting the sessions of an agent deletes all of them, and no other.
pub proof fn deletion_takes_sessions_of_agent(
    sessions: Seq<SessionView>,
    agent: AgentId,
    session: SessionView,
)
    ensures
        sessions.filter(others(of_agent(agent))).contains(session) <==> sessions.contains(session)
            && session.agent_id != agent,
{
    lemma_kept(sessions, others(of_agent(agent)), session);
}

/// What a filter keeps.
proof fn lemma_kept(
    sessions: Seq<SessionView>,
    keep: spec_fn(SessionView) -> bool,
    session: SessionView,
)
    ensures
        sessions.filter(keep).contains(session) <==> sessions.contains(session) && keep(session),
{
    broadcast use vstd::seq_lib::group_filter_ensures;

    let kept = sessions.filter(keep);
    if kept.contains(session) {
        sessions.lemma_filter_contains_rev(keep, session);
        let i = choose|i: int| 0 <= i < kept.len() && kept[i] == session;
        assert(keep(kept[i]));
    }
    if sessions.contains(session) && keep(session) {
        let i = choose|i: int| 0 <= i < sessions.len() && sessions[i] == session;
        assert(kept.contains(sessions[i]));
    }
}

/// The session that is so many steps up from another: its parent is one step up, the parent of
/// that one two, and so on.
pub open spec fn ancestor(sessions: Seq<SessionView>, id: SessionId, steps: nat) -> Option<
    SessionId,
>
    decreases steps,
{
    if steps == 0 {
        Some(id)
    } else {
        match ancestor(sessions, id, (steps - 1) as nat) {
            Some(below) => match session_with(sessions, below) {
                Some(session) => session.parent_session_id,
                None => None,
            },
            None => None,
        }
    }
}

/// Going up in two parts.
proof fn lemma_ancestor_on(sessions: Seq<SessionView>, id: SessionId, a: nat, b: nat)
    ensures
        match ancestor(sessions, id, a) {
            Some(middle) => ancestor(sessions, id, a + b) == ancestor(sessions, middle, b),
            None => ancestor(sessions, id, a + b) is None,
        },
    decreases b,
{
    if b > 0 {
        lemma_ancestor_on(sessions, id, a, (b - 1) as nat);
        assert((a + b - 1) as nat == a + (b - 1) as nat);
    }
}

/// A chain of parents leads to a session exactly if that is an ancestor.
proof fn lemma_leads_to(sessions: Seq<SessionView>, id: SessionId, root: SessionId, steps: nat)
    ensures
        leads_to(sessions, id, root, steps) <==> exists|k: nat|
            k <= steps && #[trigger] ancestor(sessions, id, k) == Some(root),
    decreases steps,
{
    assert(ancestor(sessions, id, 0) == Some(id));
    if id != root && steps > 0 {
        let parent = match session_with(sessions, id) {
            Some(session) => session.parent_session_id,
            None => None,
        };
        reveal_with_fuel(ancestor, 2);
        assert(ancestor(sessions, id, 1) == parent);
        if let Some(above) = parent {
            lemma_leads_to(sessions, above, root, (steps - 1) as nat);
            if leads_to(sessions, above, root, (steps - 1) as nat) {
                let k = choose|k: nat|
                    k <= steps - 1 && #[trigger] ancestor(sessions, above, k) == Some(root);
                lemma_ancestor_on(sessions, id, 1, k);
                assert(ancestor(sessions, id, 1 + k) == Some(root));
            }
        }
        if exists|k: nat| k <= steps && #[trigger] ancestor(sessions, id, k) == Some(root) {
            let k = choose|k: nat|
                k <= steps && #[trigger] ancestor(sessions, id, k) == Some(root);
            assert(k > 0);
            lemma_ancestor_on(sessions, id, 1, (k - 1) as nat);
            assert(ancestor(sessions, id, k) == ancestor(sessions, parent->0, (k - 1) as nat));
        }
    }
    if steps == 0 && (exists|k: nat|
        k <= steps && #[trigger] ancestor(sessions, id, k) == Some(root)) {
        assert(ancestor(sessions, id, 0) == Some(root));
    }
}

/// The place of the session that is so many steps up.
spec fn place_of(sessions: Seq<SessionView>, id: SessionId, steps: nat) -> int {
    first(sessions, by_key(session_key(), ancestor(sessions, id, steps)->0))
}

/// The nearest way up to a session has no more steps than there are sessions.
proof fn lemma_nearest(sessions: Seq<SessionView>, id: SessionId, root: SessionId, steps: nat)
    requires
        ancestor(sessions, id, steps) == Some(root),
        forall|j: nat| j < steps ==> #[trigger] ancestor(sessions, id, j) != Some(root),
    ensures
        steps <= sessions.len(),
{
    let places = Seq::new(steps, |j: int| place_of(sessions, id, j as nat));
    assert forall|j: int| 0 <= j < steps implies 0 <= #[trigger] places[j] < sessions.len() && (
    ancestor(sessions, id, j as nat) matches Some(a) && sessions[places[j]].id == a) by {
        let n = j as nat;
        lemma_ancestor_on(sessions, id, n, (steps - n) as nat);
        assert(n + (steps - n) as nat == steps);
        assert(ancestor(sessions, id, n) is Some);
        let a = ancestor(sessions, id, n)->0;
        lemma_ancestor_on(sessions, id, n + 1, (steps - n - 1) as nat);
        assert((n + 1) + (steps - n - 1) as nat == steps);
        assert(ancestor(sessions, id, n + 1) is Some);
        assert(session_with(sessions, a) is Some);
        first_finds(sessions, by_key(session_key(), a));
    }
    assert forall|i: int, j: int| 0 <= i < places.len() && 0 <= j < places.len() && i
        != j implies #[trigger] places[i] != #[trigger] places[j] by {
        if places[i] == places[j] {
            let (low, high) = if i < j {
                (i as nat, j as nat)
            } else {
                (j as nat, i as nat)
            };
            assert(ancestor(sessions, id, low) == ancestor(sessions, id, high));
            let rest = (steps - high) as nat;
            lemma_ancestor_on(sessions, id, low, rest);
            lemma_ancestor_on(sessions, id, high, rest);
            assert(high + rest == steps);
            assert(ancestor(sessions, id, low + rest) == Some(root));
            assert(low + rest < steps);
        }
    }
    assert(places.no_duplicates());
    places.unique_seq_to_set();
    let range = vstd::set_lib::set_int_range(0, sessions.len() as int);
    vstd::set_lib::lemma_int_range(0, sessions.len() as int);
    assert forall|p: int| places.to_set().contains(p) implies range.contains(p) by {
        let j = choose|j: int| 0 <= j < places.len() && places[j] == p;
        assert(0 <= places[j] < sessions.len());
    }
    vstd::set_lib::lemma_len_subset(places.to_set(), range);
}

/// The least number of steps that lead to a session.
proof fn lemma_least(sessions: Seq<SessionView>, id: SessionId, root: SessionId, steps: nat) -> (r:
    nat)
    requires
        ancestor(sessions, id, steps) == Some(root),
    ensures
        r <= steps,
        ancestor(sessions, id, r) == Some(root),
        forall|j: nat| j < r ==> #[trigger] ancestor(sessions, id, j) != Some(root),
    decreases steps,
{
    if exists|j: nat| j < steps && #[trigger] ancestor(sessions, id, j) == Some(root) {
        let j = choose|j: nat| j < steps && #[trigger] ancestor(sessions, id, j) == Some(root);
        lemma_least(sessions, id, root, j)
    } else {
        steps
    }
}

/// The tree of a session is the session itself and all that descend from it, however far: those
/// that have it among their ancestors.
pub proof fn tree_is_all_descendants(
    sessions: Seq<SessionView>,
    root: SessionId,
    session: SessionView,
)
    ensures
        in_tree(sessions, root)(session) <==> exists|steps: nat| #[trigger]
            ancestor(sessions, session.id, steps) == Some(root),
{
    lemma_leads_to(sessions, session.id, root, sessions.len());
    if exists|steps: nat| #[trigger] ancestor(sessions, session.id, steps) == Some(root) {
        let steps = choose|steps: nat| #[trigger]
            ancestor(sessions, session.id, steps) == Some(root);
        let least = lemma_least(sessions, session.id, root, steps);
        lemma_nearest(sessions, session.id, root, least);
        assert(least <= sessions.len());
    }
}

/// Deleting the tree of a session deletes the session and each one whose parent is deleted; and
/// every session that is deleted beside it has a parent that is deleted or is the root.
pub proof fn deleted_parent_takes_children(
    sessions: Seq<SessionView>,
    root: SessionId,
    parent: SessionView,
    child: SessionView,
)
    requires
        distinct_by(sessions, session_key()),
        sessions.contains(parent),
        sessions.contains(child),
        child.parent_session_id == Some(parent.id),
    ensures
        ({
            let left = sessions.filter(others(in_tree(sessions, root)));
            &&& !left.contains(parent) ==> !left.contains(child)
            &&& child.id != root && !left.contains(child) ==> !left.contains(parent)
            &&& parent.id == root ==> !left.contains(parent) && !left.contains(child)
        }),
{
    let keep = others(in_tree(sessions, root));
    lemma_kept(sessions, keep, parent);
    lemma_kept(sessions, keep, child);
    tree_is_all_descendants(sessions, root, parent);
    tree_is_all_descendants(sessions, root, child);
    let at = choose|p: int| 0 <= p < sessions.len() && sessions[p] == child;
    row_is_found(sessions, session_key(), at);
    reveal_with_fuel(ancestor, 2);
    assert(ancestor(sessions, child.id, 1) == Some(parent.id));
    assert(ancestor(sessions, parent.id, 0) == Some(parent.id));
    if exists|steps: nat| #[trigger] ancestor(sessions, parent.id, steps) == Some(root) {
        let steps = choose|steps: nat| #[trigger]
            ancestor(sessions, parent.id, steps) == Some(root);
        lemma_ancestor_on(sessions, child.id, 1, steps);
        assert(ancestor(sessions, child.id, 1 + steps) == Some(root));
    }
    if child.id != root && (exists|steps: nat| #[trigger]
        ancestor(sessions, child.id, steps) == Some(root)) {
        let steps = choose|steps: nat| #[trigger]
            ancestor(sessions, child.id, steps) == Some(root);
        assert(steps > 0);
        lemma_ancestor_on(sessions, child.id, 1, (steps - 1) as nat);
        assert(ancestor(sessions, parent.id, (steps - 1) as nat) == Some(root));
    }
}

} // verus!
