//! Sessions: conversations of a user with an agent.

use crate::error::OpenFangResult;
use crate::ids::{is_random_uuid, AgentId, SessionId, UserId};
use crate::memory::table::{
    by_key, distinct_by, drop_picked, find_first, first, first_finds, found, found_has_key,
    kept_is_found, others, picked, row_is_found, row_with, stored, stored_is_found, views, Choice,
};
use crate::message::{Message, MessageTextView};
use crate::text::{copy_optional, optional_text, same_text};
use vstd::prelude::*;

verus! {

/// A session.
#[derive(Debug)]
pub struct Session {
    pub id: SessionId,
    pub agent_id: AgentId,
    /// The owning user; the nil user for unattributed sessions.
    pub user_id: UserId,
    pub messages: Vec<Message>,
    pub context_window_tokens: u64,
    /// Human-readable label.
    pub label: Option<String>,
    /// The session that this one was forked off.
    pub parent_session_id: Option<SessionId>,
}

/// What a session holds.
pub struct SessionView {
    pub id: SessionId,
    pub agent_id: AgentId,
    pub user_id: UserId,
    pub messages: Seq<MessageTextView>,
    pub context_window_tokens: u64,
    pub label: Option<Seq<char>>,
    pub parent_session_id: Option<SessionId>,
}

impl View for Session {
    type V = SessionView;

    open spec fn view(&self) -> SessionView {
        SessionView {
            id: self.id,
            agent_id: self.agent_id,
            user_id: self.user_id,
            messages: views(self.messages@),
            context_window_tokens: self.context_window_tokens,
            label: optional_text(self.label),
            parent_session_id: self.parent_session_id,
        }
    }
}

impl Clone for Session {
    fn clone(&self) -> (r: Self)
        ensures
            r@ == self@,
    {
        let messages: Vec<Message> = self.messages.clone();
        assert(views(messages@) =~= views(self.messages@));
        Session {
            id: self.id,
            agent_id: self.agent_id,
            user_id: self.user_id,
            messages,
            context_window_tokens: self.context_window_tokens,
            label: copy_optional(&self.label),
            parent_session_id: self.parent_session_id,
        }
    }
}

/// What an optional session holds.
pub open spec fn optional_session(session: Option<Session>) -> Option<SessionView> {
    match session {
        Some(s) => Some(s@),
        None => None,
    }
}

/// What a session is found by.
pub open spec fn session_key() -> spec_fn(SessionView) -> SessionId {
    |session: SessionView| session.id
}

/// The session with an id.
pub open spec fn session_with(sessions: Seq<SessionView>, id: SessionId) -> Option<SessionView> {
    row_with(sessions, session_key(), id)
}

/// A new session.
pub open spec fn fresh_session(id: SessionId, agent: AgentId, user: UserId) -> SessionView {
    SessionView {
        id,
        agent_id: agent,
        user_id: user,
        messages: Seq::empty(),
        context_window_tokens: 0,
        label: None,
        parent_session_id: None,
    }
}

/// A session with another owner if the nil user owns it.
pub open spec fn with_owner(session: SessionView, target: UserId) -> SessionView {
    if session.user_id == UserId(0) {
        SessionView { user_id: target, ..session }
    } else {
        session
    }
}

/// The sessions after those of the nil user were given to another.
pub open spec fn rewritten(sessions: Seq<SessionView>, target: UserId) -> Seq<SessionView> {
    sessions.map_values(|s: SessionView| with_owner(s, target))
}

/// How many sessions the nil user owns.
pub open spec fn unowned(sessions: Seq<SessionView>) -> nat
    decreases sessions.len(),
{
    if sessions.len() == 0 {
        0
    } else if sessions.last().user_id == UserId(0) {
        unowned(sessions.drop_last()) + 1
    } else {
        unowned(sessions.drop_last())
    }
}

/// Picks the sessions of an agent.
pub open spec fn of_agent(agent: AgentId) -> spec_fn(SessionView) -> bool {
    |session: SessionView| session.agent_id == agent
}

/// Picks the sessions of an agent with a label.
pub open spec fn labelled(agent: AgentId, label: Seq<char>) -> spec_fn(SessionView) -> bool {
    |session: SessionView| session.agent_id == agent && session.label == Some(label)
}

/// Whether the chain of parents from `id` leads to `root` in at most `steps` steps.
pub open spec fn leads_to(
    sessions: Seq<SessionView>,
    id: SessionId,
    root: SessionId,
    steps: nat,
) -> bool
    decreases steps,
{
    id == root || (steps > 0 && match session_with(sessions, id) {
        Some(session) => match session.parent_session_id {
            Some(parent) => leads_to(sessions, parent, root, (steps - 1) as nat),
            None => false,
        },
        None => false,
    })
}

/// Picks the sessions of the tree that is rooted at `root`: the session itself and all that
/// descend from it.
pub open spec fn in_tree(sessions: Seq<SessionView>, root: SessionId) -> spec_fn(
    SessionView,
) -> bool {
    |session: SessionView| leads_to(sessions, session.id, root, sessions.len())
}

/// Picks one session.
struct OneSession {
    id: SessionId,
}

impl Choice<Session> for OneSession {
    closed spec fn picks(&self, row: SessionView) -> bool {
        row.id == self.id
    }

    fn pick(&self, row: &Session) -> bool {
        row.id == self.id
    }
}

/// Picks the sessions of an agent.
struct AgentSessions {
    agent: AgentId,
}

impl Choice<Session> for AgentSessions {
    closed spec fn picks(&self, row: SessionView) -> bool {
        row.agent_id == self.agent
    }

    fn pick(&self, row: &Session) -> bool {
        row.agent_id == self.agent
    }
}

/// Picks the sessions of an agent with a label.
struct LabelledSessions<'a> {
    agent: AgentId,
    label: &'a str,
}

impl<'a> Choice<Session> for LabelledSessions<'a> {
    closed spec fn picks(&self, row: SessionView) -> bool {
        row.agent_id == self.agent && row.label == Some(self.label@)
    }

    fn pick(&self, row: &Session) -> bool {
        row.agent_id == self.agent && match &row.label {
            Some(label) => same_text(label.as_str(), self.label),
            None => false,
        }
    }
}

/// Picks the sessions whose ids are listed.
struct ListedSessions {
    ids: Vec<SessionId>,
    all: Ghost<Seq<SessionView>>,
    root: Ghost<SessionId>,
}

impl ListedSessions {
    /// Whether exactly the ids of the tree are listed.
    spec fn complete(&self) -> bool {
        forall|id: SessionId| #[trigger]
            self.ids@.contains(id) <==> (exists|i: int|
                0 <= i < self.all@.len() && (#[trigger] self.all@[i]).id == id && in_tree(
                    self.all@,
                    self.root@,
                )(self.all@[i]))
    }
}

impl Choice<Session> for ListedSessions {
    closed spec fn picks(&self, row: SessionView) -> bool {
        self.ids@.contains(row.id)
    }

    fn pick(&self, row: &Session) -> bool {
        let mut i: usize = 0;
        while i < self.ids.len()
            invariant
                i <= self.ids.len(),
                forall|j: int| 0 <= j < i ==> (#[trigger] self.ids@[j]) != row.id,
            decreases self.ids.len() - i,
        {
            if self.ids[i] == row.id {
                assert(self.ids@[i as int] == row.id);
                return true;
            }
            i = i + 1;
        }
        false
    }
}

/// The sessions.
#[derive(Debug)]
pub struct SessionStore {
    rows: Vec<Session>,
}

impl SessionStore {
    /// The sessions, in the order in which they were created.
    pub closed spec fn rows(&self) -> Seq<SessionView> {
        views(self.rows@)
    }

    /// No two sessions have one id.
    #[verifier::type_invariant]
    spec fn well_formed(&self) -> bool {
        distinct_by(views(self.rows@), session_key())
    }

    /// No sessions.
    pub fn new() -> (r: Self)
        ensures
            r.rows() == Seq::<SessionView>::empty(),
    {
        let r = SessionStore { rows: Vec::new() };
        assert(r.rows() =~= Seq::<SessionView>::empty());
        r
    }

    /// A copy of every session.
    pub fn all_rows(&self) -> (r: Vec<Session>)
        ensures
            views(r@) == self.rows(),
            distinct_by(self.rows(), session_key()),
    {
        proof {
            use_type_invariant(self);
        }
        let r: Vec<Session> = self.rows.clone();
        assert(views(r@) =~= views(self.rows@));
        r
    }

    /// The position of a session, or the number of sessions if there is none.
    fn find(&self, id: SessionId) -> (r: usize)
        ensures
            r == first(self.rows(), by_key(session_key(), id)),
            r <= self.rows@.len(),
    {
        let choice = OneSession { id };
        assert(picked::<Session, OneSession>(choice) =~= by_key(session_key(), id));
        find_first(&self.rows, &choice)
    }

    /// Get a session by ID.
    pub fn get_session(&self, session_id: SessionId) -> (r: OpenFangResult<Option<Session>>)
        ensures
            r matches Ok(got) && optional_session(got) == session_with(self.rows(), session_id),
    {
        let at: usize = self.find(session_id);
        if at < self.rows.len() {
            Ok(Some(self.rows[at].clone()))
        } else {
            Ok(None)
        }
    }

    /// The owner and the agent of a session.
    pub fn owner_of(&self, session_id: SessionId) -> (r: Option<(UserId, AgentId)>)
        ensures
            r == match session_with(self.rows(), session_id) {
                Some(session) => Some((session.user_id, session.agent_id)),
                None => None,
            },
    {
        let at: usize = self.find(session_id);
        if at < self.rows.len() {
            Some((self.rows[at].user_id, self.rows[at].agent_id))
        } else {
            None
        }
    }

    /// Save a session: it replaces the one with its id, or is added.
    pub fn save_session(&mut self, session: &Session) -> (r: OpenFangResult<()>)
        ensures
            r is Ok,
            final(self).rows() == stored(old(self).rows(), session_key(), session@),
    {
        proof {
            use_type_invariant(&*self);
            stored_is_found(self.rows(), session_key(), session@, session@.id);
        }
        let at: usize = self.find(session.id);
        let mut rows: Vec<Session> = Vec::new();
        std::mem::swap(&mut rows, &mut self.rows);
        let ghost before = views(rows@);
        if at < rows.len() {
            rows.set(at, session.clone());
            assert(views(rows@) =~= before.update(at as int, session@));
        } else {
            rows.push(session.clone());
            assert(views(rows@) =~= before.push(session@));
        }
        self.rows = rows;
        Ok(())
    }

    /// Create a new empty session under `id` for an agent owned by `user_id`.
    pub fn create_session_as(&mut self, id: SessionId, agent_id: AgentId, user_id: UserId) -> (r:
        Session)
        ensures
            r@ == fresh_session(id, agent_id, user_id),
            final(self).rows() == stored(
                old(self).rows(),
                session_key(),
                fresh_session(id, agent_id, user_id),
            ),
    {
        let session = Session {
            id,
            agent_id,
            user_id,
            messages: Vec::new(),
            context_window_tokens: 0,
            label: None,
            parent_session_id: None,
        };
        assert(session@.messages =~= Seq::empty());
        let _ = self.save_session(&session);
        session
    }

    /// Create a new empty session for an agent owned by `user_id`, under a fresh id.
    pub fn create_session(&mut self, agent_id: AgentId, user_id: UserId) -> (r: OpenFangResult<
        Session,
    >)
        ensures
            r matches Ok(session) && is_random_uuid(session.id.0) && session@ == fresh_session(
                session.id,
                agent_id,
                user_id,
            ) && final(self).rows() == stored(old(self).rows(), session_key(), session@),
    {
        Ok(self.create_session_as(SessionId::new(), agent_id, user_id))
    }

    /// Drop the rows that are picked. Returns how many there were.
    fn drop_rows<C: Choice<Session>>(&mut self, choice: &C) -> (r: usize)
        ensures
            final(self).rows() == old(self).rows().filter(others(picked::<Session, C>(*choice))),
            r == old(self).rows().len() - final(self).rows().len(),
    {
        proof {
            use_type_invariant(&*self);
            kept_is_found(
                self.rows(),
                session_key(),
                others(picked::<Session, C>(*choice)),
                SessionId(0),
            );
        }
        let mut rows: Vec<Session> = Vec::new();
        std::mem::swap(&mut rows, &mut self.rows);
        let before: usize = rows.len();
        let kept: Vec<Session> = drop_picked(rows, choice);
        let after: usize = kept.len();
        self.rows = kept;
        before - after
    }

    /// Delete a session by ID.
    pub fn delete_session(&mut self, session_id: SessionId) -> (r: OpenFangResult<()>)
        ensures
            r is Ok,
            final(self).rows() == old(self).rows().filter(
                others(by_key(session_key(), session_id)),
            ),
    {
        let choice = OneSession { id: session_id };
        assert(picked::<Session, OneSession>(choice) =~= by_key(session_key(), session_id));
        self.drop_rows(&choice);
        Ok(())
    }

    /// Delete all sessions belonging to an agent.
    pub fn delete_agent_sessions(&mut self, agent_id: AgentId) -> (r: OpenFangResult<()>)
        ensures
            r is Ok,
            final(self).rows() == old(self).rows().filter(others(of_agent(agent_id))),
    {
        let choice = AgentSessions { agent: agent_id };
        assert(picked::<Session, AgentSessions>(choice) =~= of_agent(agent_id));
        self.drop_rows(&choice);
        Ok(())
    }

    /// Set or clear a session label. Nothing happens if the session does not exist.
    pub fn set_session_label(&mut self, session_id: SessionId, label: Option<&str>) -> (r:
        OpenFangResult<()>)
        ensures
            r is Ok,
            final(self).rows() == match session_with(old(self).rows(), session_id) {
                Some(session) => stored(
                    old(self).rows(),
                    session_key(),
                    SessionView {
                        label: match label {
                            Some(s) => Some(s@),
                            None => None,
                        },
                        ..session
                    },
                ),
                None => old(self).rows(),
            },
    {
        let at: usize = self.find(session_id);
        if at < self.rows.len() {
            let mut session: Session = self.rows[at].clone();
            session.label = match label {
                Some(s) => Some(s.to_string()),
                None => None,
            };
            let _ = self.save_session(&session);
        }
        Ok(())
    }

    /// Find a session by label for a given agent: the oldest one with the label.
    pub fn find_session_by_label(&self, agent_id: AgentId, label: &str) -> (r: OpenFangResult<
        Option<Session>,
    >)
        ensures
            r matches Ok(got) && optional_session(got) == found(
                self.rows(),
                labelled(agent_id, label@),
            ),
    {
        let choice = LabelledSessions { agent: agent_id, label };
        assert(picked::<Session, LabelledSessions>(choice) =~= labelled(agent_id, label@));
        let at: usize = find_first(&self.rows, &choice);
        if at < self.rows.len() {
            Ok(Some(self.rows[at].clone()))
        } else {
            Ok(None)
        }
    }

    /// Rewrite all sessions that are still tagged with the nil-UUID owner to the given `target`
    /// user. Returns the number of sessions updated.
    pub fn rewrite_nil_user_sessions(&mut self, target: UserId) -> (r: OpenFangResult<usize>)
        ensures
            final(self).rows() == rewritten(old(self).rows(), target),
            r matches Ok(n) && n == unowned(old(self).rows()),
    {
        proof {
            use_type_invariant(&*self);
        }
        let mut rows: Vec<Session> = Vec::new();
        std::mem::swap(&mut rows, &mut self.rows);
        let ghost before = views(rows@);
        let total: usize = rows.len();
        let mut out: Vec<Session> = Vec::new();
        let mut n: usize = 0;
        assert(before.take(0) =~= Seq::empty());
        assert(views(out@) =~= rewritten(before.take(0), target));
        for session in it: rows
            invariant
                before == views(it.seq()),
                views(out@) == rewritten(before.take(it.index() as int), target),
                n == unowned(before.take(it.index() as int)),
                n <= it.index(),
                it.seq().len() == total,
        {
            let ghost done = before.take(it.index() as int);
            let ghost next = before.take(it.index() + 1);
            assert(next.drop_last() =~= done);
            assert(next =~= done.push(session@));
            let ghost held = out@;
            let mut session: Session = session;
            if session.user_id == UserId(0) {
                session.user_id = target;
                n = n + 1;
            }
            out.push(session);
            assert(views(out@) =~= views(held).push(session@));
            assert(rewritten(done.push(next.last()), target) =~= rewritten(done, target).push(
                with_owner(next.last(), target),
            ));
        }
        assert(before.take(before.len() as int) =~= before);
        assert(distinct_by(views(out@), session_key())) by {
            let now = views(out@);
            assert forall|i: int, j: int| 0 <= i < j < now.len() implies session_key()(
                #[trigger] now[i],
            ) != session_key()(#[trigger] now[j]) by {
                assert(now[i].id == before[i].id);
                assert(now[j].id == before[j].id);
            }
        }
        self.rows = out;
        Ok(n)
    }

    /// Whether the chain of parents from `id` leads to `root` in at most `steps` steps.
    fn is_under(&self, id: SessionId, root: SessionId, steps: usize) -> (r: bool)
        ensures
            r == leads_to(self.rows(), id, root, steps as nat),
        decreases steps,
    {
        if id == root {
            return true;
        }
        if steps == 0 {
            return false;
        }
        let at: usize = self.find(id);
        if at < self.rows.len() {
            match self.rows[at].parent_session_id {
                Some(parent) => self.is_under(parent, root, steps - 1),
                None => false,
            }
        } else {
            false
        }
    }

    /// Delete the session subtree rooted at `session_id` (the session itself
    /// plus any descendants linked via `parent_session_id`). Returns the
    /// number of sessions removed.
    pub fn delete_session_tree(&mut self, session_id: SessionId) -> (r: OpenFangResult<usize>)
        ensures
            final(self).rows() == old(self).rows().filter(
                others(in_tree(old(self).rows(), session_id)),
            ),
            r matches Ok(n) && n == old(self).rows().len() - final(self).rows().len(),
    {
        let ghost all = self.rows();
        let ghost pick = in_tree(all, session_id);
        proof {
            use_type_invariant(&*self);
        }
        let n: usize = self.rows.len();
        let mut ids: Vec<SessionId> = Vec::new();
        let mut i: usize = 0;
        while i < n
            invariant
                i <= n,
                n == self.rows@.len(),
                *self == *old(self),
                all == views(self.rows@),
                pick == in_tree(all, session_id),
                forall|id: SessionId| #[trigger]
                    ids@.contains(id) <==> (exists|k: int|
                        0 <= k < i && (#[trigger] all[k]).id == id && pick(all[k])),
            decreases n - i,
        {
            let id: SessionId = self.rows[i].id;
            let ghost held = ids@;
            assert(all[i as int].id == id);
            if self.is_under(id, session_id, n) {
                ids.push(id);
                assert forall|x: SessionId| #[trigger]
                    ids@.contains(x) <==> (exists|k: int|
                        0 <= k < i + 1 && (#[trigger] all[k]).id == x && pick(all[k])) by {
                    if ids@.contains(x) {
                        let p = choose|p: int| 0 <= p < ids@.len() && ids@[p] == x;
                        if p == held.len() {
                            assert(all[i as int].id == x && pick(all[i as int]));
                        } else {
                            assert(held[p] == x);
                            assert(held.contains(x));
                        }
                    }
                    if exists|k: int|
                        0 <= k < i + 1 && (#[trigger] all[k]).id == x && pick(all[k]) {
                        let k = choose|k: int|
                            0 <= k < i + 1 && (#[trigger] all[k]).id == x && pick(all[k]);
                        if k == i {
                            assert(ids@[held.len() as int] == x);
                        } else {
                            assert(held.contains(x));
                            let p = choose|p: int| 0 <= p < held.len() && held[p] == x;
                            assert(ids@[p] == x);
                        }
                    }
                }
            } else {
                assert(!pick(all[i as int]));
            }
            i = i + 1;
        }
        let choice = ListedSessions { ids, all: Ghost(all), root: Ghost(session_id) };
        let removed: usize = self.drop_rows(&choice);
        proof {
            lemma_same_filter(
                all,
                others(picked::<Session, ListedSessions>(choice)),
                others(pick),
                all,
                choice,
            );
        }
        Ok(removed)
    }
}

/// Dropping the listed sessions drops the tree.
proof fn lemma_same_filter(
    rows: Seq<SessionView>,
    listed: spec_fn(SessionView) -> bool,
    outside: spec_fn(SessionView) -> bool,
    all: Seq<SessionView>,
    choice: ListedSessions,
)
    requires
        choice.all@ == all,
        choice.complete(),
        distinct_by(all, session_key()),
        listed == others(picked::<Session, ListedSessions>(choice)),
        outside == others(in_tree(all, choice.root@)),
        forall|i: int| 0 <= i < rows.len() ==> all.contains(#[trigger] rows[i]),
    ensures
        rows.filter(listed) == rows.filter(outside),
    decreases rows.len(),
{
    reveal(Seq::filter);
    if rows.len() > 0 {
        let front = rows.drop_last();
        assert forall|i: int| 0 <= i < front.len() implies all.contains(#[trigger] front[i]) by {
            assert(front[i] == rows[i]);
        }
        lemma_same_filter(front, listed, outside, all, choice);
        let last = rows.last();
        assert(all.contains(rows[rows.len() - 1]));
        let at = choose|p: int| 0 <= p < all.len() && all[p] == last;
        let pick = in_tree(all, choice.root@);
        if pick(last) {
            assert(all[at].id == last.id && pick(all[at]));
            assert(choice.ids@.contains(last.id));
        } else if choice.ids@.contains(last.id) {
            let k = choose|k: int|
                0 <= k < choice.all@.len() && (#[trigger] choice.all@[k]).id == last.id && pick(
                    choice.all@[k],
                );
            if k < at {
                assert(session_key()(all[k]) != session_key()(all[at]));
            } else if at < k {
                assert(session_key()(all[at]) != session_key()(all[k]));
            }
        }
    }
}

/// A created session is found with its owner and agent, and no other session changes.
pub proof fn created_session_is_found(
    sessions: Seq<SessionView>,
    id: SessionId,
    agent: AgentId,
    user: UserId,
    other: SessionId,
)
    requires
        distinct_by(sessions, session_key()),
    ensures
        session_with(stored(sessions, session_key(), fresh_session(id, agent, user)), other)
            == if other == id {
            Some(fresh_session(id, agent, user))
        } else {
            session_with(sessions, other)
        },
{
    stored_is_found(sessions, session_key(), fresh_session(id, agent, user), other);
}

/// A deleted session is gone, and no other is.
pub proof fn deleted_session_is_gone(
    sessions: Seq<SessionView>,
    id: SessionId,
    other: SessionId,
)
    requires
        distinct_by(sessions, session_key()),
    ensures
        session_with(sessions.filter(others(by_key(session_key(), id))), other) == if other == id {
            None
        } else {
            session_with(sessions, other)
        },
{
    kept_is_found(sessions, session_key(), others(by_key(session_key(), id)), other);
    found_has_key(sessions, session_key(), other);
}

/// Deleting a tree deletes its root, and every session whose parent is deleted with it.
pub proof fn deleted_tree_is_gone(sessions: Seq<SessionView>, root: SessionId, id: SessionId)
    requires
        distinct_by(sessions, session_key()),
    ensures
        session_with(sessions.filter(others(in_tree(sessions, root))), root) is None,
        !leads_to(sessions, id, root, sessions.len()) ==> session_with(
            sessions.filter(others(in_tree(sessions, root))),
            id,
        ) == session_with(sessions, id),
        leads_to(sessions, id, root, sessions.len()) ==> session_with(
            sessions.filter(others(in_tree(sessions, root))),
            id,
        ) is None,
{
    let keep = others(in_tree(sessions, root));
    kept_is_found(sessions, session_key(), keep, root);
    kept_is_found(sessions, session_key(), keep, id);
    found_has_key(sessions, session_key(), root);
    found_has_key(sessions, session_key(), id);
}

/// Giving away the sessions of the nil user changes the owner of those sessions, nothing else of
/// them, and no other session.
pub proof fn rewriting_is_targeted(
    sessions: Seq<SessionView>,
    target: UserId,
    id: SessionId,
)
    requires
        distinct_by(sessions, session_key()),
    ensures
        distinct_by(rewritten(sessions, target), session_key()),
        session_with(rewritten(sessions, target), id) == match session_with(sessions, id) {
            Some(session) => Some(with_owner(session, target)),
            None => None,
        },
{
    let now = rewritten(sessions, target);
    assert forall|i: int, j: int| 0 <= i < j < now.len() implies session_key()(#[trigger] now[i])
        != session_key()(#[trigger] now[j]) by {
        assert(session_key()(sessions[i]) != session_key()(sessions[j]));
    }
    first_finds(sessions, by_key(session_key(), id));
    let at = first(sessions, by_key(session_key(), id));
    if at < sessions.len() {
        assert(now[at].id == id);
        row_is_found(now, session_key(), at);
    } else {
        assert forall|i: int| 0 <= i < now.len() implies session_key()(#[trigger] now[i]) != id by {
            assert(session_key()(sessions[i]) != id);
        }
        found_has_key(now, session_key(), id);
    }
}

/// Once they are given to somebody, no sessions of the nil user remain, and doing it again
/// changes nothing.
pub proof fn rewriting_is_idempotent(
    sessions: Seq<SessionView>,
    target: UserId,
    again: UserId,
)
    requires
        target != UserId(0),
    ensures
        unowned(rewritten(sessions, target)) == 0,
        rewritten(rewritten(sessions, target), again) == rewritten(sessions, target),
    decreases sessions.len(),
{
    let now = rewritten(sessions, target);
    assert(rewritten(now, again) =~= now);
    if sessions.len() > 0 {
        rewriting_is_idempotent(sessions.drop_last(), target, again);
        assert(now.drop_last() =~= rewritten(sessions.drop_last(), target));
    }
}

} // verus!
