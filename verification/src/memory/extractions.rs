//! Structured extractions: what was learned in a session, with an audit trail per user.

use crate::error::{unit_view, ErrorView, OpenFangError, OpenFangResult};
use crate::ids::{hyphenated, uuid_text, AgentId, SessionId, UserId};
use crate::memory::sessions::{session_with, SessionStore, SessionView};
use crate::memory::table::{
    by_key, distinct_by, drop_picked, find_first, first, kept_is_found, kept_twice, labels, others,
    picked, row_with, select, selection, selection_holds_picked, stored, stored_is_found, views,
    Choice, Label,
};
use crate::text::{same_text, texts};
use vstd::prelude::*;

verus! {

/// What was learned in a part of a session.
#[derive(Debug)]
pub struct SessionExtraction {
    pub facts: Vec<String>,
    pub preferences: Vec<String>,
    pub decisions: Vec<String>,
    pub tasks: Vec<String>,
    pub open_items: Vec<String>,
}

/// What an extraction holds.
pub struct ExtractionView {
    pub facts: Seq<Seq<char>>,
    pub preferences: Seq<Seq<char>>,
    pub decisions: Seq<Seq<char>>,
    pub tasks: Seq<Seq<char>>,
    pub open_items: Seq<Seq<char>>,
}

impl View for SessionExtraction {
    type V = ExtractionView;

    open spec fn view(&self) -> ExtractionView {
        ExtractionView {
            facts: texts(self.facts@),
            preferences: texts(self.preferences@),
            decisions: texts(self.decisions@),
            tasks: texts(self.tasks@),
            open_items: texts(self.open_items@),
        }
    }
}

/// A copy of a list of strings.
fn copy_texts(items: &Vec<String>) -> (r: Vec<String>)
    ensures
        texts(r@) == texts(items@),
{
    let r: Vec<String> = items.clone();
    assert(texts(r@) =~= texts(items@));
    r
}

impl Clone for SessionExtraction {
    fn clone(&self) -> (r: Self)
        ensures
            r@ == self@,
    {
        SessionExtraction {
            facts: copy_texts(&self.facts),
            preferences: copy_texts(&self.preferences),
            decisions: copy_texts(&self.decisions),
            tasks: copy_texts(&self.tasks),
            open_items: copy_texts(&self.open_items),
        }
    }
}

impl Default for SessionExtraction {
    fn default() -> (r: Self)
        ensures
            r@.facts.len() == 0,
            r@.preferences.len() == 0,
            r@.decisions.len() == 0,
            r@.tasks.len() == 0,
            r@.open_items.len() == 0,
    {
        SessionExtraction {
            facts: Vec::new(),
            preferences: Vec::new(),
            decisions: Vec::new(),
            tasks: Vec::new(),
            open_items: Vec::new(),
        }
    }
}

/// A stored extraction. The user and the agent are kept with it, so that it stays attributed
/// when its session is deleted.
#[derive(Debug)]
pub struct ExtractionRow {
    pub id: String,
    pub session_id: SessionId,
    pub user_id: UserId,
    pub agent_id: AgentId,
    pub extraction: SessionExtraction,
    /// When it was stored, as RFC 3339 text.
    pub created_at: String,
}

/// What a stored extraction holds.
pub struct ExtractionRowView {
    pub id: Seq<char>,
    pub session_id: SessionId,
    pub user_id: UserId,
    pub agent_id: AgentId,
    pub extraction: ExtractionView,
    pub created_at: Seq<char>,
}

impl View for ExtractionRow {
    type V = ExtractionRowView;

    open spec fn view(&self) -> ExtractionRowView {
        ExtractionRowView {
            id: self.id@,
            session_id: self.session_id,
            user_id: self.user_id,
            agent_id: self.agent_id,
            extraction: self.extraction@,
            created_at: self.created_at@,
        }
    }
}

impl Clone for ExtractionRow {
    fn clone(&self) -> (r: Self)
        ensures
            r@ == self@,
    {
        ExtractionRow {
            id: self.id.clone(),
            session_id: self.session_id,
            user_id: self.user_id,
            agent_id: self.agent_id,
            extraction: self.extraction.clone(),
            created_at: self.created_at.clone(),
        }
    }
}

/// A row of the audit trail: the id of the extraction, the session, the agent, when it was
/// stored, and whether the session has been deleted since.
pub type ExtractionAuditRow = (String, String, String, String, bool);

/// What a row of the audit trail holds.
pub type AuditView = (Seq<char>, Seq<char>, Seq<char>, Seq<char>, bool);

/// What a list of audit rows holds.
pub open spec fn audit_views(rows: Seq<ExtractionAuditRow>) -> Seq<AuditView> {
    rows.map_values(|r: ExtractionAuditRow| (r.0@, r.1@, r.2@, r.3@, r.4))
}

/// An extraction as it is stored for a session: attributed to the owner of the session, or to
/// nobody if there is no such session.
pub open spec fn attributed(
    sessions: Seq<SessionView>,
    id: Seq<char>,
    session: SessionId,
    extraction: ExtractionView,
    created_at: Seq<char>,
) -> ExtractionRowView {
    ExtractionRowView {
        id,
        session_id: session,
        user_id: match session_with(sessions, session) {
            Some(s) => s.user_id,
            None => UserId(0),
        },
        agent_id: match session_with(sessions, session) {
            Some(s) => s.agent_id,
            None => AgentId(0),
        },
        extraction,
        created_at,
    }
}

/// The id of an extraction.
pub open spec fn extraction_key() -> spec_fn(ExtractionRowView) -> Seq<char> {
    |row: ExtractionRowView| row.id
}

/// Picks the extractions of a session.
pub open spec fn of_session(session: SessionId) -> spec_fn(ExtractionRowView) -> bool {
    |row: ExtractionRowView| row.session_id == session
}

/// Picks the extractions that are attributed to a user.
pub open spec fn attributed_to(user: UserId) -> spec_fn(ExtractionRowView) -> bool {
    |row: ExtractionRowView| row.user_id == user
}

/// Picks the extractions that belong to a user: attributed to them, or of a session of theirs.
pub open spec fn belonging_to(sessions: Seq<SessionView>, user: UserId) -> spec_fn(
    ExtractionRowView,
) -> bool {
    |row: ExtractionRowView|
        row.user_id == user || match session_with(sessions, row.session_id) {
            Some(session) => session.user_id == user,
            None => false,
        }
}

/// When an extraction was stored.
pub open spec fn storing_date() -> spec_fn(ExtractionRowView) -> Seq<char> {
    |row: ExtractionRowView| row.created_at
}

/// The audit row of an extraction.
pub open spec fn audit_row(sessions: Seq<SessionView>, row: ExtractionRowView) -> AuditView {
    (
        row.id,
        hyphenated(row.session_id.0),
        hyphenated(row.agent_id.0),
        row.created_at,
        session_with(sessions, row.session_id) is None,
    )
}

/// The audit trail of a user: at most `limit` rows, the newest first.
pub open spec fn audit_trail(
    rows: Seq<ExtractionRowView>,
    sessions: Seq<SessionView>,
    user: UserId,
    limit: nat,
) -> Seq<AuditView> {
    let all = selection(rows, attributed_to(user), storing_date(), true);
    let n = if limit < all.len() {
        limit
    } else {
        all.len()
    };
    all.take(n as int).map_values(|row: ExtractionRowView| audit_row(sessions, row))
}

/// Picks one extraction.
struct OneRow<'a> {
    id: &'a str,
}

impl<'a> Choice<ExtractionRow> for OneRow<'a> {
    closed spec fn picks(&self, row: ExtractionRowView) -> bool {
        row.id == self.id@
    }

    fn pick(&self, row: &ExtractionRow) -> bool {
        same_text(row.id.as_str(), self.id)
    }
}

/// Picks the extractions of a session.
struct SessionRows {
    session: SessionId,
}

impl Choice<ExtractionRow> for SessionRows {
    closed spec fn picks(&self, row: ExtractionRowView) -> bool {
        row.session_id == self.session
    }

    fn pick(&self, row: &ExtractionRow) -> bool {
        row.session_id == self.session
    }
}

/// Picks the extractions that are attributed to a user.
struct AttributedRows {
    user: UserId,
}

impl Choice<ExtractionRow> for AttributedRows {
    closed spec fn picks(&self, row: ExtractionRowView) -> bool {
        row.user_id == self.user
    }

    fn pick(&self, row: &ExtractionRow) -> bool {
        row.user_id == self.user
    }
}

/// Picks the extractions that belong to a user.
struct BelongingRows<'a> {
    sessions: &'a SessionStore,
    user: UserId,
}

impl<'a> Choice<ExtractionRow> for BelongingRows<'a> {
    closed spec fn picks(&self, row: ExtractionRowView) -> bool {
        row.user_id == self.user || match session_with(self.sessions.rows(), row.session_id) {
            Some(session) => session.user_id == self.user,
            None => false,
        }
    }

    fn pick(&self, row: &ExtractionRow) -> bool {
        row.user_id == self.user || match self.sessions.owner_of(row.session_id) {
            Some(owner) => owner.0 == self.user,
            None => false,
        }
    }
}

/// Sorts extractions by when they were stored.
struct ByStoringDate;

impl Label<ExtractionRow> for ByStoringDate {
    closed spec fn label(&self, row: ExtractionRowView) -> Seq<char> {
        row.created_at
    }

    fn read(&self, row: &ExtractionRow) -> String {
        row.created_at.clone()
    }
}

/// The extractions.
#[derive(Debug)]
pub struct SessionExtractionStore {
    rows: Vec<ExtractionRow>,
}

impl SessionExtractionStore {
    /// The extractions, in the order in which they were stored.
    pub closed spec fn rows(&self) -> Seq<ExtractionRowView> {
        views(self.rows@)
    }

    /// No two extractions have one id.
    #[verifier::type_invariant]
    spec fn well_formed(&self) -> bool {
        distinct_by(views(self.rows@), extraction_key())
    }

    /// No extractions.
    pub fn new() -> (r: Self)
        ensures
            r.rows() == Seq::<ExtractionRowView>::empty(),
    {
        let r = SessionExtractionStore { rows: Vec::new() };
        assert(r.rows() =~= Seq::<ExtractionRowView>::empty());
        r
    }

    /// A copy of every extraction.
    pub fn all_rows(&self) -> (r: Vec<ExtractionRow>)
        ensures
            views(r@) == self.rows(),
            distinct_by(self.rows(), extraction_key()),
    {
        proof {
            use_type_invariant(self);
        }
        let r: Vec<ExtractionRow> = self.rows.clone();
        assert(views(r@) =~= views(self.rows@));
        r
    }

    /// The position of an extraction, or the number of extractions if there is none.
    fn find(&self, id: &str) -> (r: usize)
        ensures
            r == first(self.rows(), by_key(extraction_key(), id@)),
            r <= self.rows@.len(),
    {
        let choice = OneRow { id };
        assert(picked::<ExtractionRow, OneRow>(choice) =~= by_key(extraction_key(), id@));
        find_first(&self.rows, &choice)
    }

    /// Put back an extraction as it was stored, in the place of the one with its id, or at the
    /// end.
    pub fn restore(&mut self, row: ExtractionRow)
        ensures
            final(self).rows() == stored(old(self).rows(), extraction_key(), row@),
    {
        proof {
            use_type_invariant(&*self);
            stored_is_found(self.rows(), extraction_key(), row@, row@.id);
        }
        let at: usize = self.find(row.id.as_str());
        let mut rows: Vec<ExtractionRow> = Vec::new();
        std::mem::swap(&mut rows, &mut self.rows);
        let ghost before = views(rows@);
        if at < rows.len() {
            rows.set(at, row);
            assert(views(rows@) =~= before.update(at as int, row@));
        } else {
            rows.push(row);
            assert(views(rows@) =~= before.push(row@));
        }
        self.rows = rows;
    }

    /// Append an extraction for a session, under `id` at `created_at`. An id that is taken is an
    /// error, and changes nothing.
    pub fn append(
        &mut self,
        sessions: &SessionStore,
        id: String,
        session_id: SessionId,
        extraction: &SessionExtraction,
        created_at: String,
    ) -> (r: OpenFangResult<()>)
        ensures
            unit_view(r) == match row_with(old(self).rows(), extraction_key(), id@) {
                Some(_) => Err(
                    ErrorView::Memory("UNIQUE constraint failed: session_extractions.id"@),
                ),
                None => Ok(()),
            },
            final(self).rows() == match row_with(old(self).rows(), extraction_key(), id@) {
                Some(_) => old(self).rows(),
                None => old(self).rows().push(
                    attributed(sessions.rows(), id@, session_id, extraction@, created_at@),
                ),
            },
    {
        let at: usize = self.find(id.as_str());
        if at < self.rows.len() {
            return Err(
                OpenFangError::Memory(
                    "UNIQUE constraint failed: session_extractions.id".to_string(),
                ),
            );
        }
        let owner: Option<(UserId, AgentId)> = sessions.owner_of(session_id);
        let (user_id, agent_id): (UserId, AgentId) = match owner {
            Some(pair) => pair,
            None => (UserId(0), AgentId(0)),
        };
        self.restore(
            ExtractionRow {
                id,
                session_id,
                user_id,
                agent_id,
                extraction: extraction.clone(),
                created_at,
            },
        );
        Ok(())
    }

    /// Load all extractions for a session, oldest first.
    pub fn load_all(&self, session_id: SessionId) -> (r: Vec<SessionExtraction>)
        ensures
            views(r@) == selection(
                self.rows(),
                of_session(session_id),
                storing_date(),
                false,
            ).map_values(|row: ExtractionRowView| row.extraction),
    {
        let choice = SessionRows { session: session_id };
        let label = ByStoringDate;
        assert(picked::<ExtractionRow, SessionRows>(choice) =~= of_session(session_id));
        assert(labels::<ExtractionRow, ByStoringDate>(label) =~= storing_date());
        let order: Vec<usize> = select(&self.rows, &choice, &label, false);
        let ghost chosen = selection(self.rows(), of_session(session_id), storing_date(), false);
        let mut out: Vec<SessionExtraction> = Vec::new();
        let mut k: usize = 0;
        while k < order.len()
            invariant
                k <= order.len(),
                forall|i: int| 0 <= i < order@.len() ==> (#[trigger] order@[i]) < self.rows@.len(),
                order@.map_values(|p: usize| self.rows@[p as int]@) == chosen,
                out@.len() == k,
                forall|i: int| 0 <= i < k ==> (#[trigger] out@[i])@ == chosen[i].extraction,
            decreases order.len() - k,
        {
            assert(chosen[k as int] == self.rows@[order@[k as int] as int]@);
            out.push(self.rows[order[k]].extraction.clone());
            k = k + 1;
        }
        assert(order@.len() == chosen.len());
        assert(views(out@) =~= chosen.map_values(|row: ExtractionRowView| row.extraction));
        out
    }

    /// Drop the rows that are picked. Returns how many there were.
    fn drop_rows<C: Choice<ExtractionRow>>(&mut self, choice: &C) -> (r: usize)
        ensures
            final(self).rows() == old(self).rows().filter(
                others(picked::<ExtractionRow, C>(*choice)),
            ),
            r == old(self).rows().len() - final(self).rows().len(),
    {
        proof {
            use_type_invariant(&*self);
            kept_is_found(
                self.rows(),
                extraction_key(),
                others(picked::<ExtractionRow, C>(*choice)),
                Seq::empty(),
            );
        }
        let mut rows: Vec<ExtractionRow> = Vec::new();
        std::mem::swap(&mut rows, &mut self.rows);
        let before: usize = rows.len();
        let kept: Vec<ExtractionRow> = drop_picked(rows, choice);
        let after: usize = kept.len();
        self.rows = kept;
        before - after
    }

    /// Delete all extractions for a session.
    pub fn delete_for_session(&mut self, session_id: SessionId)
        ensures
            final(self).rows() == old(self).rows().filter(others(of_session(session_id))),
    {
        let choice = SessionRows { session: session_id };
        assert(picked::<ExtractionRow, SessionRows>(choice) =~= of_session(session_id));
        self.drop_rows(&choice);
    }

    /// Delete every extraction that belongs to a user. Returns how many there were.
    pub fn delete_user(&mut self, sessions: &SessionStore, user_id: UserId) -> (r: usize)
        ensures
            final(self).rows() == old(self).rows().filter(
                others(belonging_to(sessions.rows(), user_id)),
            ),
            r == old(self).rows().len() - final(self).rows().len(),
    {
        let choice = BelongingRows { sessions, user: user_id };
        assert(picked::<ExtractionRow, BelongingRows>(choice) =~= belonging_to(
            sessions.rows(),
            user_id,
        ));
        self.drop_rows(&choice)
    }

    /// The audit trail of a user: at most `limit` rows, the newest first.
    pub fn audit(&self, sessions: &SessionStore, user_id: UserId, limit: usize) -> (r: Vec<
        ExtractionAuditRow,
    >)
        ensures
            audit_views(r@) == audit_trail(self.rows(), sessions.rows(), user_id, limit as nat),
    {
        let choice = AttributedRows { user: user_id };
        let label = ByStoringDate;
        assert(picked::<ExtractionRow, AttributedRows>(choice) =~= attributed_to(user_id));
        assert(labels::<ExtractionRow, ByStoringDate>(label) =~= storing_date());
        let order: Vec<usize> = select(&self.rows, &choice, &label, true);
        let ghost chosen = selection(self.rows(), attributed_to(user_id), storing_date(), true);
        let mut out: Vec<ExtractionAuditRow> = Vec::new();
        let mut k: usize = 0;
        while k < order.len() && k < limit
            invariant
                k <= order.len(),
                k <= limit,
                forall|i: int| 0 <= i < order@.len() ==> (#[trigger] order@[i]) < self.rows@.len(),
                order@.map_values(|p: usize| self.rows@[p as int]@) == chosen,
                out@.len() == k,
                forall|i: int|
                    0 <= i < k ==> {
                        let r = #[trigger] out@[i];
                        (r.0@, r.1@, r.2@, r.3@, r.4) == audit_row(sessions.rows(), chosen[i])
                    },
            decreases order.len() - k,
        {
            assert(chosen[k as int] == self.rows@[order@[k as int] as int]@);
            let row: &ExtractionRow = &self.rows[order[k]];
            let deleted: bool = sessions.owner_of(row.session_id).is_none();
            out.push(
                (
                    row.id.clone(),
                    uuid_text(row.session_id.0),
                    uuid_text(row.agent_id.0),
                    row.created_at.clone(),
                    deleted,
                ),
            );
            k = k + 1;
        }
        assert(order@.len() == chosen.len());
        assert(audit_views(out@) =~= audit_trail(
            self.rows(),
            sessions.rows(),
            user_id,
            limit as nat,
        ));
        out
    }
}

/// Nothing that belongs to a user is left when it is deleted, everything that belongs to nobody
/// else but others is, and deleting it again deletes nothing.
pub proof fn deleted_extractions_are_gone(
    rows: Seq<ExtractionRowView>,
    sessions: Seq<SessionView>,
    user: UserId,
    row: ExtractionRowView,
)
    ensures
        rows.filter(others(belonging_to(sessions, user))).contains(row) <==> rows.contains(row)
            && !belonging_to(sessions, user)(row),
        rows.filter(others(belonging_to(sessions, user))).filter(
            others(belonging_to(sessions, user)),
        ) == rows.filter(others(belonging_to(sessions, user))),
{
    broadcast use vstd::seq_lib::group_filter_ensures;

    let keep = others(belonging_to(sessions, user));
    kept_twice(rows, keep);
    if rows.filter(keep).contains(row) {
        rows.lemma_filter_contains_rev(keep, row);
        let i = choose|i: int| 0 <= i < rows.filter(keep).len() && rows.filter(keep)[i] == row;
        assert(keep(rows.filter(keep)[i]));
    }
    if rows.contains(row) && keep(row) {
        let at = choose|p: int| 0 <= p < rows.len() && rows[p] == row;
        assert(rows.filter(keep).contains(rows[at]));
    }
}

/// Deleting sessions loses no row of the audit trail: the same extractions are listed in the
/// same order, and the flag says of each whether its session is still there.
pub proof fn audit_survives_session_delete(
    rows: Seq<ExtractionRowView>,
    before: Seq<SessionView>,
    after: Seq<SessionView>,
    user: UserId,
    limit: nat,
    i: int,
)
    requires
        0 <= i < audit_trail(rows, before, user, limit).len(),
    ensures
        audit_trail(rows, after, user, limit).len() == audit_trail(rows, before, user, limit).len(),
        ({
            let was = audit_trail(rows, before, user, limit)[i];
            let now = audit_trail(rows, after, user, limit)[i];
            now == (was.0, was.1, was.2, was.3, now.4)
        }),
        ({
            let all = selection(rows, attributed_to(user), storing_date(), true);
            audit_trail(rows, after, user, limit)[i].4 == (session_with(
                after,
                all[i].session_id,
            ) is None)
        }),
{
}

/// The audit trail of a user lists nothing that is attributed to another.
pub proof fn audit_is_of_the_user(
    rows: Seq<ExtractionRowView>,
    user: UserId,
    row: ExtractionRowView,
)
    ensures
        selection(rows, attributed_to(user), storing_date(), true).contains(row) <==> rows.contains(
            row,
        ) && row.user_id == user,
{
    selection_holds_picked(rows, attributed_to(user), storing_date(), true, row);
}

} // verus!
