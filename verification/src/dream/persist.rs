//! The persistence of a dream, step by step.
//!
//! Superseded topics are deleted, then the dreamed ones are written, and each that was written is
//! embedded, if anybody embeds. The caller performs each step and says whether it succeeded. A
//! step that fails never stops the others.

use crate::dream::dreamer::{DreamResult, DreamResultView};
use crate::dream::mini_dream::{
    after_dream, forgotten, memory_topic, remembered, write_topic,
};
use crate::ids::UserId;
use crate::memory::time::Timestamp;
use crate::memory::user_memory::{
    upserted, without_topic, MemoryTopic, TopicRowView, TopicView,
};
use vstd::prelude::*;

verus! {

/// What the persistence of a dream does next.
#[derive(Debug)]
pub enum PersistAction {
    /// Delete a superseded topic.
    Delete { user_id: UserId, name: String },
    /// Write a topic.
    Write(MemoryTopic),
    /// Embed the content of the topic that was just written, and store the embedding.
    Embed { owner: UserId, topic: String, content: String },
    /// Everything was tried. So many topics were written.
    Done(usize),
}

/// What an action holds.
pub enum ActionView {
    Delete { user_id: UserId, name: Seq<char> },
    Write(TopicView),
    Embed { owner: UserId, topic: Seq<char>, content: Seq<char> },
    Done(nat),
}

impl View for PersistAction {
    type V = ActionView;

    open spec fn view(&self) -> ActionView {
        match *self {
            PersistAction::Delete { user_id, name } => ActionView::Delete { user_id, name: name@ },
            PersistAction::Write(topic) => ActionView::Write(topic@),
            PersistAction::Embed { owner, topic, content } => ActionView::Embed {
                owner,
                topic: topic@,
                content: content@,
            },
            PersistAction::Done(written) => ActionView::Done(written as nat),
        }
    }
}

/// How far the persistence of a dream has come: which deletions, writes and embeddings were
/// tried, in their order, with their outcomes, and whether the last topic waits for its
/// embedding.
pub struct Progress {
    pub deletes: Seq<bool>,
    pub writes: Seq<bool>,
    pub embeds: Seq<bool>,
    pub waiting: bool,
}

/// Nothing was tried yet.
pub open spec fn nothing_tried() -> Progress {
    Progress { deletes: Seq::empty(), writes: Seq::empty(), embeds: Seq::empty(), waiting: false }
}

/// How many attempts succeeded.
pub open spec fn successes(outcomes: Seq<bool>) -> nat
    decreases outcomes.len(),
{
    if outcomes.len() == 0 {
        0
    } else {
        successes(outcomes.drop_last()) + if outcomes.last() {
            1nat
        } else {
            0
        }
    }
}

/// The items for which the attempt succeeded.
pub open spec fn done_of<T>(items: Seq<T>, outcomes: Seq<bool>) -> Seq<T>
    decreases outcomes.len(),
{
    if outcomes.len() == 0 {
        Seq::empty()
    } else {
        let before = done_of(items, outcomes.drop_last());
        if outcomes.last() {
            before.push(items[outcomes.len() - 1])
        } else {
            before
        }
    }
}

/// What comes next: the deletions, then the writes, each followed by the embedding that waits.
pub open spec fn next_action(
    result: DreamResultView,
    now: Timestamp,
    progress: Progress,
) -> ActionView {
    let deleted = progress.deletes.len() as int;
    let written = progress.writes.len() as int;
    if deleted < result.superseded_topics.len() {
        ActionView::Delete { user_id: result.user_id, name: result.superseded_topics[deleted] }
    } else if progress.waiting {
        ActionView::Embed {
            owner: result.user_id,
            topic: result.topics[written - 1].topic,
            content: result.topics[written - 1].content,
        }
    } else if written < result.topics.len() {
        ActionView::Write(memory_topic(result.user_id, result.topics[written], now))
    } else {
        ActionView::Done(successes(progress.writes))
    }
}

/// How far it has come after what came next was tried, where `embedding` says whether anybody
/// embeds.
pub open spec fn progressed(
    result: DreamResultView,
    embedding: bool,
    progress: Progress,
    ok: bool,
) -> Progress {
    if progress.deletes.len() < result.superseded_topics.len() {
        Progress { deletes: progress.deletes.push(ok), ..progress }
    } else if progress.waiting {
        Progress { embeds: progress.embeds.push(ok), waiting: false, ..progress }
    } else {
        Progress { writes: progress.writes.push(ok), waiting: ok && embedding, ..progress }
    }
}

/// Whether it can have come this far: the writes follow the deletions, what waits for its
/// embedding was written, and whatever else was written was embedded, if anybody embeds.
pub open spec fn is_progress(result: DreamResultView, embedding: bool, progress: Progress) -> bool {
    &&& progress.deletes.len() <= result.superseded_topics.len()
    &&& progress.writes.len() <= result.topics.len()
    &&& progress.writes.len() > 0 ==> progress.deletes.len() == result.superseded_topics.len()
    &&& progress.waiting ==> embedding && progress.writes.len() > 0 && progress.writes.last()
    &&& progress.embeds.len() + (if progress.waiting {
        1int
    } else {
        0
    }) == if embedding {
        successes(progress.writes) as int
    } else {
        0
    }
}

/// How many attempts are left at most.
pub open spec fn attempts_left(result: DreamResultView, progress: Progress) -> int {
    (result.superseded_topics.len() - progress.deletes.len()) + 2 * (result.topics.len()
        - progress.writes.len()) + if progress.waiting {
        1int
    } else {
        0
    }
}

/// The topics after what was done so far: the deletions and writes that succeeded.
pub open spec fn rows_so_far(
    rows: Seq<TopicRowView>,
    result: DreamResultView,
    now: Timestamp,
    progress: Progress,
) -> Seq<TopicRowView> {
    after_dream(
        rows,
        DreamResultView {
            topics: done_of(result.topics, progress.writes),
            superseded_topics: done_of(result.superseded_topics, progress.deletes),
            ..result
        },
        now,
    )
}

/// The persistence of a dream.
pub struct DreamPersist {
    result: DreamResult,
    now: Timestamp,
    embedding: bool,
    deleted: usize,
    tried: usize,
    written: usize,
    waiting: bool,
    progress: Ghost<Progress>,
}

impl DreamPersist {
    /// What is persisted.
    pub closed spec fn result(&self) -> DreamResultView {
        self.result@
    }

    /// The instant at which it is written.
    pub closed spec fn instant(&self) -> Timestamp {
        self.now
    }

    /// Whether anybody embeds.
    pub closed spec fn embeds(&self) -> bool {
        self.embedding
    }

    /// How far it has come.
    pub closed spec fn progress(&self) -> Progress {
        self.progress@
    }

    /// What comes next.
    pub open spec fn next(&self) -> ActionView {
        next_action(self.result(), self.instant(), self.progress())
    }

    /// The counts are those of the progress.
    #[verifier::type_invariant]
    spec fn well_formed(&self) -> bool {
        &&& is_progress(self.result@, self.embedding, self.progress@)
        &&& self.deleted == self.progress@.deletes.len()
        &&& self.tried == self.progress@.writes.len()
        &&& self.written == successes(self.progress@.writes)
        &&& self.written <= self.tried
        &&& self.waiting == self.progress@.waiting
    }

    /// Begin. `embedding` says whether anybody embeds.
    pub fn new(result: DreamResult, now: Timestamp, embedding: bool) -> (r: Self)
        ensures
            r.result() == result@,
            r.instant() == now,
            r.embeds() == embedding,
            r.progress() == nothing_tried(),
    {
        DreamPersist {
            result,
            now,
            embedding,
            deleted: 0,
            tried: 0,
            written: 0,
            waiting: false,
            progress: Ghost(nothing_tried()),
        }
    }

    /// What comes next.
    pub fn action(&self) -> (r: PersistAction)
        ensures
            r@ == self.next(),
            is_progress(self.result(), self.embeds(), self.progress()),
    {
        proof {
            use_type_invariant(self);
        }
        let user_id: UserId = self.result.user_id;
        if self.deleted < self.result.superseded_topics.len() {
            PersistAction::Delete {
                user_id,
                name: self.result.superseded_topics[self.deleted].clone(),
            }
        } else if self.waiting {
            PersistAction::Embed {
                owner: user_id,
                topic: self.result.topics[self.tried - 1].topic.clone(),
                content: self.result.topics[self.tried - 1].content.clone(),
            }
        } else if self.tried < self.result.topics.len() {
            PersistAction::Write(write_topic(user_id, &self.result.topics[self.tried], self.now))
        } else {
            PersistAction::Done(self.written)
        }
    }

    /// Take in whether the action succeeded.
    pub fn outcome(self, ok: bool) -> (r: Self)
        requires
            !(self.next() is Done),
        ensures
            r.result() == self.result(),
            r.instant() == self.instant(),
            r.embeds() == self.embeds(),
            r.progress() == progressed(self.result(), self.embeds(), self.progress(), ok),
    {
        proof {
            use_type_invariant(&self);
            every_attempt_counts(self.result@, self.embedding, self.progress@, ok, self.now);
        }
        let ghost after = progressed(self.result@, self.embedding, self.progress@, ok);
        let deleting: bool = self.deleted < self.result.superseded_topics.len();
        let writing: bool = !deleting && !self.waiting;
        let topics: usize = self.result.topics.len();
        proof {
            if writing {
                assert(self.tried < topics);
                assert(after.writes.drop_last() =~= self.progress@.writes);
            }
        }
        DreamPersist {
            result: self.result,
            now: self.now,
            embedding: self.embedding,
            deleted: if deleting {
                self.deleted + 1
            } else {
                self.deleted
            },
            tried: if writing {
                self.tried + 1
            } else {
                self.tried
            },
            written: if writing && ok {
                self.written + 1
            } else {
                self.written
            },
            waiting: if writing {
                ok && self.embedding
            } else {
                deleting && self.waiting
            },
            progress: Ghost(after),
        }
    }
}

/// Whatever its outcome, an attempt brings the persistence on: fewer are left, and it still can
/// have come this far.
pub proof fn every_attempt_counts(
    result: DreamResultView,
    embedding: bool,
    progress: Progress,
    ok: bool,
    now: Timestamp,
)
    requires
        is_progress(result, embedding, progress),
        !(next_action(result, now, progress) is Done),
    ensures
        is_progress(result, embedding, progressed(result, embedding, progress, ok)),
        0 <= attempts_left(result, progressed(result, embedding, progress, ok)) < attempts_left(
            result,
            progress,
        ),
{
    let after = progressed(result, embedding, progress, ok);
    if progress.deletes.len() == result.superseded_topics.len() && !progress.waiting {
        assert(after.writes.drop_last() =~= progress.writes);
    }
}

/// One failure never stops the remaining topics: when it is over, every superseded topic was
/// tried to delete and every dreamed one to write, and the count is that of the writes that
/// succeeded, whatever became of the embeddings, of which there was one for each.
pub proof fn every_topic_is_tried(
    result: DreamResultView,
    embedding: bool,
    progress: Progress,
    now: Timestamp,
)
    requires
        is_progress(result, embedding, progress),
        next_action(result, now, progress) is Done,
    ensures
        is_progress(result, embedding, nothing_tried()),
        progress.deletes.len() == result.superseded_topics.len(),
        progress.writes.len() == result.topics.len(),
        next_action(result, now, progress) == ActionView::Done(successes(progress.writes)),
        progress.embeds.len() == if embedding {
            successes(progress.writes)
        } else {
            0
        },
{
}

/// Only a topic that was written is embedded, with its content.
pub proof fn written_topics_are_embedded(
    result: DreamResultView,
    embedding: bool,
    progress: Progress,
    now: Timestamp,
)
    requires
        is_progress(result, embedding, progress),
        next_action(result, now, progress) is Embed,
    ensures
        embedding,
        progress.writes.last(),
        ({
            let topic = result.topics[progress.writes.len() - 1];
            next_action(result, now, progress) == (ActionView::Embed {
                owner: result.user_id,
                topic: topic.topic,
                content: topic.content,
            })
        }),
{
}

/// What an attempt does to the topics: a deletion or a write that succeeds does what it says,
/// and one that fails, like any embedding, does nothing.
pub proof fn attempt_changes_rows(
    rows: Seq<TopicRowView>,
    result: DreamResultView,
    embedding: bool,
    progress: Progress,
    ok: bool,
    now: Timestamp,
)
    requires
        is_progress(result, embedding, progress),
        !(next_action(result, now, progress) is Done),
    ensures
        rows_so_far(rows, result, now, nothing_tried()) == rows,
        rows_so_far(rows, result, now, progressed(result, embedding, progress, ok)) == match (
            next_action(result, now, progress),
            ok,
        ) {
            (ActionView::Delete { user_id, name }, true) => without_topic(
                rows_so_far(rows, result, now, progress),
                user_id,
                name,
            ),
            (ActionView::Write(topic), true) => upserted(
                rows_so_far(rows, result, now, progress),
                topic,
            ),
            _ => rows_so_far(rows, result, now, progress),
        },
{
    let after = progressed(result, embedding, progress, ok);
    let names = done_of(result.superseded_topics, progress.deletes);
    let topics = done_of(result.topics, progress.writes);
    if progress.deletes.len() < result.superseded_topics.len() {
        assert(after.deletes.drop_last() =~= progress.deletes);
        let name = result.superseded_topics[progress.deletes.len() as int];
        assert(names.push(name).drop_last() =~= names);
        assert(progress.writes.len() == 0);
        assert(topics == Seq::<crate::dream::response::DreamTopicView>::empty());
    } else if !progress.waiting {
        assert(after.writes.drop_last() =~= progress.writes);
        let topic = result.topics[progress.writes.len() as int];
        assert(topics.push(topic).drop_last() =~= topics);
    }
    assert(forgotten(rows, result.user_id, Seq::empty()) == rows);
    assert(remembered(rows, result.user_id, Seq::empty(), now) == rows);
}

/// If every attempt succeeds, everything is done.
pub proof fn lemma_all_done<T>(items: Seq<T>, outcomes: Seq<bool>)
    requires
        outcomes.len() <= items.len(),
        forall|i: int| 0 <= i < outcomes.len() ==> #[trigger] outcomes[i],
    ensures
        done_of(items, outcomes) == items.take(outcomes.len() as int),
        successes(outcomes) == outcomes.len(),
    decreases outcomes.len(),
{
    if outcomes.len() > 0 {
        let front = outcomes.drop_last();
        lemma_all_done(items, front);
        assert(outcomes[outcomes.len() - 1]);
        assert(items.take(front.len() as int).push(items[front.len() as int]) =~= items.take(
            outcomes.len() as int,
        ));
    } else {
        assert(items.take(0) =~= Seq::empty());
    }
}

} // verus!
