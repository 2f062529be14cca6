//! The key-value store of the agents.

use crate::error::OpenFangResult;
use crate::ids::AgentId;
use crate::json::{json_copy, json_model, optional_model, JsonTree};
use crate::memory::table::{
    by_key, distinct_by, drop_picked, find_first, first, found_has_key, kept_is_found, labels,
    others, picked, row_with, select, selection, stored, stored_is_found, views, Choice, Label,
};
use crate::text::same_text;
use vstd::prelude::*;

verus! {

/// An entry of an agent.
#[derive(Debug)]
pub struct KvEntry {
    pub agent_id: AgentId,
    pub key: String,
    pub value: serde_json::Value,
}

/// What an entry holds.
pub struct KvView {
    pub agent_id: AgentId,
    pub key: Seq<char>,
    pub value: JsonTree,
}

impl View for KvEntry {
    type V = KvView;

    open spec fn view(&self) -> KvView {
        KvView { agent_id: self.agent_id, key: self.key@, value: json_model(self.value) }
    }
}

impl Clone for KvEntry {
    fn clone(&self) -> (r: Self)
        ensures
            r@ == self@,
    {
        KvEntry { agent_id: self.agent_id, key: self.key.clone(), value: json_copy(&self.value) }
    }
}

/// What an entry is found by.
pub open spec fn kv_key() -> spec_fn(KvView) -> (AgentId, Seq<char>) {
    |entry: KvView| (entry.agent_id, entry.key)
}

/// The value of an agent under a key.
pub open spec fn value_of(rows: Seq<KvView>, agent: AgentId, key: Seq<char>) -> Option<JsonTree> {
    match row_with(rows, kv_key(), (agent, key)) {
        Some(entry) => Some(entry.value),
        None => None,
    }
}

/// Picks the entries of an agent.
pub open spec fn kept_by(agent: AgentId) -> spec_fn(KvView) -> bool {
    |entry: KvView| entry.agent_id == agent
}

/// The key of an entry.
pub open spec fn entry_key() -> spec_fn(KvView) -> Seq<char> {
    |entry: KvView| entry.key
}

/// What a list of pairs holds.
pub open spec fn pair_views(pairs: Seq<(String, serde_json::Value)>) -> Seq<
    (Seq<char>, JsonTree),
> {
    pairs.map_values(|p: (String, serde_json::Value)| (p.0@, json_model(p.1)))
}

/// Picks one entry.
struct OneEntry<'a> {
    agent: AgentId,
    key: &'a str,
}

impl<'a> Choice<KvEntry> for OneEntry<'a> {
    closed spec fn picks(&self, row: KvView) -> bool {
        row.agent_id == self.agent && row.key == self.key@
    }

    fn pick(&self, row: &KvEntry) -> bool {
        row.agent_id == self.agent && same_text(row.key.as_str(), self.key)
    }
}

/// Picks the entries of an agent.
struct AgentEntries {
    agent: AgentId,
}

impl Choice<KvEntry> for AgentEntries {
    closed spec fn picks(&self, row: KvView) -> bool {
        row.agent_id == self.agent
    }

    fn pick(&self, row: &KvEntry) -> bool {
        row.agent_id == self.agent
    }
}

/// Sorts entries by their keys.
struct ByEntryKey;

impl Label<KvEntry> for ByEntryKey {
    closed spec fn label(&self, row: KvView) -> Seq<char> {
        row.key
    }

    fn read(&self, row: &KvEntry) -> String {
        row.key.clone()
    }
}

/// The entries.
#[derive(Debug)]
pub struct KvStore {
    rows: Vec<KvEntry>,
}

impl KvStore {
    /// The entries.
    pub closed spec fn rows(&self) -> Seq<KvView> {
        views(self.rows@)
    }

    /// No agent has two entries under one key.
    #[verifier::type_invariant]
    spec fn well_formed(&self) -> bool {
        distinct_by(views(self.rows@), kv_key())
    }

    /// No entries.
    pub fn new() -> (r: Self)
        ensures
            r.rows() == Seq::<KvView>::empty(),
    {
        let r = KvStore { rows: Vec::new() };
        assert(r.rows() =~= Seq::<KvView>::empty());
        r
    }

    /// A copy of every entry.
    pub fn all_rows(&self) -> (r: Vec<KvEntry>)
        ensures
            views(r@) == self.rows(),
            distinct_by(self.rows(), kv_key()),
    {
        proof {
            use_type_invariant(self);
        }
        let r: Vec<KvEntry> = self.rows.clone();
        assert(views(r@) =~= views(self.rows@));
        r
    }

    /// The position of an entry, or the number of entries if there is none.
    fn find(&self, agent_id: AgentId, key: &str) -> (r: usize)
        ensures
            r == first(self.rows(), by_key(kv_key(), (agent_id, key@))),
            r <= self.rows@.len(),
    {
        let choice = OneEntry { agent: agent_id, key };
        assert(picked::<KvEntry, OneEntry>(choice) =~= by_key(kv_key(), (agent_id, key@)));
        find_first(&self.rows, &choice)
    }

    /// Get a value.
    pub fn get(&self, agent_id: AgentId, key: &str) -> (r: OpenFangResult<
        Option<serde_json::Value>,
    >)
        ensures
            r matches Ok(value) && optional_model(value) == value_of(self.rows(), agent_id, key@),
    {
        let at: usize = self.find(agent_id, key);
        if at < self.rows.len() {
            Ok(Some(json_copy(&self.rows[at].value)))
        } else {
            Ok(None)
        }
    }

    /// Set a value.
    pub fn set(&mut self, agent_id: AgentId, key: &str, value: serde_json::Value) -> (r:
        OpenFangResult<()>)
        ensures
            r is Ok,
            final(self).rows() == stored(
                old(self).rows(),
                kv_key(),
                KvView { agent_id, key: key@, value: json_model(value) },
            ),
    {
        let entry = KvEntry { agent_id, key: key.to_string(), value };
        proof {
            use_type_invariant(&*self);
            stored_is_found(self.rows(), kv_key(), entry@, (agent_id, key@));
        }
        let at: usize = self.find(agent_id, key);
        let mut rows: Vec<KvEntry> = Vec::new();
        std::mem::swap(&mut rows, &mut self.rows);
        let ghost before = views(rows@);
        if at < rows.len() {
            rows.set(at, entry);
            assert(views(rows@) =~= before.update(at as int, entry@));
        } else {
            rows.push(entry);
            assert(views(rows@) =~= before.push(entry@));
        }
        self.rows = rows;
        Ok(())
    }

    /// Delete an entry.
    pub fn delete(&mut self, agent_id: AgentId, key: &str) -> (r: OpenFangResult<()>)
        ensures
            r is Ok,
            final(self).rows() == old(self).rows().filter(
                others(by_key(kv_key(), (agent_id, key@))),
            ),
    {
        let choice = OneEntry { agent: agent_id, key };
        proof {
            use_type_invariant(&*self);
            assert(picked::<KvEntry, OneEntry>(choice) =~= by_key(kv_key(), (agent_id, key@)));
            kept_is_found(
                self.rows(),
                kv_key(),
                others(by_key(kv_key(), (agent_id, key@))),
                (agent_id, key@),
            );
        }
        let mut rows: Vec<KvEntry> = Vec::new();
        std::mem::swap(&mut rows, &mut self.rows);
        let kept: Vec<KvEntry> = drop_picked(rows, &choice);
        self.rows = kept;
        Ok(())
    }

    /// List all pairs of an agent, by key.
    pub fn list(&self, agent_id: AgentId) -> (r: OpenFangResult<Vec<(String, serde_json::Value)>>)
        ensures
            r matches Ok(pairs) && pair_views(pairs@) == selection(
                self.rows(),
                kept_by(agent_id),
                entry_key(),
                false,
            ).map_values(|entry: KvView| (entry.key, entry.value)),
    {
        let choice = AgentEntries { agent: agent_id };
        let label = ByEntryKey;
        assert(picked::<KvEntry, AgentEntries>(choice) =~= kept_by(agent_id));
        assert(labels::<KvEntry, ByEntryKey>(label) =~= entry_key());
        let order: Vec<usize> = select(&self.rows, &choice, &label, false);
        let ghost chosen = selection(self.rows(), kept_by(agent_id), entry_key(), false);
        let mut out: Vec<(String, serde_json::Value)> = Vec::new();
        let mut k: usize = 0;
        while k < order.len()
            invariant
                k <= order.len(),
                forall|i: int| 0 <= i < order@.len() ==> (#[trigger] order@[i]) < self.rows@.len(),
                order@.map_values(|p: usize| self.rows@[p as int]@) == chosen,
                out@.len() == k,
                forall|i: int|
                    0 <= i < k ==> (#[trigger] out@[i]).0@ == chosen[i].key && json_model(out@[i].1)
                        == chosen[i].value,
            decreases order.len() - k,
        {
            assert(chosen[k as int] == self.rows@[order@[k as int] as int]@);
            let entry: &KvEntry = &self.rows[order[k]];
            out.push((entry.key.clone(), json_copy(&entry.value)));
            k = k + 1;
        }
        assert(order@.len() == chosen.len());
        assert(pair_views(out@) =~= chosen.map_values(|entry: KvView| (entry.key, entry.value)));
        Ok(out)
    }
}

/// A value that was set is read back, and no other value changes.
pub proof fn set_value_is_read(
    rows: Seq<KvView>,
    entry: KvView,
    agent: AgentId,
    key: Seq<char>,
)
    requires
        distinct_by(rows, kv_key()),
    ensures
        value_of(stored(rows, kv_key(), entry), agent, key) == if agent == entry.agent_id && key
            == entry.key {
            Some(entry.value)
        } else {
            value_of(rows, agent, key)
        },
{
    stored_is_found(rows, kv_key(), entry, (agent, key));
}

/// A deleted value is gone, and no other value is.
pub proof fn deleted_value_is_gone(
    rows: Seq<KvView>,
    agent: AgentId,
    key: Seq<char>,
    other_agent: AgentId,
    other: Seq<char>,
)
    requires
        distinct_by(rows, kv_key()),
    ensures
        value_of(rows.filter(others(by_key(kv_key(), (agent, key)))), other_agent, other)
            == if other_agent == agent && other == key {
            None
        } else {
            value_of(rows, other_agent, other)
        },
{
    kept_is_found(rows, kv_key(), others(by_key(kv_key(), (agent, key))), (other_agent, other));
    found_has_key(rows, kv_key(), (other_agent, other));
}

} // verus!
