//! Paired devices.

use crate::error::OpenFangResult;
use crate::json::{
    entries_map, entry_models, json_model, json_models, json_of_object, json_of_text,
    maybe_text_tree, put, write_maybe_text, JsonTree,
};
use crate::memory::table::{
    by_key, distinct_by, drop_picked, found_has_key, kept_is_found, others, picked, row_is_found,
    row_with, views, Choice,
};
use crate::text::{copy_optional, optional_text, same_text};
use vstd::prelude::*;

verus! {

/// A paired device.
#[derive(Debug)]
pub struct PairedDevice {
    pub device_id: String,
    pub display_name: String,
    pub platform: String,
    pub paired_at: String,
    pub last_seen: String,
    pub push_token: Option<String>,
}

/// What a paired device holds.
pub struct DeviceView {
    pub device_id: Seq<char>,
    pub display_name: Seq<char>,
    pub platform: Seq<char>,
    pub paired_at: Seq<char>,
    pub last_seen: Seq<char>,
    pub push_token: Option<Seq<char>>,
}

impl View for PairedDevice {
    type V = DeviceView;

    open spec fn view(&self) -> DeviceView {
        DeviceView {
            device_id: self.device_id@,
            display_name: self.display_name@,
            platform: self.platform@,
            paired_at: self.paired_at@,
            last_seen: self.last_seen@,
            push_token: optional_text(self.push_token),
        }
    }
}

impl Clone for PairedDevice {
    fn clone(&self) -> (r: Self)
        ensures
            r@ == self@,
    {
        PairedDevice {
            device_id: self.device_id.clone(),
            display_name: self.display_name.clone(),
            platform: self.platform.clone(),
            paired_at: self.paired_at.clone(),
            last_seen: self.last_seen.clone(),
            push_token: copy_optional(&self.push_token),
        }
    }
}

/// What a device is found by.
pub open spec fn device_key() -> spec_fn(DeviceView) -> Seq<char> {
    |device: DeviceView| device.device_id
}

/// The devices without one.
pub open spec fn without_device(devices: Seq<DeviceView>, id: Seq<char>) -> Seq<DeviceView> {
    devices.filter(others(by_key(device_key(), id)))
}

/// The devices after one was saved: it comes last, in place of the one with its id.
pub open spec fn saved(devices: Seq<DeviceView>, device: DeviceView) -> Seq<DeviceView> {
    without_device(devices, device.device_id).push(device)
}

/// The JSON form of a device.
pub open spec fn device_tree(device: DeviceView) -> JsonTree {
    JsonTree::Object(
        entries_map(
            seq![
                ("device_id"@, JsonTree::Text(device.device_id)),
                ("display_name"@, JsonTree::Text(device.display_name)),
                ("platform"@, JsonTree::Text(device.platform)),
                ("paired_at"@, JsonTree::Text(device.paired_at)),
                ("last_seen"@, JsonTree::Text(device.last_seen)),
                ("push_token"@, maybe_text_tree(device.push_token)),
            ],
        ),
    )
}

/// The JSON form of a device.
fn device_json(device: &PairedDevice) -> (r: serde_json::Value)
    ensures
        json_model(r) == device_tree(device@),
{
    let mut entries: Vec<(String, serde_json::Value)> = Vec::new();
    put(&mut entries, "device_id", json_of_text(device.device_id.clone()));
    put(&mut entries, "display_name", json_of_text(device.display_name.clone()));
    put(&mut entries, "platform", json_of_text(device.platform.clone()));
    put(&mut entries, "paired_at", json_of_text(device.paired_at.clone()));
    put(&mut entries, "last_seen", json_of_text(device.last_seen.clone()));
    put(&mut entries, "push_token", write_maybe_text(&device.push_token));
    assert(entry_models(entries@) =~= seq![
        ("device_id"@, JsonTree::Text(device@.device_id)),
        ("display_name"@, JsonTree::Text(device@.display_name)),
        ("platform"@, JsonTree::Text(device@.platform)),
        ("paired_at"@, JsonTree::Text(device@.paired_at)),
        ("last_seen"@, JsonTree::Text(device@.last_seen)),
        ("push_token"@, maybe_text_tree(device@.push_token)),
    ]);
    json_of_object(entries)
}

/// Picks one device.
struct OneDevice<'a> {
    id: &'a str,
}

impl<'a> Choice<PairedDevice> for OneDevice<'a> {
    closed spec fn picks(&self, row: DeviceView) -> bool {
        row.device_id == self.id@
    }

    fn pick(&self, row: &PairedDevice) -> bool {
        same_text(row.device_id.as_str(), self.id)
    }
}

/// The paired devices.
#[derive(Debug)]
pub struct DeviceStore {
    rows: Vec<PairedDevice>,
}

impl DeviceStore {
    /// The devices, in the order in which they were saved.
    pub closed spec fn rows(&self) -> Seq<DeviceView> {
        views(self.rows@)
    }

    /// No two devices have one id.
    #[verifier::type_invariant]
    spec fn well_formed(&self) -> bool {
        distinct_by(views(self.rows@), device_key())
    }

    /// No devices.
    pub fn new() -> (r: Self)
        ensures
            r.rows() == Seq::<DeviceView>::empty(),
    {
        let r = DeviceStore { rows: Vec::new() };
        assert(r.rows() =~= Seq::<DeviceView>::empty());
        r
    }

    /// A copy of every device.
    pub fn all_rows(&self) -> (r: Vec<PairedDevice>)
        ensures
            views(r@) == self.rows(),
            distinct_by(self.rows(), device_key()),
    {
        proof {
            use_type_invariant(self);
        }
        let r: Vec<PairedDevice> = self.rows.clone();
        assert(views(r@) =~= views(self.rows@));
        r
    }

    /// Load all paired devices, as JSON.
    pub fn load_paired_devices(&self) -> (r: OpenFangResult<Vec<serde_json::Value>>)
        ensures
            r matches Ok(values) && json_models(values@) == self.rows().map_values(
                |device: DeviceView| device_tree(device),
            ),
    {
        let mut out: Vec<serde_json::Value> = Vec::new();
        let mut i: usize = 0;
        while i < self.rows.len()
            invariant
                i <= self.rows.len(),
                out@.len() == i,
                forall|j: int|
                    0 <= j < i ==> json_model(#[trigger] out@[j]) == device_tree(self.rows@[j]@),
            decreases self.rows.len() - i,
        {
            out.push(device_json(&self.rows[i]));
            i = i + 1;
        }
        assert(json_models(out@) =~= self.rows().map_values(
            |device: DeviceView| device_tree(device),
        ));
        Ok(out)
    }

    /// Drop one device.
    fn drop_device(&mut self, device_id: &str)
        ensures
            final(self).rows() == without_device(old(self).rows(), device_id@),
    {
        let choice = OneDevice { id: device_id };
        proof {
            use_type_invariant(&*self);
            assert(picked::<PairedDevice, OneDevice>(choice) =~= by_key(device_key(), device_id@));
            kept_is_found(
                self.rows(),
                device_key(),
                others(by_key(device_key(), device_id@)),
                device_id@,
            );
        }
        let mut rows: Vec<PairedDevice> = Vec::new();
        std::mem::swap(&mut rows, &mut self.rows);
        let kept: Vec<PairedDevice> = drop_picked(rows, &choice);
        self.rows = kept;
    }

    /// Save a paired device (insert or replace).
    pub fn save_paired_device(
        &mut self,
        device_id: &str,
        display_name: &str,
        platform: &str,
        paired_at: &str,
        last_seen: &str,
        push_token: Option<&str>,
    ) -> (r: OpenFangResult<()>)
        ensures
            r is Ok,
            final(self).rows() == saved(
                old(self).rows(),
                DeviceView {
                    device_id: device_id@,
                    display_name: display_name@,
                    platform: platform@,
                    paired_at: paired_at@,
                    last_seen: last_seen@,
                    push_token: match push_token {
                        Some(s) => Some(s@),
                        None => None,
                    },
                },
            ),
    {
        let device = PairedDevice {
            device_id: device_id.to_string(),
            display_name: display_name.to_string(),
            platform: platform.to_string(),
            paired_at: paired_at.to_string(),
            last_seen: last_seen.to_string(),
            push_token: match push_token {
                Some(s) => Some(s.to_string()),
                None => None,
            },
        };
        proof {
            use_type_invariant(&*self);
            saved_device_is_found(self.rows(), device@, device_id@);
        }
        self.drop_device(device_id);
        let mut rows: Vec<PairedDevice> = Vec::new();
        std::mem::swap(&mut rows, &mut self.rows);
        let ghost before = views(rows@);
        rows.push(device);
        assert(views(rows@) =~= before.push(device@));
        self.rows = rows;
        Ok(())
    }

    /// Remove a paired device.
    pub fn remove_paired_device(&mut self, device_id: &str) -> (r: OpenFangResult<()>)
        ensures
            r is Ok,
            final(self).rows() == without_device(old(self).rows(), device_id@),
    {
        self.drop_device(device_id);
        Ok(())
    }
}

/// A saved device is found as it was saved, and no other device changes.
pub proof fn saved_device_is_found(devices: Seq<DeviceView>, device: DeviceView, id: Seq<char>)
    requires
        distinct_by(devices, device_key()),
    ensures
        distinct_by(saved(devices, device), device_key()),
        row_with(saved(devices, device), device_key(), id) == if id == device.device_id {
            Some(device)
        } else {
            row_with(devices, device_key(), id)
        },
{
    let rest = without_device(devices, device.device_id);
    let now = saved(devices, device);
    removed_device_is_gone(devices, device.device_id, id);
    removed_device_is_gone(devices, device.device_id, device.device_id);
    assert forall|i: int| 0 <= i < rest.len() implies device_key()(#[trigger] rest[i])
        != device.device_id by {
        if device_key()(rest[i]) == device.device_id {
            row_is_found(rest, device_key(), i);
        }
    }
    assert(distinct_by(now, device_key()));
    if id == device.device_id {
        assert(now[rest.len() as int] == device);
        row_is_found(now, device_key(), rest.len() as int);
    } else {
        found_has_key(rest, device_key(), id);
        match row_with(rest, device_key(), id) {
            Some(found) => {
                let at = choose|p: int| 0 <= p < rest.len() && rest[p] == found;
                assert(now[at] == found);
                row_is_found(now, device_key(), at);
            },
            None => {
                assert forall|i: int| 0 <= i < now.len() implies device_key()(#[trigger] now[i])
                    != id by {
                    if i < rest.len() {
                        assert(now[i] == rest[i]);
                        if device_key()(rest[i]) == id {
                            row_is_found(rest, device_key(), i);
                        }
                    }
                }
                found_has_key(now, device_key(), id);
            },
        }
    }
}

/// A removed device is gone, and no other device is.
pub proof fn removed_device_is_gone(devices: Seq<DeviceView>, id: Seq<char>, other: Seq<char>)
    requires
        distinct_by(devices, device_key()),
    ensures
        distinct_by(without_device(devices, id), device_key()),
        row_with(without_device(devices, id), device_key(), other) == if other == id {
            None
        } else {
            row_with(devices, device_key(), other)
        },
{
    kept_is_found(devices, device_key(), others(by_key(device_key(), id)), other);
    found_has_key(devices, device_key(), other);
}

} // verus!
