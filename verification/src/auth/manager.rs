//! The manager: who is known, on which channels, and who may do what.

use crate::auth::registry::{
    all_users, channels_in, count_users, entry_of, get_channel, get_user, has_size,
    insert_channel, insert_user, is_vacant, keys_of, new_channels, new_users, no_users,
    optional_identity, users_in, IdentityView, UserIdentity,
};
use crate::auth::role::{
    action_name, lowercase, needed_role, role_name, role_named, Action, UserRole,
};
use crate::error::{ErrorView, OpenFangError, OpenFangResult};
use crate::ids::{is_random_uuid, UserId};
use dashmap::DashMap;
use vstd::prelude::*;

verus! {

/// A user of the kernel configuration.
#[derive(Debug)]
pub struct UserConfig {
    /// Display name.
    pub name: String,
    /// Role, by its name.
    pub role: String,
    /// Channel bindings: channel type and platform id.
    pub channel_bindings: Vec<(String, String)>,
    /// Hash of the API key.
    pub api_key_hash: Option<String>,
    /// Whether unattributed traffic belongs to this user.
    pub is_default: bool,
}

/// What the manager reads of a configured user.
pub struct ConfigView {
    pub name: Seq<char>,
    pub role: Seq<char>,
    pub bindings: Seq<(Seq<char>, Seq<char>)>,
    pub is_default: bool,
}

/// The characters of a list of bindings.
pub open spec fn binding_views(bindings: Seq<(String, String)>) -> Seq<(Seq<char>, Seq<char>)> {
    bindings.map_values(|b: (String, String)| (b.0@, b.1@))
}

impl View for UserConfig {
    type V = ConfigView;

    open spec fn view(&self) -> ConfigView {
        ConfigView {
            name: self.name@,
            role: self.role@,
            bindings: binding_views(self.channel_bindings@),
            is_default: self.is_default,
        }
    }
}

/// What a list of configured users holds.
pub open spec fn config_views(configs: Seq<UserConfig>) -> Seq<ConfigView> {
    configs.map_values(|c: UserConfig| c@)
}

/// The key of a channel identity.
pub open spec fn channel_key(channel_type: Seq<char>, platform_id: Seq<char>) -> Seq<char> {
    channel_type + ":"@ + platform_id
}

/// The identity of a configured user under an id.
pub open spec fn identity_of(config: ConfigView, id: UserId) -> IdentityView {
    IdentityView { id, name: config.name, role: role_named(lowercase(config.role)) }
}

/// The users after each of `configs` was registered under the id at the same place.
pub open spec fn registered(configs: Seq<ConfigView>, ids: Seq<UserId>) -> Map<u128, IdentityView>
    decreases configs.len(),
{
    if configs.len() == 0 {
        Map::empty()
    } else {
        let at = configs.len() - 1;
        registered(configs.drop_last(), ids).insert(ids[at].0, identity_of(configs[at], ids[at]))
    }
}

/// The channels after each of `bindings` was bound to `id`.
pub open spec fn bound(
    channels: Map<Seq<char>, u128>,
    bindings: Seq<(Seq<char>, Seq<char>)>,
    id: UserId,
) -> Map<Seq<char>, u128>
    decreases bindings.len(),
{
    if bindings.len() == 0 {
        channels
    } else {
        bound(channels, bindings.drop_last(), id).insert(
            channel_key(bindings.last().0, bindings.last().1),
            id.0,
        )
    }
}

/// The channels after those of each of `configs` were bound to the id at the same place.
pub open spec fn indexed(configs: Seq<ConfigView>, ids: Seq<UserId>) -> Map<Seq<char>, u128>
    decreases configs.len(),
{
    if configs.len() == 0 {
        Map::empty()
    } else {
        let at = configs.len() - 1;
        bound(indexed(configs.drop_last(), ids), configs[at].bindings, ids[at])
    }
}

/// The position of the first user that is marked as the default, or the length if none is.
pub open spec fn marked_default(configs: Seq<ConfigView>) -> int
    decreases configs.len(),
{
    if configs.len() == 0 || configs[0].is_default {
        0
    } else {
        1 + marked_default(configs.skip(1))
    }
}

/// The position of the user that takes the default id: the first marked one, else the first.
pub open spec fn default_position(configs: Seq<ConfigView>) -> int {
    if marked_default(configs) < configs.len() {
        marked_default(configs)
    } else {
        0
    }
}

/// Whether `ids` gives the default id to the default user and a fresh id to every other one.
pub open spec fn assigns(
    configs: Seq<ConfigView>,
    default_user_id: Option<UserId>,
    ids: Seq<UserId>,
) -> bool {
    &&& ids.len() == configs.len()
    &&& forall|i: int|
        0 <= i < ids.len() ==> match default_user_id {
            Some(uid) if i == default_position(configs) => #[trigger] ids[i] == uid,
            _ => is_random_uuid(ids[i].0) && ids[i].0 != 0,
        }
}

/// The text with which an action is denied.
pub open spec fn denial(identity: IdentityView, action: Action) -> Seq<char> {
    "User '"@ + identity.name + "' (role: "@ + role_name(identity.role)
        + ") lacks permission for "@ + action_name(action) + " (requires: "@ + role_name(
        needed_role(action),
    ) + ")"@
}

/// Whether a known or unknown user may perform an action, and if not, why.
pub open spec fn verdict(identity: Option<IdentityView>, action: Action) -> Result<(), ErrorView> {
    match identity {
        None => Err(ErrorView::AuthDenied("Unknown user"@)),
        Some(i) => if i.role.rank() >= needed_role(action).rank() {
            Ok(())
        } else {
            Err(ErrorView::AuthDenied(denial(i, action)))
        },
    }
}

/// What the result of an authorization holds.
pub open spec fn verdict_view(result: OpenFangResult<()>) -> Result<(), ErrorView> {
    match result {
        Ok(()) => Ok(()),
        Err(e) => Err(e@),
    }
}

/// The key of a channel identity.
fn key_of(channel_type: &str, platform_id: &str) -> (r: String)
    ensures
        r@ == channel_key(channel_type@, platform_id@),
{
    let mut key: String = channel_type.to_string();
    key.append(":");
    key.append(platform_id);
    key
}

/// The position of the user that takes the default id.
fn find_default(configs: &[UserConfig]) -> (r: usize)
    requires
        configs@.len() > 0,
    ensures
        r == default_position(config_views(configs@)),
        r < configs@.len(),
{
    let ghost views = config_views(configs@);
    assert(views.skip(0) =~= views);
    let mut i: usize = 0;
    while i < configs.len()
        invariant
            i <= configs.len(),
            views == config_views(configs@),
            marked_default(views) == i + marked_default(views.skip(i as int)),
        decreases configs.len() - i,
    {
        if configs[i].is_default {
            return i;
        }
        assert(views.skip(i as int).skip(1) =~= views.skip(i + 1));
        i = i + 1;
    }
    0
}

/// RBAC authentication and authorization manager.
pub struct AuthManager {
    /// Known users by their OpenFang user ID.
    users: DashMap<u128, UserIdentity>,
    /// Channel binding index: "channel_type:platform_id" to user ID.
    channel_index: DashMap<String, u128>,
}

impl AuthManager {
    /// The known users, by the bits of their ids.
    pub closed spec fn users(&self) -> Map<u128, IdentityView> {
        users_in(self.users)
    }

    /// The bound channels, by their keys.
    pub closed spec fn channels(&self) -> Map<Seq<char>, u128> {
        channels_in(self.channel_index)
    }

    /// Every user is registered under their own id.
    #[verifier::type_invariant]
    spec fn well_formed(&self) -> bool {
        forall|id: u128|
            #[trigger] users_in(self.users).contains_key(id) ==> users_in(self.users)[id].id.0 == id
    }

    /// Create a new AuthManager from kernel user configuration. Each user gets a freshly
    /// generated `UserId`.
    pub fn new(user_configs: &[UserConfig]) -> (r: Self)
        ensures
            exists|ids: Seq<UserId>| #[trigger]
                r.holds(config_views(user_configs@), ids) && assigns(
                    config_views(user_configs@),
                    None,
                    ids,
                ),
    {
        Self::new_with_default(user_configs, None)
    }

    /// Whether exactly the users and channels of `configs` are registered, under `ids`.
    pub open spec fn holds(&self, configs: Seq<ConfigView>, ids: Seq<UserId>) -> bool {
        self.users() == registered(configs, ids) && self.channels() == indexed(configs, ids)
    }

    /// Like [`Self::new`] but accepts an explicit persistent default-user UUID.
    ///
    /// When `default_user_id` is `Some(uid)`, the config user marked
    /// `is_default = true` (or, if none is marked, the first user in the list)
    /// is registered under `uid` instead of a freshly-generated UUID.
    pub fn new_with_default(user_configs: &[UserConfig], default_user_id: Option<UserId>) -> (r:
        Self)
        ensures
            exists|ids: Seq<UserId>| #[trigger]
                r.holds(config_views(user_configs@), ids) && assigns(
                    config_views(user_configs@),
                    default_user_id,
                    ids,
                ),
    {
        let ids: Vec<UserId> = Self::assign_ids(user_configs, default_user_id);
        let r = Self::with_ids(user_configs, ids.as_slice());
        assert(r.holds(config_views(user_configs@), ids@));
        r
    }

    /// An id for each configured user: the default id for the default user, fresh ones for all
    /// others.
    pub fn assign_ids(user_configs: &[UserConfig], default_user_id: Option<UserId>) -> (r: Vec<
        UserId,
    >)
        ensures
            assigns(config_views(user_configs@), default_user_id, r@),
    {
        let ghost views = config_views(user_configs@);
        let default_index: Option<usize> = if default_user_id.is_some() && user_configs.len() > 0 {
            Some(find_default(user_configs))
        } else {
            None
        };
        let mut ids: Vec<UserId> = Vec::new();
        while ids.len() < user_configs.len()
            invariant
                ids@.len() <= user_configs@.len(),
                views == config_views(user_configs@),
                user_configs@.len() > 0 ==> match default_index {
                    Some(at) => default_user_id is Some && at == default_position(views),
                    None => default_user_id is None,
                },
                forall|i: int|
                    0 <= i < ids@.len() ==> match default_user_id {
                        Some(uid) if i == default_position(views) => #[trigger] ids@[i] == uid,
                        _ => is_random_uuid(ids@[i].0) && ids@[i].0 != 0,
                    },
            decreases user_configs@.len() - ids@.len(),
        {
            let id: UserId = match (default_index, default_user_id) {
                (Some(at), Some(uid)) if at == ids.len() => uid,
                _ => UserId::new(),
            };
            ids.push(id);
        }
        ids
    }

    /// Register each configured user, with their channels, under the id at the same place.
    pub fn with_ids(user_configs: &[UserConfig], ids: &[UserId]) -> (r: Self)
        requires
            ids@.len() == user_configs@.len(),
        ensures
            r.holds(config_views(user_configs@), ids@),
    {
        let mut users: DashMap<u128, UserIdentity> = new_users();
        let mut channel_index: DashMap<String, u128> = new_channels();
        let ghost views = config_views(user_configs@);
        assert(views.take(0) =~= Seq::empty());
        let mut idx: usize = 0;
        while idx < user_configs.len()
            invariant
                idx <= user_configs.len(),
                ids@.len() == user_configs@.len(),
                views == config_views(user_configs@),
                users_in(users) == registered(views.take(idx as int), ids@),
                channels_in(channel_index) == indexed(views.take(idx as int), ids@),
                forall|id: u128| #[trigger]
                    users_in(users).contains_key(id) ==> users_in(users)[id].id.0 == id,
            decreases user_configs.len() - idx,
        {
            let config: &UserConfig = &user_configs[idx];
            let user_id: UserId = ids[idx];
            assert(views.take(idx + 1).drop_last() =~= views.take(idx as int));
            assert(views.take(idx + 1)[idx as int] == config@);
            let role: UserRole = UserRole::from_str_role(config.role.as_str());
            let identity = UserIdentity { id: user_id, name: config.name.clone(), role };
            insert_user(&mut users, user_id.0, identity);
            let ghost before = channels_in(channel_index);
            let ghost bindings = binding_views(config.channel_bindings@);
            assert(bindings.take(0) =~= Seq::empty());
            let mut b: usize = 0;
            while b < config.channel_bindings.len()
                invariant
                    b <= config.channel_bindings.len(),
                    bindings == binding_views(config.channel_bindings@),
                    channels_in(channel_index) == bound(before, bindings.take(b as int), user_id),
                decreases config.channel_bindings.len() - b,
            {
                assert(bindings.take(b + 1).drop_last() =~= bindings.take(b as int));
                let binding: &(String, String) = &config.channel_bindings[b];
                let key: String = key_of(binding.0.as_str(), binding.1.as_str());
                insert_channel(&mut channel_index, key, user_id.0);
                b = b + 1;
            }
            assert(bindings.take(b as int) =~= bindings);
            idx = idx + 1;
        }
        assert(views.take(idx as int) =~= views);
        AuthManager { users, channel_index }
    }

    /// Identify a user from a channel identity.
    ///
    /// Returns the OpenFang UserId if a matching channel binding exists,
    /// or None for unrecognized users.
    pub fn identify(&self, channel_type: &str, platform_id: &str) -> (r: Option<UserId>)
        ensures
            r == match entry_of(self.channels(), channel_key(channel_type@, platform_id@)) {
                Some(bits) => Some(UserId(bits)),
                None => None,
            },
    {
        let key: String = key_of(channel_type, platform_id);
        match get_channel(&self.channel_index, &key) {
            Some(bits) => Some(UserId(bits)),
            None => None,
        }
    }

    /// Get a user's identity by their UserId.
    pub fn get_user(&self, user_id: UserId) -> (r: Option<UserIdentity>)
        ensures
            optional_identity(r) == entry_of(self.users(), user_id.0),
            r matches Some(identity) ==> identity.id == user_id,
    {
        proof {
            use_type_invariant(self);
        }
        get_user(&self.users, user_id.0)
    }

    /// Authorize a user for an action.
    ///
    /// Returns Ok(()) if the user has sufficient permissions, or AuthDenied error.
    pub fn authorize(&self, user_id: UserId, action: &Action) -> (r: OpenFangResult<()>)
        ensures
            verdict_view(r) == verdict(entry_of(self.users(), user_id.0), *action),
    {
        let identity: UserIdentity = match get_user(&self.users, user_id.0) {
            Some(identity) => identity,
            None => return Err(OpenFangError::AuthDenied("Unknown user".to_string())),
        };
        let required: UserRole = action.required_role();
        if identity.role >= required {
            Ok(())
        } else {
            let mut text: String = "User '".to_string();
            text.append(identity.name.as_str());
            text.append("' (role: ");
            text.append(identity.role.to_string().as_str());
            text.append(") lacks permission for ");
            text.append(action.name().as_str());
            text.append(" (requires: ");
            text.append(required.to_string().as_str());
            text.append(")");
            Err(OpenFangError::AuthDenied(text))
        }
    }

    /// Check if RBAC is configured (any users registered).
    pub fn is_enabled(&self) -> (r: bool)
        ensures
            r == !is_vacant(self.users()),
    {
        !no_users(&self.users)
    }

    /// Get the count of registered users.
    pub fn user_count(&self) -> (r: usize)
        ensures
            has_size(self.users(), r as nat),
    {
        count_users(&self.users)
    }

    /// List all registered users, each once, in no particular order.
    pub fn list_users(&self) -> (r: Vec<UserIdentity>)
        ensures
            listed_ids(r@).no_duplicates(),
            listed_ids(r@).to_set() == self.users().dom(),
            forall|i: int|
                0 <= i < r@.len() ==> (#[trigger] r@[i])@ == self.users()[r@[i].id.0],
    {
        proof {
            use_type_invariant(self);
        }
        let entries: Vec<(u128, UserIdentity)> = all_users(&self.users);
        let ghost all = entries@;
        let mut out: Vec<UserIdentity> = Vec::new();
        let mut i: usize = 0;
        while i < entries.len()
            invariant
                i <= entries.len(),
                entries@ == all,
                out@.len() == i,
                keys_of(all).to_set() == users_in(self.users).dom(),
                self.well_formed(),
                forall|j: int|
                    0 <= j < all.len() ==> (#[trigger] all[j]).1@ == users_in(
                        self.users,
                    )[all[j].0],
                forall|j: int|
                    0 <= j < i ==> (#[trigger] out@[j])@ == all[j].1@ && out@[j].id.0 == all[j].0,
            decreases entries.len() - i,
        {
            assert(keys_of(all).to_set().contains(keys_of(all)[i as int]));
            out.push(entries[i].1.clone());
            i = i + 1;
        }
        assert(listed_ids(out@) =~= keys_of(all));
        out
    }
}

/// The ids of a list of identities.
pub open spec fn listed_ids(identities: Seq<UserIdentity>) -> Seq<u128> {
    identities.map_values(|i: UserIdentity| i.id.0)
}

} // verus!
