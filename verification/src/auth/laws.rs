//! Laws of registration, identification and authorization.

use crate::auth::manager::{
    assigns, bound, channel_key, config_views, default_position, identity_of, indexed,
    listed_ids, marked_default, registered, verdict, AuthManager, ConfigView, UserConfig,
};
use crate::auth::registry::{entry_of, has_size, is_vacant, IdentityView, UserIdentity};
use crate::auth::role::{
    ascii_lower, compared, is_ascii_text, lowercase, role_named, Action, UserRole,
};
use crate::error::{ErrorView, OpenFangResult};
use crate::ids::UserId;
use std::cmp::Ordering;
use vstd::prelude::*;

verus! {

/// `marked_default` is the position of a marked user before which none is marked.
proof fn lemma_marked_default(configs: Seq<ConfigView>)
    ensures
        0 <= marked_default(configs) <= configs.len(),
        marked_default(configs) < configs.len() ==> configs[marked_default(configs)].is_default,
        forall|i: int| 0 <= i < marked_default(configs) ==> !(#[trigger] configs[i]).is_default,
    decreases configs.len(),
{
    if configs.len() > 0 && !configs[0].is_default {
        lemma_marked_default(configs.skip(1));
        assert forall|i: int| 0 <= i < marked_default(configs) implies !(
        #[trigger] configs[i]).is_default by {
            if i > 0 {
                assert(configs[i] == configs.skip(1)[i - 1]);
            }
        }
    }
}

/// The user that takes the default id is the first one that is marked, and the first of all if
/// none is marked.
pub proof fn default_position_is_first_marked(configs: Seq<ConfigView>)
    requires
        configs.len() > 0,
    ensures
        0 <= default_position(configs) < configs.len(),
        (exists|i: int| 0 <= i < configs.len() && (#[trigger] configs[i]).is_default)
            ==> configs[default_position(configs)].is_default,
        forall|i: int|
            0 <= i < default_position(configs) ==> !(#[trigger] configs[i]).is_default,
        (forall|i: int| 0 <= i < configs.len() ==> !(#[trigger] configs[i]).is_default)
            ==> default_position(configs) == 0,
{
    lemma_marked_default(configs);
}

/// A user is registered under their id, with their name and role, unless a later user has the
/// same id.
pub proof fn user_is_registered(configs: Seq<ConfigView>, ids: Seq<UserId>, at: int)
    requires
        ids.len() >= configs.len(),
        0 <= at < configs.len(),
        forall|i: int| at < i < configs.len() ==> #[trigger] ids[i] != ids[at],
    ensures
        entry_of(registered(configs, ids), ids[at].0) == Some(identity_of(configs[at], ids[at])),
    decreases configs.len(),
{
    let last = configs.len() - 1;
    if at < last {
        assert(ids[last] != ids[at]);
        assert(configs.drop_last()[at] == configs[at]);
        user_is_registered(configs.drop_last(), ids, at);
    }
}

/// Nobody is registered under an id that was given to no user.
pub proof fn stranger_is_not_registered(configs: Seq<ConfigView>, ids: Seq<UserId>, id: UserId)
    requires
        ids.len() >= configs.len(),
        forall|i: int| 0 <= i < configs.len() ==> #[trigger] ids[i] != id,
    ensures
        entry_of(registered(configs, ids), id.0) is None,
    decreases configs.len(),
{
    if configs.len() > 0 {
        stranger_is_not_registered(configs.drop_last(), ids, id);
        assert(ids[configs.len() - 1] != id);
    }
}

/// With a default id, the default user is registered under it, unless a fresh id happens to be
/// the same.
pub proof fn default_user_takes_default_id(
    configs: Seq<ConfigView>,
    ids: Seq<UserId>,
    uid: UserId,
)
    requires
        configs.len() > 0,
        assigns(configs, Some(uid), ids),
        forall|i: int|
            0 <= i < ids.len() && i != default_position(configs) ==> #[trigger] ids[i] != uid,
    ensures
        entry_of(registered(configs, ids), uid.0) == Some(
            identity_of(configs[default_position(configs)], uid),
        ),
{
    default_position_is_first_marked(configs);
    user_is_registered(configs, ids, default_position(configs));
}

/// Without a default id, nobody is registered under the nil id.
pub proof fn nil_is_never_fresh(configs: Seq<ConfigView>, ids: Seq<UserId>)
    requires
        assigns(configs, None, ids),
    ensures
        entry_of(registered(configs, ids), 0) is None,
{
    assert forall|i: int| 0 <= i < configs.len() implies #[trigger] ids[i] != UserId(0) by {
        assert(ids[i].0 != 0);
    }
    stranger_is_not_registered(configs, ids, UserId(0));
}

/// There are as many users as configured ones if no two got the same id.
pub proof fn every_user_counts(configs: Seq<ConfigView>, ids: Seq<UserId>)
    requires
        ids.len() >= configs.len(),
        forall|i: int, j: int|
            0 <= i < j < configs.len() ==> #[trigger] ids[i] != #[trigger] ids[j],
    ensures
        has_size(registered(configs, ids), configs.len()),
    decreases configs.len(),
{
    if configs.len() > 0 {
        every_user_counts(configs.drop_last(), ids);
        let last = configs.len() - 1;
        stranger_is_not_registered(configs.drop_last(), ids, ids[last]);
        assert(registered(configs, ids).dom() =~= registered(
            configs.drop_last(),
            ids,
        ).dom().insert(ids[last].0));
    } else {
        assert(registered(configs, ids).dom() =~= Set::<u128>::empty());
    }
}

/// Without configured users nobody is registered and no channel is bound.
pub proof fn no_config_no_users(ids: Seq<UserId>)
    ensures
        is_vacant(registered(Seq::empty(), ids)),
        is_vacant(indexed(Seq::empty(), ids)),
{
}

/// Whether a channel key is among bindings.
pub open spec fn binds(bindings: Seq<(Seq<char>, Seq<char>)>, key: Seq<char>) -> bool {
    exists|b: int|
        0 <= b < bindings.len() && channel_key(
            (#[trigger] bindings[b]).0,
            bindings[b].1,
        ) == key
}

/// Binding channels changes the bound keys and no other.
proof fn lemma_bound(
    channels: Map<Seq<char>, u128>,
    bindings: Seq<(Seq<char>, Seq<char>)>,
    id: UserId,
    key: Seq<char>,
)
    ensures
        entry_of(bound(channels, bindings, id), key) == if binds(bindings, key) {
            Some(id.0)
        } else {
            entry_of(channels, key)
        },
    decreases bindings.len(),
{
    if bindings.len() > 0 {
        let rest = bindings.drop_last();
        lemma_bound(channels, rest, id, key);
        let last = bindings.len() - 1;
        if channel_key(bindings[last].0, bindings[last].1) != key {
            if binds(bindings, key) {
                let b = choose|b: int|
                    0 <= b < bindings.len() && channel_key(
                        (#[trigger] bindings[b]).0,
                        bindings[b].1,
                    ) == key;
                assert(rest[b] == bindings[b]);
            }
            if binds(rest, key) {
                let b = choose|b: int|
                    0 <= b < rest.len() && channel_key((#[trigger] rest[b]).0, rest[b].1) == key;
                assert(bindings[b] == rest[b]);
            }
        }
    }
}

/// A channel identity that is bound for a user, and for no later one, identifies that user. So a
/// user is the same on each of their channels.
pub proof fn bound_channel_identifies(
    configs: Seq<ConfigView>,
    ids: Seq<UserId>,
    at: int,
    channel_type: Seq<char>,
    platform_id: Seq<char>,
)
    requires
        ids.len() >= configs.len(),
        0 <= at < configs.len(),
        binds(configs[at].bindings, channel_key(channel_type, platform_id)),
        forall|i: int|
            at < i < configs.len() ==> !binds(
                (#[trigger] configs[i]).bindings,
                channel_key(channel_type, platform_id),
            ),
    ensures
        entry_of(indexed(configs, ids), channel_key(channel_type, platform_id)) == Some(ids[at].0),
    decreases configs.len(),
{
    let last = configs.len() - 1;
    let key = channel_key(channel_type, platform_id);
    lemma_bound(indexed(configs.drop_last(), ids), configs[last].bindings, ids[last], key);
    if at < last {
        assert(configs.drop_last()[at] == configs[at]);
        assert forall|i: int| at < i < configs.drop_last().len() implies !binds(
            (#[trigger] configs.drop_last()[i]).bindings,
            key,
        ) by {
            assert(configs.drop_last()[i] == configs[i]);
        }
        bound_channel_identifies(configs.drop_last(), ids, at, channel_type, platform_id);
    }
}

/// A channel identity that is bound for nobody identifies nobody.
pub proof fn unbound_channel_identifies_nobody(
    configs: Seq<ConfigView>,
    ids: Seq<UserId>,
    channel_type: Seq<char>,
    platform_id: Seq<char>,
)
    requires
        ids.len() >= configs.len(),
        forall|i: int|
            0 <= i < configs.len() ==> !binds(
                (#[trigger] configs[i]).bindings,
                channel_key(channel_type, platform_id),
            ),
    ensures
        entry_of(indexed(configs, ids), channel_key(channel_type, platform_id)) is None,
    decreases configs.len(),
{
    if configs.len() > 0 {
        let last = configs.len() - 1;
        let key = channel_key(channel_type, platform_id);
        lemma_bound(indexed(configs.drop_last(), ids), configs[last].bindings, ids[last], key);
        assert forall|i: int| 0 <= i < configs.drop_last().len() implies !binds(
            (#[trigger] configs.drop_last()[i]).bindings,
            key,
        ) by {
            assert(configs.drop_last()[i] == configs[i]);
        }
        unbound_channel_identifies_nobody(configs.drop_last(), ids, channel_type, platform_id);
    }
}

/// An owner may do everything.
pub proof fn owner_may_everything(identity: IdentityView, action: Action)
    requires
        identity.role is Owner,
    ensures
        verdict(Some(identity), action) is Ok,
{
}

/// A viewer may do nothing.
pub proof fn viewer_may_nothing(identity: IdentityView, action: Action)
    requires
        identity.role is Viewer,
    ensures
        verdict(Some(identity), action) is Err,
{
}

/// A higher role may do whatever a lower one may.
pub proof fn roles_are_hierarchical(low: IdentityView, high: IdentityView, action: Action)
    requires
        low.role.rank() <= high.role.rank(),
        verdict(Some(low), action) is Ok,
    ensures
        verdict(Some(high), action) is Ok,
{
}

/// Who may do what: chat and see the configuration, everyone but a viewer; see the usage, spawn
/// and kill agents and install skills, admins and owners; change the configuration and manage
/// users, owners alone.
pub proof fn roles_permit_actions(identity: IdentityView, action: Action)
    ensures
        verdict(Some(identity), action) is Ok <==> match action {
            Action::ChatWithAgent => identity.role != UserRole::Viewer,
            Action::ViewConfig => identity.role != UserRole::Viewer,
            Action::ViewUsage => identity.role == UserRole::Admin || identity.role
                == UserRole::Owner,
            Action::SpawnAgent => identity.role == UserRole::Admin || identity.role
                == UserRole::Owner,
            Action::KillAgent => identity.role == UserRole::Admin || identity.role
                == UserRole::Owner,
            Action::InstallSkill => identity.role == UserRole::Admin || identity.role
                == UserRole::Owner,
            Action::ModifyConfig => identity.role == UserRole::Owner,
            Action::ManageUsers => identity.role == UserRole::Owner,
        },
        verdict(None, action) == Err::<(), ErrorView>(ErrorView::AuthDenied("Unknown user"@)),
{
}

/// What a role is called.
pub open spec fn is_called(role: UserRole, name: Seq<char>) -> bool {
    match role {
        UserRole::Viewer => name == "viewer"@,
        UserRole::User => name == "user"@,
        UserRole::Admin => name == "admin"@,
        UserRole::Owner => name == "owner"@,
    }
}

/// What an action is called.
pub open spec fn action_is_called(action: Action, name: Seq<char>) -> bool {
    match action {
        Action::ChatWithAgent => name == "ChatWithAgent"@,
        Action::SpawnAgent => name == "SpawnAgent"@,
        Action::KillAgent => name == "KillAgent"@,
        Action::InstallSkill => name == "InstallSkill"@,
        Action::ViewConfig => name == "ViewConfig"@,
        Action::ModifyConfig => name == "ModifyConfig"@,
        Action::ViewUsage => name == "ViewUsage"@,
        Action::ManageUsers => name == "ManageUsers"@,
    }
}

/// Who is denied an action is told their name and role, the action, and the role that it needs:
/// the least role that may perform it.
pub proof fn denial_tells_why(
    identity: IdentityView,
    action: Action,
    role: Seq<char>,
    name: Seq<char>,
    least: UserRole,
    least_name: Seq<char>,
)
    requires
        verdict(Some(identity), action) is Err,
        is_called(identity.role, role),
        action_is_called(action, name),
        is_called(least, least_name),
        least == match action {
            Action::ChatWithAgent | Action::ViewConfig => UserRole::User,
            Action::ModifyConfig | Action::ManageUsers => UserRole::Owner,
            _ => UserRole::Admin,
        },
    ensures
        verdict(Some(identity), action) == Err::<(), ErrorView>(
            ErrorView::AuthDenied(
                "User '"@ + identity.name + "' (role: "@ + role + ") lacks permission for "@ + name
                    + " (requires: "@ + least_name + ")"@,
            ),
        ),
{
}

/// A role is read from its name, whatever the case of its letters; any other ASCII text stands
/// for a standard user.
pub proof fn roles_are_read_by_name(text: Seq<char>)
    requires
        is_ascii_text(text),
    ensures
        ({
            let lower = text.map_values(|c: char| ascii_lower(c));
            match role_named(lowercase(text)) {
                UserRole::Owner => lower == "owner"@,
                UserRole::Admin => lower == "admin"@,
                UserRole::Viewer => lower == "viewer"@,
                UserRole::User => lower != "owner"@ && lower != "admin"@ && lower != "viewer"@,
            }
        }),
{
}

/// ASCII letters have a lower case, and everything else stays as it is.
pub proof fn letters_have_lower_case(c: char)
    ensures
        'A' <= c <= 'Z' ==> ascii_lower(c) as u32 == c as u32 + 32,
        !('A' <= c <= 'Z') ==> ascii_lower(c) == c,
{
}

/// A registered user has the id that was given, the configured name, and the role that the
/// configured text names.
pub proof fn registered_user_is_as_configured(configs: Seq<ConfigView>, ids: Seq<UserId>, at: int)
    requires
        ids.len() >= configs.len(),
        0 <= at < configs.len(),
        forall|i: int| at < i < configs.len() ==> #[trigger] ids[i] != ids[at],
    ensures
        entry_of(registered(configs, ids), ids[at].0) matches Some(user) && {
            &&& user.id == ids[at]
            &&& user.name == configs[at].name
            &&& user.role == role_named(lowercase(configs[at].role))
        },
{
    user_is_registered(configs, ids, at);
}

/// Whether a text has no colon.
pub open spec fn has_no_colon(text: Seq<char>) -> bool {
    forall|i: int| 0 <= i < text.len() ==> #[trigger] text[i] != ':'
}

/// Two channel identities are told apart: by the type of the channel, and by the id on it.
pub proof fn channels_are_told_apart(
    type_a: Seq<char>,
    id_a: Seq<char>,
    type_b: Seq<char>,
    id_b: Seq<char>,
)
    requires
        has_no_colon(type_a),
        has_no_colon(type_b),
    ensures
        channel_key(type_a, id_a) == channel_key(type_b, id_b) <==> type_a == type_b && id_a
            == id_b,
{
    reveal_strlit(":");
    let a = channel_key(type_a, id_a);
    let b = channel_key(type_b, id_b);
    let n = type_a.len() as int;
    let m = type_b.len() as int;
    assert(":"@.len() == 1 && ":"@[0] == ':');
    assert(a[n] == ':' && b[m] == ':');
    if a == b {
        if n < m {
            assert(b[n] == type_b[n]);
        }
        if m < n {
            assert(a[m] == type_a[m]);
        }
        assert(type_a =~= a.take(n));
        assert(type_b =~= b.take(m));
        assert(id_a =~= a.skip(n + 1));
        assert(id_b =~= b.skip(m + 1));
    }
}

/// A user is identified by each of their channel identities, the type and the id on it, unless a
/// later user has the same.
pub proof fn binding_identifies_user(
    configs: Seq<ConfigView>,
    ids: Seq<UserId>,
    at: int,
    b: int,
)
    requires
        ids.len() >= configs.len(),
        0 <= at < configs.len(),
        0 <= b < configs[at].bindings.len(),
        has_no_colon(configs[at].bindings[b].0),
        forall|i: int, k: int|
            at < i < configs.len() && 0 <= k < configs[i].bindings.len() ==> has_no_colon(
                (#[trigger] configs[i].bindings[k]).0,
            ) && configs[i].bindings[k] != configs[at].bindings[b],
    ensures
        ({
            let (channel_type, platform_id) = configs[at].bindings[b];
            entry_of(indexed(configs, ids), channel_key(channel_type, platform_id)) == Some(
                ids[at].0,
            )
        }),
{
    let (channel_type, platform_id) = configs[at].bindings[b];
    let key = channel_key(channel_type, platform_id);
    assert forall|i: int| at < i < configs.len() implies !binds(
        (#[trigger] configs[i]).bindings,
        key,
    ) by {
        if binds(configs[i].bindings, key) {
            let k = choose|k: int|
                0 <= k < configs[i].bindings.len() && channel_key(
                    (#[trigger] configs[i].bindings[k]).0,
                    configs[i].bindings[k].1,
                ) == key;
            channels_are_told_apart(
                configs[i].bindings[k].0,
                configs[i].bindings[k].1,
                channel_type,
                platform_id,
            );
        }
    }
    assert(binds(configs[at].bindings, key));
    bound_channel_identifies(configs, ids, at, channel_type, platform_id);
}

/// A channel identity that is configured for nobody, by its type and the id on it, identifies
/// nobody.
pub proof fn strange_channel_identifies_nobody(
    configs: Seq<ConfigView>,
    ids: Seq<UserId>,
    channel_type: Seq<char>,
    platform_id: Seq<char>,
)
    requires
        ids.len() >= configs.len(),
        has_no_colon(channel_type),
        forall|i: int, k: int|
            0 <= i < configs.len() && 0 <= k < configs[i].bindings.len() ==> has_no_colon(
                (#[trigger] configs[i].bindings[k]).0,
            ) && configs[i].bindings[k] != (channel_type, platform_id),
    ensures
        entry_of(indexed(configs, ids), channel_key(channel_type, platform_id)) is None,
{
    let key = channel_key(channel_type, platform_id);
    assert forall|i: int| 0 <= i < configs.len() implies !binds(
        (#[trigger] configs[i]).bindings,
        key,
    ) by {
        if binds(configs[i].bindings, key) {
            let k = choose|k: int|
                0 <= k < configs[i].bindings.len() && channel_key(
                    (#[trigger] configs[i].bindings[k]).0,
                    configs[i].bindings[k].1,
                ) == key;
            channels_are_told_apart(
                configs[i].bindings[k].0,
                configs[i].bindings[k].1,
                channel_type,
                platform_id,
            );
        }
    }
    unbound_channel_identifies_nobody(configs, ids, channel_type, platform_id);
}

/// What is stated of a configured user and of an identity speaks of their fields.
pub proof fn users_show_their_fields(config: UserConfig, identity: UserIdentity)
    ensures
        config@.name == config.name@,
        config@.role == config.role@,
        config@.is_default == config.is_default,
        config@.bindings.len() == config.channel_bindings@.len(),
        forall|i: int|
            0 <= i < config.channel_bindings@.len() ==> #[trigger] config@.bindings[i] == (
                config.channel_bindings@[i].0@,
                config.channel_bindings@[i].1@,
            ),
        identity@.id == identity.id,
        identity@.name == identity.name@,
        identity@.role == identity.role,
{
}

/// Viewers come first, then users, admins and owners; roles compare by that order.
pub proof fn roles_are_ordered(a: UserRole, b: UserRole)
    ensures
        UserRole::Viewer.rank() < UserRole::User.rank() < UserRole::Admin.rank()
            < UserRole::Owner.rank(),
        compared(a.rank(), b.rank()) matches Some(found) && match found {
            Ordering::Less => a.rank() < b.rank(),
            Ordering::Equal => a == b,
            Ordering::Greater => a.rank() > b.rank(),
        },
{
}

/// A user who was registered under an id is got by it, with the configured name and role, and may
/// do what the role permits; under another id nobody is got, and nothing is permitted.
pub proof fn registered_user_is_got_and_permitted(
    configs: &[UserConfig],
    ids: &[UserId],
    manager: AuthManager,
    at: int,
    id: UserId,
    got: Option<UserIdentity>,
    action: &Action,
    r: OpenFangResult<()>,
)
    requires
        ids@.len() == configs@.len(),
        call_ensures(AuthManager::with_ids, (configs, ids), manager),
        0 <= at < configs@.len(),
        forall|i: int| at < i < configs@.len() ==> #[trigger] ids@[i] != ids@[at],
        call_ensures(AuthManager::get_user, (&manager, id), got),
        call_ensures(AuthManager::authorize, (&manager, id, action), r),
    ensures
        id == ids@[at] ==> (got matches Some(user) && {
            &&& user.id == id
            &&& user.name@ == configs@[at].name@
            &&& user.role == role_named(lowercase(configs@[at].role@))
            &&& r is Ok <==> match *action {
                Action::ChatWithAgent | Action::ViewConfig => user.role != UserRole::Viewer,
                Action::ModifyConfig | Action::ManageUsers => user.role == UserRole::Owner,
                _ => user.role == UserRole::Admin || user.role == UserRole::Owner,
            }
        }),
        (forall|i: int| 0 <= i < configs@.len() ==> #[trigger] ids@[i] != id) ==> got is None && (
        r matches Err(e) && e@ == ErrorView::AuthDenied("Unknown user"@)),
{
    let views = config_views(configs@);
    if id == ids@[at] {
        registered_user_is_as_configured(views, ids@, at);
        assert(views[at] == configs@[at]@);
        roles_permit_actions(entry_of(manager.users(), id.0)->0, *action);
    }
    if forall|i: int| 0 <= i < configs@.len() ==> #[trigger] ids@[i] != id {
        stranger_is_not_registered(views, ids@, id);
    }
}

/// A channel identity of a user, the type and the id on it, identifies the user, unless a later
/// one has the same.
pub proof fn channel_identity_is_identified(
    configs: &[UserConfig],
    ids: &[UserId],
    manager: AuthManager,
    at: int,
    b: int,
    channel_type: &str,
    platform_id: &str,
    got: Option<UserId>,
)
    requires
        ids@.len() == configs@.len(),
        call_ensures(AuthManager::with_ids, (configs, ids), manager),
        0 <= at < configs@.len(),
        0 <= b < configs@[at].channel_bindings@.len(),
        channel_type@ == configs@[at].channel_bindings@[b].0@,
        platform_id@ == configs@[at].channel_bindings@[b].1@,
        has_no_colon(channel_type@),
        forall|i: int, k: int|
            at < i < configs@.len() && 0 <= k < configs@[i]@.bindings.len() ==> has_no_colon(
                (#[trigger] configs@[i]@.bindings[k]).0,
            ) && configs@[i]@.bindings[k] != (channel_type@, platform_id@),
        call_ensures(AuthManager::identify, (&manager, channel_type, platform_id), got),
    ensures
        got == Some(ids@[at]),
{
    let views = config_views(configs@);
    assert(views[at] == configs@[at]@);
    assert(views[at].bindings[b] == (channel_type@, platform_id@));
    assert forall|i: int, k: int|
        at < i < views.len() && 0 <= k < views[i].bindings.len() implies has_no_colon(
        (#[trigger] views[i].bindings[k]).0,
    ) && views[i].bindings[k] != views[at].bindings[b] by {
        assert(views[i] == configs@[i]@);
        assert(configs@[i]@.bindings[k] == views[i].bindings[k]);
    }
    binding_identifies_user(views, ids@, at, b);
}

/// Of two roles the viewer's is the lesser, or else the user's, or else the admin's; a role equals
/// none but itself, and is greater than those that are less than it.
pub proof fn roles_compare_by_hierarchy(
    a: &UserRole,
    b: &UserRole,
    found: Option<Ordering>,
    reversed: Option<Ordering>,
)
    requires
        call_ensures(UserRole::partial_cmp, (a, b), found),
        call_ensures(UserRole::partial_cmp, (b, a), reversed),
    ensures
        found is Some,
        found == Some(Ordering::Equal) <==> *a == *b,
        found == Some(Ordering::Less) <==> reversed == Some(Ordering::Greater),
        *a != *b && *a is Viewer ==> found == Some(Ordering::Less),
        *a is User && (*b is Admin || *b is Owner) ==> found == Some(Ordering::Less),
        *a is Admin && *b is Owner ==> found == Some(Ordering::Less),
{
}

/// Whoever can be got by an id is in the list of all users, once, and nobody else is; both tell
/// the same name, role and id of them.
pub proof fn everyone_is_listed(
    manager: &AuthManager,
    listed: Vec<UserIdentity>,
    id: UserId,
    got: Option<UserIdentity>,
)
    requires
        call_ensures(AuthManager::list_users, (manager,), listed),
        call_ensures(AuthManager::get_user, (manager, id), got),
    ensures
        got is Some <==> exists|i: int| 0 <= i < listed@.len() && #[trigger] listed@[i].id == id,
        forall|i: int|
            0 <= i < listed@.len() && (#[trigger] listed@[i]).id == id ==> {
                &&& got matches Some(user)
                &&& user.name@ == listed@[i].name@
                &&& user.role == listed@[i].role
                &&& user.id == listed@[i].id
            },
        forall|i: int, j: int|
            0 <= i < listed@.len() && 0 <= j < listed@.len() && (#[trigger] listed@[i]).id == (
            #[trigger] listed@[j]).id ==> i == j,
{
    let ids = listed_ids(listed@);
    assert(ids.len() == listed@.len());
    assert(forall|i: int| 0 <= i < listed@.len() ==> #[trigger] ids[i] == listed@[i].id.0);
    assert forall|i: int|
        0 <= i < listed@.len() && (#[trigger] listed@[i]).id == id implies manager.users().contains_key(
        id.0,
    ) by {
        assert(ids.contains(ids[i]));
        assert(ids.to_set().contains(ids[i]));
    }
    if got is Some {
        assert(ids.to_set().contains(id.0));
        let i = choose|i: int| 0 <= i < ids.len() && ids[i] == id.0;
        assert(listed@[i].id == id);
    }
    assert forall|i: int|
        0 <= i < listed@.len() && (#[trigger] listed@[i]).id == id implies ({
        &&& got matches Some(user)
        &&& user.name@ == listed@[i].name@
        &&& user.role == listed@[i].role
        &&& user.id == listed@[i].id
    }) by {
        assert(got->Some_0@ == listed@[i]@);
    }
    assert forall|i: int, j: int|
        0 <= i < listed@.len() && 0 <= j < listed@.len() && (#[trigger] listed@[i]).id == (
        #[trigger] listed@[j]).id implies i == j by {
        assert(ids[i] == ids[j]);
    }
}

} // verus!
