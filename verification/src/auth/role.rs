//! Roles, actions, and which role an action needs.

use crate::text::same_text;
use std::cmp::Ordering;
use vstd::prelude::*;

verus! {

/// User roles with hierarchical permissions.
#[derive(Debug, Clone, Copy, PartialEq, Eq, Ord, Structural)]
pub enum UserRole {
    /// Read-only access: can view agent output but cannot interact.
    Viewer,
    /// Standard user: can chat with agents.
    User,
    /// Admin: can spawn/kill agents, install skills, view usage.
    Admin,
    /// Owner: full access including user management and config changes.
    Owner,
}

impl UserRole {
    /// The place of a role in the hierarchy.
    pub open spec fn rank(self) -> int {
        match self {
            UserRole::Viewer => 0,
            UserRole::User => 1,
            UserRole::Admin => 2,
            UserRole::Owner => 3,
        }
    }
}

/// How two ranks compare.
pub open spec fn compared(a: int, b: int) -> Option<Ordering> {
    if a < b {
        Some(Ordering::Less)
    } else if a == b {
        Some(Ordering::Equal)
    } else {
        Some(Ordering::Greater)
    }
}

impl PartialOrd for UserRole {
    fn partial_cmp(&self, other: &Self) -> (r: Option<Ordering>) {
        let a: u8 = self.level();
        let b: u8 = other.level();
        if a < b {
            Some(Ordering::Less)
        } else if a == b {
            Some(Ordering::Equal)
        } else {
            Some(Ordering::Greater)
        }
    }
}

impl vstd::std_specs::cmp::PartialOrdSpecImpl for UserRole {
    open spec fn obeys_partial_cmp_spec() -> bool {
        true
    }

    open spec fn partial_cmp_spec(&self, other: &Self) -> Option<Ordering> {
        compared(self.rank(), other.rank())
    }
}

/// The name of a role.
pub open spec fn role_name(role: UserRole) -> Seq<char> {
    match role {
        UserRole::Viewer => "viewer"@,
        UserRole::User => "user"@,
        UserRole::Admin => "admin"@,
        UserRole::Owner => "owner"@,
    }
}

/// The role that a lower-case text names; any other text stands for a standard user.
pub open spec fn role_named(lowered: Seq<char>) -> UserRole {
    if lowered == "owner"@ {
        UserRole::Owner
    } else if lowered == "admin"@ {
        UserRole::Admin
    } else if lowered == "viewer"@ {
        UserRole::Viewer
    } else {
        UserRole::User
    }
}

/// Whether a text holds nothing but ASCII characters.
pub open spec fn is_ascii_text(text: Seq<char>) -> bool {
    forall|i: int| 0 <= i < text.len() ==> (#[trigger] text[i] as u32) < 128
}

/// An ASCII letter in lower case, any other character as it is.
pub open spec fn ascii_lower(c: char) -> char {
    if 'A' <= c <= 'Z' {
        (c as u32 + 32) as char
    } else {
        c
    }
}

/// The lower-case form that `str::to_lowercase` gives of a text that is not all ASCII.
pub uninterp spec fn wide_lowercase(text: Seq<char>) -> Seq<char>;

/// The lower-case form of a text.
pub open spec fn lowercase(text: Seq<char>) -> Seq<char> {
    if is_ascii_text(text) {
        text.map_values(|c: char| ascii_lower(c))
    } else {
        wide_lowercase(text)
    }
}

/// `str::to_lowercase`: of a text that is all ASCII, the letters in lower case and the rest as it
/// is. Of another text no more is stated than that the result depends on the text alone.
#[verifier::external_body]
fn to_lowercase(text: &str) -> (r: String)
    ensures
        is_ascii_text(text@) ==> r@ == text@.map_values(|c: char| ascii_lower(c)),
        !is_ascii_text(text@) ==> r@ == wide_lowercase(text@),
{
    text.to_lowercase()
}

impl UserRole {
    /// The place of a role in the hierarchy.
    fn level(&self) -> (r: u8)
        ensures
            r == self.rank(),
    {
        match self {
            UserRole::Viewer => 0,
            UserRole::User => 1,
            UserRole::Admin => 2,
            UserRole::Owner => 3,
        }
    }

    /// The name of the role.
    pub fn to_string(&self) -> (r: String)
        ensures
            r@ == role_name(*self),
    {
        match self {
            UserRole::Viewer => "viewer".to_string(),
            UserRole::User => "user".to_string(),
            UserRole::Admin => "admin".to_string(),
            UserRole::Owner => "owner".to_string(),
        }
    }

    /// The role that a lower-case text names.
    pub fn from_lowercase(lowered: &str) -> (r: Self)
        ensures
            r == role_named(lowered@),
    {
        if same_text(lowered, "owner") {
            UserRole::Owner
        } else if same_text(lowered, "admin") {
            UserRole::Admin
        } else if same_text(lowered, "viewer") {
            UserRole::Viewer
        } else {
            UserRole::User
        }
    }

    /// Parse a role from a string.
    pub fn from_str_role(s: &str) -> (r: Self)
        ensures
            r == role_named(lowercase(s@)),
    {
        Self::from_lowercase(to_lowercase(s).as_str())
    }
}

/// Actions that can be authorized.
#[derive(Debug, Clone, Copy, PartialEq, Eq, Structural)]
pub enum Action {
    /// Chat with an agent.
    ChatWithAgent,
    /// Spawn a new agent.
    SpawnAgent,
    /// Kill a running agent.
    KillAgent,
    /// Install a skill.
    InstallSkill,
    /// View kernel configuration.
    ViewConfig,
    /// Modify kernel configuration.
    ModifyConfig,
    /// View usage/billing data.
    ViewUsage,
    /// Manage users (create, delete, change roles).
    ManageUsers,
}

/// The least role that may perform an action.
pub open spec fn needed_role(action: Action) -> UserRole {
    match action {
        Action::ChatWithAgent | Action::ViewConfig => UserRole::User,
        Action::ViewUsage | Action::SpawnAgent | Action::KillAgent | Action::InstallSkill =>
            UserRole::Admin,
        Action::ModifyConfig | Action::ManageUsers => UserRole::Owner,
    }
}

/// The name of an action.
pub open spec fn action_name(action: Action) -> Seq<char> {
    match action {
        Action::ChatWithAgent => "ChatWithAgent"@,
        Action::SpawnAgent => "SpawnAgent"@,
        Action::KillAgent => "KillAgent"@,
        Action::InstallSkill => "InstallSkill"@,
        Action::ViewConfig => "ViewConfig"@,
        Action::ModifyConfig => "ModifyConfig"@,
        Action::ViewUsage => "ViewUsage"@,
        Action::ManageUsers => "ManageUsers"@,
    }
}

impl Action {
    /// Minimum role required for this action.
    pub fn required_role(&self) -> (r: UserRole)
        ensures
            r == needed_role(*self),
    {
        match self {
            Action::ChatWithAgent => UserRole::User,
            Action::ViewConfig => UserRole::User,
            Action::ViewUsage => UserRole::Admin,
            Action::SpawnAgent => UserRole::Admin,
            Action::KillAgent => UserRole::Admin,
            Action::InstallSkill => UserRole::Admin,
            Action::ModifyConfig => UserRole::Owner,
            Action::ManageUsers => UserRole::Owner,
        }
    }

    /// The name of the action.
    pub fn name(&self) -> (r: String)
        ensures
            r@ == action_name(*self),
    {
        match self {
            Action::ChatWithAgent => "ChatWithAgent".to_string(),
            Action::SpawnAgent => "SpawnAgent".to_string(),
            Action::KillAgent => "KillAgent".to_string(),
            Action::InstallSkill => "InstallSkill".to_string(),
            Action::ViewConfig => "ViewConfig".to_string(),
            Action::ModifyConfig => "ModifyConfig".to_string(),
            Action::ViewUsage => "ViewUsage".to_string(),
            Action::ManageUsers => "ManageUsers".to_string(),
        }
    }
}

/// The name of a role, in whatever mixture of upper and lower case, names that role.
pub proof fn role_name_reads_back(role: UserRole, written: Seq<char>)
    requires
        is_ascii_text(written),
        written.map_values(|c: char| ascii_lower(c)) == role_name(role),
    ensures
        role_named(lowercase(written)) == role,
{
    reveal_strlit("viewer");
    reveal_strlit("user");
    reveal_strlit("admin");
    reveal_strlit("owner");
    assert("viewer"@[0] == 'v');
    assert("user"@[0] == 'u');
    assert("admin"@[0] == 'a');
    assert("owner"@[0] == 'o');
}

} // verus!
