//! The roles that a user can hold.

use vstd::prelude::*;

verus! {

/// A role that a user of the portal can hold.
#[derive(Clone, Copy, Debug, PartialEq, Eq, Structural)]
pub enum Role {
    Initiator,
    Expert,
    ProjectOffice,
    Admin,
    Member,
    TeamLeader,
    TeamOwner,
    Teacher,
}

/// The name under which a role is stored and shown.
pub open spec fn role_name(role: Role) -> Seq<char> {
    match role {
        Role::Initiator => "INITIATOR"@,
        Role::Expert => "EXPERT"@,
        Role::ProjectOffice => "PROJECT_OFFICE"@,
        Role::Admin => "ADMIN"@,
        Role::Member => "MEMBER"@,
        Role::TeamLeader => "TEAM_LEADER"@,
        Role::TeamOwner => "TEAM_OWNER"@,
        Role::Teacher => "TEACHER"@,
    }
}

impl Role {
    /// Renders the role under its stored name.
    pub fn to_string(&self) -> (text: String)
        ensures
            text@ == role_name(*self),
    {
        match self {
            Role::Initiator => String::from_str("INITIATOR"),
            Role::Expert => String::from_str("EXPERT"),
            Role::ProjectOffice => String::from_str("PROJECT_OFFICE"),
            Role::Admin => String::from_str("ADMIN"),
            Role::Member => String::from_str("MEMBER"),
            Role::TeamLeader => String::from_str("TEAM_LEADER"),
            Role::TeamOwner => String::from_str("TEAM_OWNER"),
            Role::Teacher => String::from_str("TEACHER"),
        }
    }
}

/// Whether `roles` holds `role`.
pub fn holds(roles: &Vec<Role>, role: Role) -> (found: bool)
    ensures
        found == roles@.contains(role),
{
    let mut i: usize = 0;
    while i < roles.len()
        invariant
            i <= roles.len(),
            forall|j: int| 0 <= j < i ==> roles@[j] != role,
        decreases roles.len() - i,
    {
        if roles[i] == role {
            return true;
        }
        i += 1;
    }
    false
}

/// Copies a list of roles.
pub fn copy_roles(roles: &Vec<Role>) -> (copy: Vec<Role>)
    ensures
        copy@ == roles@,
{
    let mut copy: Vec<Role> = Vec::new();
    let mut i: usize = 0;
    while i < roles.len()
        invariant
            i <= roles.len(),
            copy@ == roles@.take(i as int),
        decreases roles.len() - i,
    {
        copy.push(roles[i]);
        i += 1;
    }
    copy
}

} // verus!
