//! The access policy: the roles an installation starts with and the
//! permissions each one grants.
use vstd::prelude::*;

verus! {

/// A role as it is first created, with the permissions it grants.
#[derive(Debug)]
pub struct RoleSeed {
    pub name: &'static str,
    pub description: &'static str,
    pub permissions: Vec<&'static str>,
}

/// The texts of a list of names.
pub open spec fn names_view(v: Seq<&'static str>) -> Seq<Seq<char>> {
    Seq::new(v.len(), |i: int| v[i]@)
}

/// The roles, in the order they are created.
pub open spec fn seeded_role_names() -> Seq<Seq<char>> {
    seq!["deleted"@, "banned"@, "pending"@, "member"@, "admin"@]
}

/// The descriptions of the roles, in the same order.
pub open spec fn seeded_role_descriptions() -> Seq<Seq<char>> {
    seq![
        "Soft-deleted account, no access."@,
        "Banned account, no access, data retained."@,
        "Awaiting admin approval."@,
        "Standard user."@,
        "Full administrative access."@,
    ]
}

/// The permissions an installation starts with, in the order they are
/// created: every permission some role grants.
pub open spec fn seeded_permission_names() -> Seq<Seq<char>> {
    admin_permissions()
}

/// The descriptions of the permissions, in the same order.
pub open spec fn seeded_permission_descriptions() -> Seq<Seq<char>> {
    seq![
        "Can authenticate."@,
        "Can edit own profile."@,
        "Can request own password reset."@,
        "Can access the admin panel."@,
        "Can edit any user profile."@,
        "Can approve or unapprove pending accounts."@,
        "Can ban or unban accounts."@,
        "Can delete accounts."@,
        "Can issue password resets for any user."@,
        "Can create and delete OAuth clients."@,
        "Can promote or demote admins."@,
    ]
}

/// What a standard member may do.
pub open spec fn member_permissions() -> Seq<Seq<char>> {
    seq!["login"@, "edit_self"@, "reset_own_pw"@]
}

/// What an administrator may do: everything a member may, and the
/// administrative permissions.
pub open spec fn admin_permissions() -> Seq<Seq<char>> {
    member_permissions() + seq![
        "access_admin"@,
        "edit_users"@,
        "approve_users"@,
        "ban_users"@,
        "delete_users"@,
        "reset_any_pw"@,
        "manage_clients"@,
        "manage_admins"@,
    ]
}

/// The permissions the role named `name` grants: members and admins their
/// own lists; deleted, banned and pending accounts nothing.
pub open spec fn role_grants(name: Seq<char>) -> Seq<Seq<char>> {
    if name == "member"@ {
        member_permissions()
    } else if name == "admin"@ {
        admin_permissions()
    } else {
        Seq::empty()
    }
}

/// The seeded role names differ from one another, and the member
/// permissions from `access_admin`.
proof fn lemma_names_distinct()
    ensures
        "deleted"@ != "member"@ && "deleted"@ != "admin"@,
        "banned"@ != "member"@ && "banned"@ != "admin"@,
        "pending"@ != "member"@ && "pending"@ != "admin"@,
        "member"@ != "admin"@,
        !member_permissions().contains("access_admin"@),
{
    reveal_strlit("deleted");
    reveal_strlit("banned");
    reveal_strlit("pending");
    reveal_strlit("member");
    reveal_strlit("admin");
    reveal_strlit("login");
    reveal_strlit("edit_self");
    reveal_strlit("reset_own_pw");
    reveal_strlit("access_admin");
    assert("deleted"@[0] == 'd' && "banned"@[0] == 'b' && "pending"@[0] == 'p');
    assert("member"@[0] == 'm' && "admin"@[0] == 'a');
    assert("login"@[0] == 'l' && "edit_self"@[0] == 'e' && "reset_own_pw"@[0] == 'r');
    assert forall|k: int| 0 <= k < 3 implies member_permissions()[k] != "access_admin"@ by {
        assert(member_permissions()[k][0] != 'a');
    }
}

/// The roles an installation starts with, each with the permissions it grants.
pub fn seed_roles() -> (r: Vec<RoleSeed>)
    ensures
        r@.len() == seeded_role_names().len(),
        forall|i: int| 0 <= i < r@.len() ==> #[trigger] r@[i].name@ == seeded_role_names()[i]
            && r@[i].description@ == seeded_role_descriptions()[i]
            && names_view(r@[i].permissions@) == role_grants(seeded_role_names()[i]),
{
    proof {
        reveal_strlit("deleted");
        reveal_strlit("banned");
        reveal_strlit("pending");
        reveal_strlit("member");
        reveal_strlit("admin");
    }
    let member: Vec<&'static str> = vec!["login", "edit_self", "reset_own_pw"];
    let admin: Vec<&'static str> = vec![
        "login",
        "edit_self",
        "reset_own_pw",
        "access_admin",
        "edit_users",
        "approve_users",
        "ban_users",
        "delete_users",
        "reset_any_pw",
        "manage_clients",
        "manage_admins",
    ];
    assert(names_view(member@) =~= member_permissions());
    assert(names_view(admin@) =~= admin_permissions());
    let r: Vec<RoleSeed> = vec![
        RoleSeed { name: "deleted", description: "Soft-deleted account, no access.", permissions: Vec::new() },
        RoleSeed { name: "banned", description: "Banned account, no access, data retained.", permissions: Vec::new() },
        RoleSeed { name: "pending", description: "Awaiting admin approval.", permissions: Vec::new() },
        RoleSeed { name: "member", description: "Standard user.", permissions: member },
        RoleSeed { name: "admin", description: "Full administrative access.", permissions: admin },
    ];
    assert(names_view(Seq::<&'static str>::empty()) =~= Seq::<Seq<char>>::empty());
    proof {
        lemma_names_distinct();
        reveal_strlit("Soft-deleted account, no access.");
        reveal_strlit("Banned account, no access, data retained.");
        reveal_strlit("Awaiting admin approval.");
        reveal_strlit("Standard user.");
        reveal_strlit("Full administrative access.");
    }
    r
}

/// A permission as it is first created.
#[derive(Debug)]
pub struct PermissionSeed {
    pub name: &'static str,
    pub description: &'static str,
}

/// The permissions an installation starts with, each with its description.
pub fn seed_permissions() -> (r: Vec<PermissionSeed>)
    ensures
        r@.len() == seeded_permission_names().len(),
        forall|i: int| 0 <= i < r@.len() ==> #[trigger] r@[i].name@ == seeded_permission_names()[i]
            && r@[i].description@ == seeded_permission_descriptions()[i],
{
    let r: Vec<PermissionSeed> = vec![
        PermissionSeed { name: "login", description: "Can authenticate." },
        PermissionSeed { name: "edit_self", description: "Can edit own profile." },
        PermissionSeed { name: "reset_own_pw", description: "Can request own password reset." },
        PermissionSeed { name: "access_admin", description: "Can access the admin panel." },
        PermissionSeed { name: "edit_users", description: "Can edit any user profile." },
        PermissionSeed { name: "approve_users", description: "Can approve or unapprove pending accounts." },
        PermissionSeed { name: "ban_users", description: "Can ban or unban accounts." },
        PermissionSeed { name: "delete_users", description: "Can delete accounts." },
        PermissionSeed { name: "reset_any_pw", description: "Can issue password resets for any user." },
        PermissionSeed { name: "manage_clients", description: "Can create and delete OAuth clients." },
        PermissionSeed { name: "manage_admins", description: "Can promote or demote admins." },
    ];
    r
}

/// Every permission a seeded role grants is itself seeded, so linking
/// roles to permissions never meets an unknown permission.
pub proof fn law_granted_permissions_are_seeded(i: int, p: Seq<char>)
    requires
        0 <= i < seeded_role_names().len(),
        role_grants(seeded_role_names()[i]).contains(p),
    ensures
        seeded_permission_names().contains(p),
{
    if seeded_role_names()[i] == "member"@ {
        let k = choose|k: int| 0 <= k < member_permissions().len() && member_permissions()[k] == p;
        assert(admin_permissions()[k] == member_permissions()[k]);
    }
}

/// Deleted, banned and pending accounts are granted nothing; in
/// particular none of them may sign in.
pub proof fn law_inactive_roles_grant_nothing()
    ensures
        role_grants("deleted"@) == Seq::<Seq<char>>::empty(),
        role_grants("banned"@) == Seq::<Seq<char>>::empty(),
        role_grants("pending"@) == Seq::<Seq<char>>::empty(),
{
    lemma_names_distinct();
}

/// Of the roles an installation starts with, exactly members and admins
/// may sign in, and only admins reach the admin panel.
pub proof fn law_sign_in_and_panel_access(i: int)
    requires
        0 <= i < seeded_role_names().len(),
    ensures
        role_grants(seeded_role_names()[i]).contains("login"@)
            <==> (seeded_role_names()[i] == "member"@ || seeded_role_names()[i] == "admin"@),
        role_grants(seeded_role_names()[i]).contains("access_admin"@) <==> seeded_role_names()[i] == "admin"@,
{
    reveal_strlit("deleted");
    reveal_strlit("banned");
    reveal_strlit("pending");
    reveal_strlit("member");
    reveal_strlit("admin");
    reveal_strlit("login");
    reveal_strlit("access_admin");
    lemma_names_distinct();
    assert(member_permissions()[0] == "login"@);
    assert(admin_permissions()[0] == "login"@);
    assert(admin_permissions()[3] == "access_admin"@);
}

} // verus!
