//! The admin panel: the users sorted by standing, role changes, OAuth
//! client registration and forced deletion.
use vstd::prelude::*;
use crate::codec::{new_uuid_v4, uuid_text, uuid_to_text};
use crate::crypto::{argon2_hash, argon2_verify_result, lemma_utf8_len_at_most_four_per_char};
use crate::error::AppError;
use crate::models::{OAuthClient, User};
use crate::oauth::client_auth::secret_accepted;
use crate::rbac::{id_for_name_spec, RoleCache};
use crate::session::{data_view, get_spec, Session};
use crate::helpers::USER_SESSION_KEY;
use crate::text::{str_eq, trim, trim_str};

verus! {

/// The form that changes a user's role.
#[derive(Debug)]
pub struct SetRoleForm {
    pub user_id: String,
    pub role: String,
}

/// The form that issues a reset link for a user.
#[derive(Debug)]
pub struct ResetForm {
    pub user_id: String,
}

/// The form that registers an OAuth client.
#[derive(Debug)]
pub struct CreateClientForm {
    pub name: String,
    pub redirect_uri: String,
}

/// The form that deletes an OAuth client.
#[derive(Debug)]
pub struct DeleteClientForm {
    pub client_id: String,
}

/// The form that deletes a user's account.
#[derive(Debug)]
pub struct ForceDeleteForm {
    pub user_id: String,
}

/// Where the admin panel lists a user.
#[derive(Debug, PartialEq, Eq, Structural, Clone, Copy)]
pub enum Standing {
    Pending,
    Active,
    Banned,
    Deleted,
}

/// The ids of the roles that sort users; a role the cache lacks counts as
/// the nil id (0).
#[derive(Debug, Clone, Copy)]
pub struct StandingRoles {
    pub deleted: u128,
    pub banned: u128,
    pub pending: u128,
}

/// The id of the role named `name`, or 0.
pub open spec fn role_or_nil(roles: Seq<(u128, Seq<char>, Seq<Seq<char>>)>, name: Seq<char>) -> u128 {
    match id_for_name_spec(roles, name) {
        Some(id) => id,
        None => 0,
    }
}

/// The sorting roles as the cache names them.
pub fn standing_roles(roles: &RoleCache) -> (r: StandingRoles)
    ensures
        r.deleted == role_or_nil(roles@, "deleted"@),
        r.banned == role_or_nil(roles@, "banned"@),
        r.pending == role_or_nil(roles@, "pending"@),
{
    let deleted = match roles.id_for_name("deleted") {
        Some(id) => id,
        None => 0,
    };
    let banned = match roles.id_for_name("banned") {
        Some(id) => id,
        None => 0,
    };
    let pending = match roles.id_for_name("pending") {
        Some(id) => id,
        None => 0,
    };
    StandingRoles { deleted, banned, pending }
}

/// The standing of a user with role `role`: deleted, then banned, then
/// pending are checked in that order; any other role is active.
pub open spec fn standing_of(role: u128, s: StandingRoles) -> Standing {
    if role == s.deleted {
        Standing::Deleted
    } else if role == s.banned {
        Standing::Banned
    } else if role == s.pending {
        Standing::Pending
    } else {
        Standing::Active
    }
}

/// The standing of a user with role `role`.
pub fn standing(role: u128, s: StandingRoles) -> (r: Standing)
    ensures
        r == standing_of(role, s),
{
    if role == s.deleted {
        Standing::Deleted
    } else if role == s.banned {
        Standing::Banned
    } else if role == s.pending {
        Standing::Pending
    } else {
        Standing::Active
    }
}

/// The positions, in order, among the first `n` users, of those with
/// standing `which`.
pub open spec fn members(users: Seq<User>, s: StandingRoles, which: Standing, n: nat) -> Seq<usize>
    decreases n,
{
    if n == 0 {
        Seq::empty()
    } else {
        let rest = members(users, s, which, (n - 1) as nat);
        if standing_of(users[n - 1].role, s) == which {
            rest.push((n - 1) as usize)
        } else {
            rest
        }
    }
}

/// The users sorted by standing, as positions into the list given, each
/// group in the list's order.
#[derive(Debug)]
pub struct Standings {
    pub pending: Vec<usize>,
    pub active: Vec<usize>,
    pub banned: Vec<usize>,
    pub deleted: Vec<usize>,
}

/// Sorts `users` by standing.
pub fn sort_by_standing(users: &Vec<User>, roles: &RoleCache) -> (r: Standings)
    ensures
        ({
            let s = StandingRoles {
                deleted: role_or_nil(roles@, "deleted"@),
                banned: role_or_nil(roles@, "banned"@),
                pending: role_or_nil(roles@, "pending"@),
            };
            &&& r.pending@ == members(users@, s, Standing::Pending, users@.len())
            &&& r.active@ == members(users@, s, Standing::Active, users@.len())
            &&& r.banned@ == members(users@, s, Standing::Banned, users@.len())
            &&& r.deleted@ == members(users@, s, Standing::Deleted, users@.len())
        }),
{
    let s = standing_roles(roles);
    let mut r = Standings { pending: Vec::new(), active: Vec::new(), banned: Vec::new(), deleted: Vec::new() };
    let mut i: usize = 0;
    while i < users.len()
        invariant
            i <= users@.len(),
            r.pending@ == members(users@, s, Standing::Pending, i as nat),
            r.active@ == members(users@, s, Standing::Active, i as nat),
            r.banned@ == members(users@, s, Standing::Banned, i as nat),
            r.deleted@ == members(users@, s, Standing::Deleted, i as nat),
        decreases users@.len() - i,
    {
        match standing(users[i].role, s) {
            Standing::Pending => r.pending.push(i),
            Standing::Active => r.active.push(i),
            Standing::Banned => r.banned.push(i),
            Standing::Deleted => r.deleted.push(i),
        }
        i += 1;
    }
    r
}

/// A position is among the first `n` users of standing `which` exactly when
/// it is below `n` and that user has that standing.
pub proof fn lemma_members(users: Seq<User>, s: StandingRoles, which: Standing, n: nat, i: usize)
    requires
        n <= users.len(),
        n <= usize::MAX,
    ensures
        members(users, s, which, n).contains(i) <==> i < n && standing_of(users[i as int].role, s) == which,
    decreases n,
{
    if n > 0 {
        lemma_members(users, s, which, (n - 1) as nat, i);
        let rest = members(users, s, which, (n - 1) as nat);
        if standing_of(users[n - 1].role, s) == which {
            let last = (n - 1) as usize;
            let full = rest.push(last);
            assert(full[rest.len() as int] == last);
            if rest.contains(i) {
                let k = choose|k: int| 0 <= k < rest.len() && #[trigger] rest[k] == i;
                assert(full[k] == i);
            }
            if full.contains(i) && i != last {
                let k = choose|k: int| 0 <= k < full.len() && #[trigger] full[k] == i;
                assert(k < rest.len());
                assert(rest[k] == full[k]);
            }
        }
    }
}

/// Every user is listed under exactly one standing: the panel's four
/// groups split the list of users.
pub proof fn law_standings_split_users(users: Seq<User>, s: StandingRoles, i: usize)
    requires
        i < users.len(),
        users.len() <= usize::MAX,
    ensures
        members(users, s, standing_of(users[i as int].role, s), users.len()).contains(i),
        forall|w: Standing| w != standing_of(users[i as int].role, s)
            ==> !(#[trigger] members(users, s, w, users.len())).contains(i),
{
    lemma_members(users, s, standing_of(users[i as int].role, s), users.len(), i);
    assert forall|w: Standing| w != standing_of(users[i as int].role, s)
        implies !(#[trigger] members(users, s, w, users.len())).contains(i) by {
        lemma_members(users, s, w, users.len(), i);
    }
}

/// Whether `name` is one of the roles the panel may assign.
pub open spec fn assignable(name: Seq<char>) -> bool {
    name == "pending"@ || name == "member"@ || name == "admin"@ || name == "banned"@
}

/// The role id the panel assigns for `name`, if any.
pub open spec fn assigned_role(roles: Seq<(u128, Seq<char>, Seq<Seq<char>>)>, name: Seq<char>) -> Option<u128> {
    if assignable(name) { id_for_name_spec(roles, name) } else { None }
}

/// The plan for a role change named `name`: the assigned role, ending
/// sessions for banned and pending, or the error for a role not assigned.
pub open spec fn role_change_fits(
    roles: Seq<(u128, Seq<char>, Seq<Seq<char>>)>,
    name: Seq<char>,
    r: Result<RoleChange, &'static str>,
) -> bool {
    match assigned_role(roles, name) {
        None => r matches Err(m) && m@ == "Invalid role."@,
        Some(id) => r matches Ok(c) && c.role_id == id
            && c.end_sessions == (name == "banned"@ || name == "pending"@),
    }
}

/// The role the panel assigns for `name`: only `pending`, `member`,
/// `admin` and `banned` may be assigned, and only if the cache knows them.
pub fn resolve_role_id(roles: &RoleCache, name: &str) -> (r: Option<u128>)
    ensures
        r == assigned_role(roles@, name@),
{
    if str_eq(name, "pending") || str_eq(name, "member") || str_eq(name, "admin") || str_eq(name, "banned") {
        roles.id_for_name(name)
    } else {
        None
    }
}

/// A role change to write.
#[derive(Debug)]
pub struct RoleChange {
    pub role_id: u128,
    /// Whether the user's sessions end with it (banned or pending users).
    pub end_sessions: bool,
}

/// The role change a form asks for, or the error to show.
pub fn plan_role_change(roles: &RoleCache, form: &SetRoleForm) -> (r: Result<RoleChange, &'static str>)
    ensures
        role_change_fits(roles@, form.role@, r),
{
    match resolve_role_id(roles, form.role.as_str()) {
        None => Err("Invalid role."),
        Some(role_id) => {
            let end_sessions = str_eq(form.role.as_str(), "banned") || str_eq(form.role.as_str(), "pending");
            Ok(RoleChange { role_id, end_sessions })
        },
    }
}

/// The panel assigns exactly the roles pending, member, admin and banned:
/// for one of those names the role resolved is the cache's role of that
/// name, and for any other name (`deleted` among them) nothing is resolved.
pub proof fn law_panel_role_names_resolve(
    roles: Seq<(u128, Seq<char>, Seq<Seq<char>>)>,
    name: Seq<char>,
    r: Option<u128>,
)
    requires
        r == assigned_role(roles, name),
    ensures
        (name == "pending"@ || name == "member"@ || name == "admin"@ || name == "banned"@)
            ==> r == id_for_name_spec(roles, name),
        !(name == "pending"@ || name == "member"@ || name == "admin"@ || name == "banned"@)
            ==> r is None,
{
}

/// A role change to one of pending, member, admin or banned that the
/// cache knows is planned with that role's id, and it ends the user's
/// sessions exactly for banned and pending.
pub proof fn law_role_change_planned(
    roles: Seq<(u128, Seq<char>, Seq<Seq<char>>)>,
    form: SetRoleForm,
    id: u128,
    r: Result<RoleChange, &'static str>,
)
    requires
        role_change_fits(roles, form.role@, r),
        form.role@ == "pending"@ || form.role@ == "member"@ || form.role@ == "admin"@
            || form.role@ == "banned"@,
        id_for_name_spec(roles, form.role@) == Some(id),
    ensures
        r matches Ok(c) && c.role_id == id
            && (c.end_sessions <==> (form.role@ == "banned"@ || form.role@ == "pending"@)),
{
}

/// A client to register, with its secret shown once.
#[derive(Debug)]
pub struct NewClient {
    pub id: u128,
    pub secret: String,
    pub secret_hash: String,
    pub name: String,
    pub redirect_uri: String,
}

/// A new client from the form: a random id, a random secret (the text of
/// a fresh UUID) stored as its Argon2 hash, and the trimmed name and
/// redirect URI.
pub fn new_client(form: &CreateClientForm) -> (r: Result<NewClient, AppError>)
    ensures
        r matches Ok(c) && argon2_verify_result(c.secret@, c.secret_hash@) == Some(true)
            && (exists|u: u128| c.secret@ == uuid_text(u))
            && c.name@ == trim(form.name@) && c.redirect_uri@ == trim(form.redirect_uri@),
{
    let id = new_uuid_v4();
    let secret = uuid_to_text(new_uuid_v4());
    proof {
        lemma_utf8_len_at_most_four_per_char(secret@);
    }
    match argon2_hash(secret.as_str()) {
        Ok(secret_hash) => Ok(NewClient {
            id,
            secret,
            secret_hash,
            name: trim_str(form.name.as_str()),
            redirect_uri: trim_str(form.redirect_uri.as_str()),
        }),
        Err(e) => Err(AppError::Internal(e)),
    }
}

/// A registered client authenticates with the secret shown when it was
/// created: whatever else its row holds, a client stored with the new
/// secret's hash accepts that secret.
pub proof fn law_new_client_secret_accepted(secret: Seq<char>, client: OAuthClient)
    requires
        argon2_verify_result(secret, client.secret_hash@) == Some(true),
    ensures
        secret_accepted(client, secret),
{
}

/// Whether the account being deleted is the signed-in admin's own: the
/// session's user id text equals the form's.
pub fn is_self_delete(session: &Session, form: &ForceDeleteForm) -> (r: bool)
    ensures
        r == (get_spec(data_view(session.data@), "user_id"@) == Some(form.user_id@)),
{
    match session.get(USER_SESSION_KEY) {
        Some(id) => str_eq(id.as_str(), form.user_id.as_str()),
        None => false,
    }
}

} // verus!
