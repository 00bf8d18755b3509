//! Role-based access control: a cache of roles and their permissions,
//! looked up by role id or role name.
use vstd::prelude::*;
use crate::text::{str_eq, from_chars, to_chars};

verus! {

/// A role, its name and the names of its permissions.
#[derive(Debug)]
pub struct RoleInfo {
    pub id: u128,
    pub name: String,
    pub permissions: Vec<String>,
}

/// The abstract value of a role: id, name, permission names.
pub open spec fn role_view(r: RoleInfo) -> (u128, Seq<char>, Seq<Seq<char>>) {
    (r.id, r.name@, r.permissions@.map_values(|p: String| p@))
}

/// The abstract value of a sequence of roles.
pub open spec fn roles_view(rs: Seq<RoleInfo>) -> Seq<(u128, Seq<char>, Seq<Seq<char>>)> {
    rs.map_values(|r: RoleInfo| role_view(r))
}

/// The position of the last role with id `id`: the one a map keyed by
/// id, filled in order, keeps.
pub open spec fn last_with_id(rs: Seq<(u128, Seq<char>, Seq<Seq<char>>)>, id: u128) -> Option<int>
    decreases rs.len(),
{
    if rs.len() == 0 {
        None
    } else if rs.last().0 == id {
        Some(rs.len() - 1)
    } else {
        last_with_id(rs.drop_last(), id)
    }
}

/// The position of the last role named `name`: the one a map keyed by
/// name, filled in order, keeps.
pub open spec fn last_with_name(rs: Seq<(u128, Seq<char>, Seq<Seq<char>>)>, name: Seq<char>) -> Option<int>
    decreases rs.len(),
{
    if rs.len() == 0 {
        None
    } else if rs.last().1 == name {
        Some(rs.len() - 1)
    } else {
        last_with_name(rs.drop_last(), name)
    }
}

pub proof fn lemma_last_with_id(rs: Seq<(u128, Seq<char>, Seq<Seq<char>>)>, id: u128)
    ensures
        last_with_id(rs, id) matches Some(i) ==> 0 <= i < rs.len() && rs[i].0 == id && forall|j: int| i < j < rs.len() ==> rs[j].0 != id,
        last_with_id(rs, id) is None ==> forall|j: int| 0 <= j < rs.len() ==> rs[j].0 != id,
    decreases rs.len(),
{
    if rs.len() > 0 && rs.last().0 != id {
        lemma_last_with_id(rs.drop_last(), id);
        assert forall|j: int| 0 <= j < rs.len() - 1 implies rs[j] == rs.drop_last()[j] by {}
    }
}

pub proof fn lemma_last_with_name(rs: Seq<(u128, Seq<char>, Seq<Seq<char>>)>, name: Seq<char>)
    ensures
        last_with_name(rs, name) matches Some(i) ==> 0 <= i < rs.len() && rs[i].1 == name && forall|j: int| i < j < rs.len() ==> rs[j].1 != name,
        last_with_name(rs, name) is None ==> forall|j: int| 0 <= j < rs.len() ==> rs[j].1 != name,
    decreases rs.len(),
{
    if rs.len() > 0 && rs.last().1 != name {
        lemma_last_with_name(rs.drop_last(), name);
        assert forall|j: int| 0 <= j < rs.len() - 1 implies rs[j] == rs.drop_last()[j] by {}
    }
}

/// The roles known to the server, keyed by id and by name.
#[derive(Debug)]
pub struct RoleCache {
    roles: Vec<RoleInfo>,
}

impl View for RoleCache {
    type V = Seq<(u128, Seq<char>, Seq<Seq<char>>)>;

    closed spec fn view(&self) -> Self::V {
        roles_view(self.roles@)
    }
}

/// The name of the role with id `id`, if the cache holds it.
pub open spec fn name_for_id_spec(c: Seq<(u128, Seq<char>, Seq<Seq<char>>)>, id: u128) -> Option<Seq<char>> {
    match last_with_id(c, id) {
        Some(i) => Some(c[i].1),
        None => None,
    }
}

/// The id of the role named `name`, if the cache holds it.
pub open spec fn id_for_name_spec(c: Seq<(u128, Seq<char>, Seq<Seq<char>>)>, name: Seq<char>) -> Option<u128> {
    match last_with_name(c, name) {
        Some(i) => Some(c[i].0),
        None => None,
    }
}

/// The permissions of the role with id `id`, empty when the cache does not hold it.
pub open spec fn permissions_for_id_spec(c: Seq<(u128, Seq<char>, Seq<Seq<char>>)>, id: u128) -> Seq<Seq<char>> {
    match last_with_id(c, id) {
        Some(i) => c[i].2,
        None => Seq::empty(),
    }
}

/// Whether the role with id `id` grants `permission`.
pub open spec fn has_by_id_spec(c: Seq<(u128, Seq<char>, Seq<Seq<char>>)>, id: u128, permission: Seq<char>) -> bool {
    match last_with_id(c, id) {
        Some(i) => c[i].2.contains(permission),
        None => false,
    }
}

fn clone_string(s: &String) -> (r: String)
    ensures
        r@ == s@,
{
    from_chars(&to_chars(s.as_str()))
}

impl RoleCache {
    /// A cache holding no role.
    pub fn empty() -> (r: RoleCache)
        ensures
            r@ == Seq::<(u128, Seq<char>, Seq<Seq<char>>)>::empty(),
    {
        let r = RoleCache { roles: Vec::new() };
        assert(r@ =~= Seq::<(u128, Seq<char>, Seq<Seq<char>>)>::empty());
        r
    }

    /// Replaces the cache's contents with `roles`. Where two roles share an
    /// id or a name, lookups find the later one.
    pub fn populate(&mut self, roles: Vec<RoleInfo>)
        ensures
            final(self)@ == roles_view(roles@),
    {
        self.roles = roles;
    }

    fn find_id(&self, id: u128) -> (r: Option<usize>)
        ensures
            match r {
                Some(i) => last_with_id(self@, id) == Some(i as int) && i < self.roles@.len(),
                None => last_with_id(self@, id) is None,
            },
    {
        let mut k: usize = self.roles.len();
        assert(self@.take(k as int) =~= self@);
        proof { lemma_last_with_id(self@, id); }
        while k > 0
            invariant
                k <= self.roles@.len(),
                self@.len() == self.roles@.len(),
                last_with_id(self@, id) == last_with_id(self@.take(k as int), id),
            decreases k,
        {
            assert(self@[k - 1].0 == self.roles@[k - 1].id);
            if self.roles[k - 1].id == id {
                assert(self@.take(k as int).last() == self@[k - 1]);
                return Some(k - 1);
            }
            assert(self@.take(k as int).drop_last() =~= self@.take(k - 1));
            k -= 1;
        }
        None
    }

    fn find_name(&self, name: &str) -> (r: Option<usize>)
        ensures
            match r {
                Some(i) => last_with_name(self@, name@) == Some(i as int) && i < self.roles@.len(),
                None => last_with_name(self@, name@) is None,
            },
    {
        let mut k: usize = self.roles.len();
        assert(self@.take(k as int) =~= self@);
        proof { lemma_last_with_name(self@, name@); }
        while k > 0
            invariant
                k <= self.roles@.len(),
                self@.len() == self.roles@.len(),
                last_with_name(self@, name@) == last_with_name(self@.take(k as int), name@),
            decreases k,
        {
            assert(self@[k - 1].1 == self.roles@[k - 1].name@);
            if str_eq(self.roles[k - 1].name.as_str(), name) {
                assert(self@.take(k as int).last() == self@[k - 1]);
                return Some(k - 1);
            }
            assert(self@.take(k as int).drop_last() =~= self@.take(k - 1));
            k -= 1;
        }
        None
    }

    /// Whether the role with id `role_id` grants `permission`.
    pub fn has_by_id(&self, role_id: &u128, permission: &str) -> (r: bool)
        ensures
            r == has_by_id_spec(self@, *role_id, permission@),
    {
        match self.find_id(*role_id) {
            Some(i) => {
                let perms = &self.roles[i].permissions;
                let ghost pv = self@[i as int].2;
                assert(pv == perms@.map_values(|p: String| p@));
                let mut k: usize = 0;
                while k < perms.len()
                    invariant
                        k <= perms@.len(),
                        pv == perms@.map_values(|p: String| p@),
                        pv == self@[i as int].2,
                        last_with_id(self@, *role_id) == Some(i as int),
                        forall|j: int| 0 <= j < k ==> pv[j] != permission@,
                    decreases perms@.len() - k,
                {
                    if str_eq(perms[k].as_str(), permission) {
                        assert(pv[k as int] == permission@);
                        assert(pv.contains(permission@));
                        return true;
                    }
                    k += 1;
                }
                false
            },
            None => false,
        }
    }

    /// The id of the role named `name`.
    pub fn id_for_name(&self, name: &str) -> (r: Option<u128>)
        ensures
            r == id_for_name_spec(self@, name@),
    {
        match self.find_name(name) {
            Some(i) => Some(self.roles[i].id),
            None => None,
        }
    }

    /// The name of the role with id `id`.
    pub fn name_for_id(&self, id: &u128) -> (r: Option<String>)
        ensures
            match r {
                Some(n) => name_for_id_spec(self@, *id) == Some(n@),
                None => name_for_id_spec(self@, *id) is None,
            },
    {
        match self.find_id(*id) {
            Some(i) => Some(clone_string(&self.roles[i].name)),
            None => None,
        }
    }

    /// The permissions of the role with id `role_id`; none for an unknown role.
    pub fn permissions_for_id(&self, role_id: &u128) -> (r: Vec<String>)
        ensures
            r@.map_values(|p: String| p@) == permissions_for_id_spec(self@, *role_id),
    {
        let mut out: Vec<String> = Vec::new();
        match self.find_id(*role_id) {
            Some(i) => {
                let perms = &self.roles[i].permissions;
                let ghost pv = self@[i as int].2;
                assert(pv == perms@.map_values(|p: String| p@));
                let mut k: usize = 0;
                while k < perms.len()
                    invariant
                        k <= perms@.len(),
                        pv == perms@.map_values(|p: String| p@),
                        out@.map_values(|p: String| p@) == pv.take(k as int),
                    decreases perms@.len() - k,
                {
                    let c = clone_string(&perms[k]);
                    assert(c@ == pv[k as int]);
                    let ghost before = out@;
                    out.push(c);
                    assert(out@ == before.push(c));
                    assert(out@.map_values(|p: String| p@) =~= before.map_values(|p: String| p@).push(c@));
                    assert(pv.take(k + 1) =~= pv.take(k as int).push(pv[k as int]));
                    k += 1;
                    assert(out@.map_values(|p: String| p@) =~= pv.take(k as int));
                }
                assert(pv.take(perms@.len() as int) =~= pv);
                out
            },
            None => {
                assert(out@.map_values(|p: String| p@) =~= Seq::<Seq<char>>::empty());
                out
            },
        }
    }
}

/// After `populate`, a name that a single role bears and an id that a
/// single role bears lead to each other.
pub proof fn law_name_and_id_agree(c: Seq<(u128, Seq<char>, Seq<Seq<char>>)>, i: int)
    requires
        0 <= i < c.len(),
        forall|j: int| 0 <= j < c.len() && j != i ==> c[j].0 != c[i].0 && c[j].1 != c[i].1,
    ensures
        id_for_name_spec(c, c[i].1) == Some(c[i].0),
        name_for_id_spec(c, c[i].0) == Some(c[i].1),
{
    lemma_last_with_id(c, c[i].0);
    lemma_last_with_name(c, c[i].1);
}

/// A role the cache does not hold grants nothing and has no permissions.
pub proof fn law_unknown_role_grants_nothing(c: Seq<(u128, Seq<char>, Seq<Seq<char>>)>, id: u128, p: Seq<char>)
    requires
        forall|j: int| 0 <= j < c.len() ==> c[j].0 != id,
    ensures
        !has_by_id_spec(c, id, p),
        permissions_for_id_spec(c, id) == Seq::<Seq<char>>::empty(),
        name_for_id_spec(c, id) is None,
{
    lemma_last_with_id(c, id);
}

/// A role grants a permission exactly when the permission is among those
/// listed for the role.
pub proof fn law_has_matches_permissions(c: Seq<(u128, Seq<char>, Seq<Seq<char>>)>, id: u128, p: Seq<char>)
    ensures
        has_by_id_spec(c, id, p) == permissions_for_id_spec(c, id).contains(p),
{
}

} // verus!
