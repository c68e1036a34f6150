use vstd::prelude::*;
use vstd::string::*;

verus! {

/// A group the user belongs to, with the permissions it grants.
#[derive(Debug)]
pub struct Group {
    pub id: String,
    pub name: String,
    pub permissions: Vec<String>,
}

#[derive(Debug)]
pub struct CustomClaims {
    pub groups: Vec<Group>,
}

#[derive(Debug)]
pub struct AppMetadata {
    pub custom_claims: CustomClaims,
}

/// The verified identity and authorization data carried by a bearer token.
#[derive(Debug)]
pub struct Claims {
    pub user_id: String,
    pub app_metadata: AppMetadata,
}

/// The required permissions, in order, that `claims` does not hold.
pub open spec fn missing_of(claims: Claims, required: Seq<Seq<char>>) -> Seq<Seq<char>>
    decreases required.len(),
{
    if required.len() == 0 {
        Seq::empty()
    } else {
        let rest = missing_of(claims, required.drop_last());
        if claims.holds(required.last()) {
            rest
        } else {
            rest.push(required.last())
        }
    }
}

/// The character sequences of a list of permission strings.
pub open spec fn str_views(items: Seq<&str>) -> Seq<Seq<char>> {
    items.map_values(|s: &str| s@)
}

pub open spec fn string_views(items: Seq<String>) -> Seq<Seq<char>> {
    items.map_values(|s: String| s@)
}

impl Claims {
    pub open spec fn groups(&self) -> Seq<Group> {
        self.app_metadata.custom_claims.groups@
    }

    /// Some group grants exactly `perm`: permissions are one flat set across groups.
    pub open spec fn holds(&self, perm: Seq<char>) -> bool {
        exists|g: int, p: int|
            0 <= g < self.groups().len() && 0 <= p < self.groups()[g].permissions@.len()
                && #[trigger] self.groups()[g].permissions@[p]@ == perm
    }

    pub fn has_permission(&self, permission: &str) -> (r: bool)
        ensures
            r == self.holds(permission@),
    {
        let wanted = String::from_str(permission);
        let groups = &self.app_metadata.custom_claims.groups;
        let mut g: usize = 0;
        while g < groups.len()
            invariant
                0 <= g <= groups.len(),
                groups@ == self.groups(),
                wanted@ == permission@,
                forall|gi: int, p: int|
                    0 <= gi < g && 0 <= p < groups@[gi].permissions@.len()
                        ==> #[trigger] groups@[gi].permissions@[p]@ != permission@,
            decreases groups.len() - g,
        {
            let perms = &groups[g].permissions;
            let mut p: usize = 0;
            while p < perms.len()
                invariant
                    0 <= g < groups.len(),
                    groups@ == self.groups(),
                    0 <= p <= perms.len(),
                    perms@ == groups@[g as int].permissions@,
                    wanted@ == permission@,
                    forall|q: int| 0 <= q < p ==> #[trigger] perms@[q]@ != permission@,
                decreases perms.len() - p,
            {
                if perms[p] == wanted {
                    assert(self.groups()[g as int].permissions@[p as int]@ == permission@);
                    return true;
                }
                p += 1;
            }
            g += 1;
        }
        false
    }

    pub fn has_permissions_any(&self, permissions: &[&str]) -> (r: bool)
        ensures
            r == exists|i: int| 0 <= i < permissions@.len() && self.holds(#[trigger] permissions@[i]@),
    {
        let mut i: usize = 0;
        while i < permissions.len()
            invariant
                0 <= i <= permissions@.len(),
                forall|j: int| 0 <= j < i ==> !self.holds(#[trigger] permissions@[j]@),
            decreases permissions.len() - i,
        {
            if self.has_permission(permissions[i]) {
                return true;
            }
            i += 1;
        }
        false
    }

    pub fn has_permissions_all(&self, permissions: &[&str]) -> (r: bool)
        ensures
            r == forall|i: int| 0 <= i < permissions@.len() ==> self.holds(#[trigger] permissions@[i]@),
    {
        let mut i: usize = 0;
        while i < permissions.len()
            invariant
                0 <= i <= permissions@.len(),
                forall|j: int| 0 <= j < i ==> self.holds(#[trigger] permissions@[j]@),
            decreases permissions.len() - i,
        {
            if !self.has_permission(permissions[i]) {
                return false;
            }
            i += 1;
        }
        true
    }

    /// The required permissions that these claims lack, in the order given.
    pub fn missing_permissions(&self, required: &[&str]) -> (r: Vec<String>)
        ensures
            string_views(r@) == missing_of(*self, str_views(required@)),
    {
        let mut missing: Vec<String> = Vec::new();
        let mut i: usize = 0;
        while i < required.len()
            invariant
                0 <= i <= required@.len(),
                string_views(missing@) == missing_of(*self, str_views(required@).take(i as int)),
            decreases required.len() - i,
        {
            let ghost before = missing@;
            assert(str_views(required@).take(i as int + 1).drop_last() =~= str_views(required@).take(i as int));
            if !self.has_permission(required[i]) {
                missing.push(String::from_str(required[i]));
                assert(string_views(missing@) =~= string_views(before).push(required@[i as int]@));
            }
            i += 1;
        }
        assert(str_views(required@).take(required@.len() as int) =~= str_views(required@));
        missing
    }
}

} // verus!
