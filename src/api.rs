use vstd::prelude::*;
use vstd::string::*;

use crate::auth::JwtAuth;
use crate::claims::{missing_of, str_views, Claims};
use crate::error::TenureError;
use crate::tenure::{
    active_other, descending, has_id, without_id, year_taken_by_other, StorageError, Tenure, TenureTable,
};

verus! {

pub const CREATE_PERMISSION: &'static str = "member-portal.tenure.create";
pub const UPDATE_PERMISSION: &'static str = "member-portal.tenure.update";
pub const DELETE_PERMISSION: &'static str = "member-portal.tenure.delete";

#[derive(Debug)]
pub struct CreateTenureRequest {
    pub year: i32,
    pub is_active: bool,
}

#[derive(Debug)]
pub struct PutTenureRequest {
    pub id: u128,
    pub year: i32,
    pub is_active: bool,
}

#[derive(Debug)]
pub struct DeleteTenureRequest {
    pub id: u128,
}

/// The row with `id` exists and is active.
pub open spec fn active_id(rows: Set<Tenure>, id: u128) -> bool {
    exists|t: Tenure| rows.contains(t) && t.id == id && t.is_active
}

/// Refuses, listing `permission`, unless the claims hold it.
pub fn authorize(claims: &Claims, permission: &str) -> (r: Result<(), TenureError>)
    ensures
        r is Ok <==> claims.holds(permission@),
        r is Err ==> r->Err_0.denies(seq![permission@]),
{
    let required = [permission];
    let missing = claims.missing_permissions(required.as_slice());
    proof {
        let req = str_views(required@);
        assert(req =~= seq![permission@]);
        assert(req.drop_last() =~= Seq::<Seq<char>>::empty());
        assert(missing_of(*claims, req.drop_last()) == Seq::<Seq<char>>::empty());
    }
    if missing.len() > 0 {
        Err(TenureError::Forbidden { missing })
    } else {
        Ok(())
    }
}

/// The tenure commands. Each runs its guards and its write against one
/// store borrowed for the whole command, so a refused command writes nothing.
pub struct TenureApi;

impl TenureApi {
    /// Every tenure, latest year first. Needs no permission.
    pub fn get_all_tenures(&self, store: &TenureTable) -> (r: Vec<Tenure>)
        requires
            store.wf(),
        ensures
            r@.to_set() == store@,
            r@.len() == store@.len(),
            descending(r@),
    {
        store.get_all()
    }

    /// Creates a tenure under the fresh identity `new_id`.
    pub fn create_tenure(
        &self,
        auth: &JwtAuth,
        store: &mut TenureTable,
        data: &CreateTenureRequest,
        new_id: u128,
    ) -> (r: Result<Tenure, TenureError>)
        requires
            old(store).wf(),
        ensures
            final(store).wf(),
            !auth.0.holds(CREATE_PERMISSION@) ==> r is Err && r->Err_0.denies(seq![CREATE_PERMISSION@]),
            auth.0.holds(CREATE_PERMISSION@) && year_taken_by_other(old(store)@, data.year, None)
                ==> r == Err::<Tenure, TenureError>(TenureError::DuplicateYear { year: data.year, on_update: false }),
            auth.0.holds(CREATE_PERMISSION@) && !year_taken_by_other(old(store)@, data.year, None)
                && data.is_active && active_other(old(store)@, None)
                ==> r == Err::<Tenure, TenureError>(TenureError::InvalidAction { on_update: false }),
            auth.0.holds(CREATE_PERMISSION@) && !year_taken_by_other(old(store)@, data.year, None)
                && !(data.is_active && active_other(old(store)@, None)) ==> if has_id(old(store)@, new_id) {
                r == Err::<Tenure, TenureError>(TenureError::Storage(StorageError::UniqueViolation))
            } else {
                r == Ok::<Tenure, TenureError>(Tenure { id: new_id, year: data.year, is_active: data.is_active })
            },
            r is Ok ==> final(store)@ == old(store)@.insert(r->Ok_0),
            r is Err ==> final(store)@ == old(store)@,
    {
        authorize(&auth.0, CREATE_PERMISSION)?;
        if store.is_year_taken_by_other(data.year, None) {
            return Err(TenureError::DuplicateYear { year: data.year, on_update: false });
        }
        if data.is_active && store.has_active_tenure(None) {
            return Err(TenureError::InvalidAction { on_update: false });
        }
        match store.create(new_id, data.year, data.is_active) {
            Ok(t) => Ok(t),
            Err(e) => Err(TenureError::Storage(e)),
        }
    }

    /// Replaces year and active flag of an existing tenure.
    pub fn put_tenure(&self, auth: &JwtAuth, store: &mut TenureTable, data: &PutTenureRequest) -> (r: Result<
        Tenure,
        TenureError,
    >)
        requires
            old(store).wf(),
        ensures
            final(store).wf(),
            !auth.0.holds(UPDATE_PERMISSION@) ==> r is Err && r->Err_0.denies(seq![UPDATE_PERMISSION@]),
            auth.0.holds(UPDATE_PERMISSION@) && !has_id(old(store)@, data.id)
                ==> r == Err::<Tenure, TenureError>(TenureError::NotFound),
            auth.0.holds(UPDATE_PERMISSION@) && has_id(old(store)@, data.id)
                && year_taken_by_other(old(store)@, data.year, Some(data.id))
                ==> r == Err::<Tenure, TenureError>(TenureError::DuplicateYear { year: data.year, on_update: true }),
            auth.0.holds(UPDATE_PERMISSION@) && has_id(old(store)@, data.id)
                && !year_taken_by_other(old(store)@, data.year, Some(data.id)) && data.is_active
                && active_other(old(store)@, Some(data.id))
                ==> r == Err::<Tenure, TenureError>(TenureError::InvalidAction { on_update: true }),
            auth.0.holds(UPDATE_PERMISSION@) && has_id(old(store)@, data.id)
                && !year_taken_by_other(old(store)@, data.year, Some(data.id))
                && !(data.is_active && active_other(old(store)@, Some(data.id)))
                ==> r == Ok::<Tenure, TenureError>(Tenure { id: data.id, year: data.year, is_active: data.is_active }),
            r is Ok ==> final(store)@ == without_id(old(store)@, data.id).insert(r->Ok_0),
            r is Err ==> final(store)@ == old(store)@,
    {
        authorize(&auth.0, UPDATE_PERMISSION)?;
        if !store.exists_by_id(data.id) {
            return Err(TenureError::NotFound);
        }
        if store.is_year_taken_by_other(data.year, Some(data.id)) {
            return Err(TenureError::DuplicateYear { year: data.year, on_update: true });
        }
        if data.is_active && store.has_active_tenure(Some(data.id)) {
            return Err(TenureError::InvalidAction { on_update: true });
        }
        match store.update(data.id, data.year, data.is_active) {
            Ok(t) => Ok(t),
            Err(e) => Err(TenureError::Storage(e)),
        }
    }

    /// Deletes a tenure, unless it is active with no other active tenure.
    pub fn delete_tenure(&self, auth: &JwtAuth, store: &mut TenureTable, data: &DeleteTenureRequest) -> (r:
        Result<u128, TenureError>)
        requires
            old(store).wf(),
        ensures
            final(store).wf(),
            !auth.0.holds(DELETE_PERMISSION@) ==> r is Err && r->Err_0.denies(seq![DELETE_PERMISSION@]),
            auth.0.holds(DELETE_PERMISSION@) && !has_id(old(store)@, data.id)
                ==> r == Err::<u128, TenureError>(TenureError::NotFound),
            auth.0.holds(DELETE_PERMISSION@) && active_id(old(store)@, data.id)
                && !active_other(old(store)@, Some(data.id))
                ==> r == Err::<u128, TenureError>(TenureError::LastActiveTenure),
            auth.0.holds(DELETE_PERMISSION@) && has_id(old(store)@, data.id)
                && !(active_id(old(store)@, data.id) && !active_other(old(store)@, Some(data.id)))
                ==> r == Ok::<u128, TenureError>(data.id),
            r is Ok ==> final(store)@ == without_id(old(store)@, data.id),
            r is Err ==> final(store)@ == old(store)@,
    {
        authorize(&auth.0, DELETE_PERMISSION)?;
        let found = match store.find_by_id(data.id) {
            Some(t) => t,
            None => return Err(TenureError::NotFound),
        };
        proof {
            // ids are unique, so `found` is the row that `active_id` speaks of
            store.lemma_wf_consistent();
        }
        if found.is_active && !store.has_active_tenure(Some(data.id)) {
            return Err(TenureError::LastActiveTenure);
        }
        match store.delete(data.id) {
            Ok(id) => Ok(id),
            Err(e) => Err(TenureError::Storage(e)),
        }
    }
}

/// Endpoints for checking a deployment: a liveness probe and a claims echo.
pub struct TestApi;

impl TestApi {
    /// The claims of the verified token, unchanged.
    pub fn echo_claims(&self, auth: JwtAuth) -> (r: Claims)
        ensures
            r == auth.0,
    {
        auth.0
    }

    pub fn ping(&self) -> (r: String)
        ensures
            r@ == "pong"@,
    {
        String::from_str("pong")
    }
}

} // verus!
