//! Laws the handlers obey, each proved from the handlers' contracts.

use vstd::prelude::*;

use crate::entities::{
    Biography, BiographyStatus, CreateBiographyRequestView, CreateUserRequestView,
    UpdateBiographyRequestView, User,
};
use crate::envelope::{ApiError, ApiResponse};
use crate::handlers::{
    biography_from, create_biography_post, create_user_post, get_biography_post, get_user_post,
    matching_list, update_biography_post, user_from,
};
use crate::store::AppState;

verus! {

/// Law: creations under fresh ids hand out distinct ids. The id of the
/// second creation is fresh for the state the first one left behind,
/// which already holds the first id.
pub proof fn lemma_fresh_ids_distinct(
    s0: AppState,
    s1: AppState,
    s2: AppState,
    req1: CreateUserRequestView,
    req2: CreateUserRequestView,
    id1: Seq<char>,
    id2: Seq<char>,
    now1: int,
    now2: int,
    r1: Result<ApiResponse<User>, ApiError>,
    r2: Result<ApiResponse<User>, ApiError>,
)
    requires
        create_user_post(s0, s1, req1, id1, now1, r1),
        !s1.users_map().dom().contains(id2),
        create_user_post(s1, s2, req2, id2, now2, r2),
    ensures
        id1 != id2,
{
    assert(s1.users_map().dom().contains(id1));
}

/// Law: a lookup right after a creation returns a user equal to the
/// one the creation returned.
pub proof fn lemma_create_user_then_get(
    s0: AppState,
    s1: AppState,
    req: CreateUserRequestView,
    id: Seq<char>,
    now: int,
    rc: Result<ApiResponse<User>, ApiError>,
    rg: Result<ApiResponse<User>, ApiError>,
)
    requires
        create_user_post(s0, s1, req, id, now, rc),
        get_user_post(s1, id, rg),
    ensures
        rg matches Ok(env) && (env.data matches Some(u) && u@ == user_from(req, id, now)),
        rc matches Ok(envc) && (envc.data matches Some(uc) && (rg matches Ok(env) && (env.data
            matches Some(u) && u@ == uc@))),
{
}

/// Law: two lookups of the same user id on the same state agree in
/// everything but the envelope timestamp.
pub proof fn lemma_get_user_idempotent(
    s: AppState,
    id: Seq<char>,
    r1: Result<ApiResponse<User>, ApiError>,
    r2: Result<ApiResponse<User>, ApiError>,
)
    requires
        get_user_post(s, id, r1),
        get_user_post(s, id, r2),
    ensures
        r1 is Ok <==> r2 is Ok,
        r1 matches Ok(e1) ==> (r2 matches Ok(e2) && e1.success == e2.success && e1.message@
            == e2.message@ && (e1.data matches Some(u1) && (e2.data matches Some(u2) && u1@
            == u2@))),
        r1 matches Err(x1) ==> (r2 matches Err(x2) && x1 == x2),
{
}

/// Law: two lookups of the same biography id on the same state agree
/// in everything but the envelope timestamp.
pub proof fn lemma_get_biography_idempotent(
    s: AppState,
    id: Seq<char>,
    r1: Result<ApiResponse<Biography>, ApiError>,
    r2: Result<ApiResponse<Biography>, ApiError>,
)
    requires
        get_biography_post(s, id, r1),
        get_biography_post(s, id, r2),
    ensures
        r1 is Ok <==> r2 is Ok,
        r1 matches Ok(e1) ==> (r2 matches Ok(e2) && e1.success == e2.success && e1.message@
            == e2.message@ && (e1.data matches Some(b1) && (e2.data matches Some(b2) && b1@
            == b2@))),
        r1 matches Err(x1) ==> (r2 matches Err(x2) && x1 == x2),
{
}

/// Law: creating a biography for an unknown user fails with
/// `BadRequest` and inserts nothing.
pub proof fn lemma_create_biography_unknown_user_fails(
    s0: AppState,
    s1: AppState,
    req: CreateBiographyRequestView,
    id: Seq<char>,
    now: int,
    r: Result<ApiResponse<Biography>, ApiError>,
)
    requires
        !s0.users_map().dom().contains(req.user_id),
        create_biography_post(s0, s1, req, id, now, r),
    ensures
        r matches Err(e) && e == ApiError::BadRequest,
        s1.biographies_map() == s0.biographies_map(),
{
}

/// Law: a biography created for an existing user starts with empty
/// content and `Draft` status.
pub proof fn lemma_created_biography_starts_draft(
    s0: AppState,
    s1: AppState,
    req: CreateBiographyRequestView,
    id: Seq<char>,
    now: int,
    r: Result<ApiResponse<Biography>, ApiError>,
)
    requires
        s0.users_map().dom().contains(req.user_id),
        create_biography_post(s0, s1, req, id, now, r),
    ensures
        r matches Ok(env) && (env.data matches Some(b) && b@.content == Seq::<char>::empty()
            && b@.status == BiographyStatus::Draft),
{
}

/// Law: a partial update that names only the title overwrites the
/// title alone; description and content keep their values, and the
/// update timestamp does not move backwards as long as the instant of
/// the update is no earlier than the stored one.
pub proof fn lemma_update_title_only(
    s0: AppState,
    s1: AppState,
    id: Seq<char>,
    req: UpdateBiographyRequestView,
    now: int,
    r: Result<ApiResponse<Biography>, ApiError>,
)
    requires
        s0.biographies_map().dom().contains(id),
        req.title is Some,
        req.description is None,
        req.content is None,
        now >= s0.biographies_map()[id].updated_at,
        update_biography_post(s0, s1, id, req, now, r),
    ensures
        req.title matches Some(t) ==> s1.biographies_map()[id].title == t,
        s1.biographies_map()[id].description == s0.biographies_map()[id].description,
        s1.biographies_map()[id].content == s0.biographies_map()[id].content,
        s1.biographies_map()[id].updated_at >= s0.biographies_map()[id].updated_at,
{
}

/// Law: a creation for one user leaves the set of biographies a
/// listing for another user must return unchanged; the created id is
/// fresh, as every server-generated id is.
pub proof fn lemma_listing_unmoved_by_other_users(
    s0: AppState,
    s1: AppState,
    req: CreateBiographyRequestView,
    id: Seq<char>,
    now: int,
    r: Result<ApiResponse<Biography>, ApiError>,
    uid: Seq<char>,
    l: Seq<Biography>,
)
    requires
        req.user_id != uid,
        !s0.biographies_map().dom().contains(id),
        create_biography_post(s0, s1, req, id, now, r),
    ensures
        matching_list(s1.biographies_map(), uid, l) <==> matching_list(
            s0.biographies_map(),
            uid,
            l,
        ),
{
    let m0 = s0.biographies_map();
    let m1 = s1.biographies_map();
    if s0.users_map().dom().contains(req.user_id) {
        let nb = biography_from(req, id, now);
        assert(m1 == m0.insert(id, nb));
        assert forall|i: int|
            0 <= i < l.len() && l[i]@.user_id == uid implies (m1.contains_pair(l[i]@.id, l[i]@)
            <==> m0.contains_pair(l[i]@.id, l[i]@)) by {
            if l[i]@.id == id {
                assert(m1[id] == nb);
                assert(!m0.dom().contains(id));
            }
        }
        assert forall|k: Seq<char>|
            m0.dom().contains(k) && #[trigger] m0[k].user_id == uid implies m1.dom().contains(k)
            && m1[k] == m0[k] by {
            assert(k != id);
        }
        assert forall|k: Seq<char>|
            m1.dom().contains(k) && #[trigger] m1[k].user_id == uid implies m0.dom().contains(k)
            && m0[k] == m1[k] by {
            assert(k != id);
        }
    }
}

} // verus!
