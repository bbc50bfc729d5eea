//! One handler per API operation. Each handler validates its input,
//! consults or mutates the entity store, and wraps the result in a
//! response envelope.
//!
//! The id a creation assigns and the wall-clock instant a handler runs
//! at come from outside; each mutating handler therefore has a core
//! variant that takes the id and the instant as arguments and carries
//! the exact contract, and a front variant that draws them from the
//! generators and promises the same for the values that were drawn.

use vstd::prelude::*;

use crate::entities::{
    Biography, BiographyStatus, BiographyView, CreateBiographyRequest, CreateBiographyRequestView,
    CreateUserRequest, CreateUserRequestView, UpdateBiographyRequest, UpdateBiographyRequestView,
    User, UserView,
};
use crate::envelope::{now_millis, ok_response, ApiError, ApiResponse};
use crate::store::{biographies_entries, biographies_get, biographies_insert, users_contains,
    users_get, users_insert, AppState};

verus! {

/// Relies on uuid::Uuid::new_v4 and its hyphenated text form: a freshly
/// generated random id. Nothing is promised of the value.
#[verifier::external_body]
pub(crate) fn fresh_id() -> String {
    uuid::Uuid::new_v4().to_string()
}

/// Message of a successful user creation.
pub open spec fn user_created_msg() -> Seq<char> {
    "用户创建成功"@
}

/// Message of a successful user lookup.
pub open spec fn user_found_msg() -> Seq<char> {
    "获取用户信息成功"@
}

/// The user a create-user request gives rise to, under a given id at a
/// given instant: both timestamps are that instant.
pub open spec fn user_from(req: CreateUserRequestView, id: Seq<char>, now: int) -> UserView {
    UserView {
        id: id,
        openid: req.openid,
        nickname: req.nickname,
        avatar: req.avatar,
        created_at: now,
        updated_at: now,
    }
}

/// What creating a user under a given id at a given instant does: the
/// new user is stored under the id and returned in a success envelope;
/// the other stores are untouched. Creation always succeeds.
pub open spec fn create_user_post(
    old_s: AppState,
    new_s: AppState,
    req: CreateUserRequestView,
    id: Seq<char>,
    now: int,
    r: Result<ApiResponse<User>, ApiError>,
) -> bool {
    &&& (new_s.users_map() == old_s.users_map().insert(id, user_from(req, id, now)))
    &&& new_s.biographies_map() == old_s.biographies_map()
    &&& new_s.sessions_map() == old_s.sessions_map()
    &&& r matches Ok(env)
    &&& env.success
    &&& env.message@ == user_created_msg()
    &&& env.data matches Some(u)
    &&& u@ == user_from(req, id, now)
}

/// Creates a user under the given id at the given instant.
pub fn create_user_at(state: &mut AppState, req: CreateUserRequest, id: String, now: i64) -> (r:
    Result<ApiResponse<User>, ApiError>)
    requires
        old(state).wf(),
    ensures
        final(state).wf(),
        create_user_post(*old(state), *final(state), req@, id@, now as int, r),
{
    let user = User {
        id: id.clone(),
        openid: req.openid,
        nickname: req.nickname,
        avatar: req.avatar,
        created_at: now,
        updated_at: now,
    };
    let copy = user.duplicate();
    users_insert(&mut state.users, &id, user);
    Ok(ok_response(copy, "用户创建成功".to_owned()))
}

/// Creates a user under a freshly generated id at the current instant.
pub fn create_user(state: &mut AppState, req: CreateUserRequest) -> (r: Result<
    ApiResponse<User>,
    ApiError,
>)
    requires
        old(state).wf(),
    ensures
        final(state).wf(),
        exists|id: Seq<char>, now: int|
            create_user_post(*old(state), *final(state), req@, id, now, r),
{
    let id = fresh_id();
    let now = now_millis();
    create_user_at(state, req, id, now)
}

/// What looking a user up does: a copy of the stored user in a success
/// envelope when the id is present, `NotFound` otherwise.
pub open spec fn get_user_post(
    s: AppState,
    id: Seq<char>,
    r: Result<ApiResponse<User>, ApiError>,
) -> bool {
    if s.users_map().dom().contains(id) {
        &&& r matches Ok(env)
        &&& env.success
        &&& env.message@ == user_found_msg()
        &&& env.data matches Some(u)
        &&& u@ == s.users_map()[id]
    } else {
        r matches Err(e) && e == ApiError::NotFound
    }
}

/// Looks a user up by id.
pub fn get_user(state: &AppState, id: &String) -> (r: Result<ApiResponse<User>, ApiError>)
    requires
        state.wf(),
    ensures
        get_user_post(*state, id@, r),
{
    match users_get(&state.users, id) {
        Some(u) => Ok(ok_response(u, "获取用户信息成功".to_owned())),
        None => Err(ApiError::NotFound),
    }
}

/// Message of a successful biography creation.
pub open spec fn biography_created_msg() -> Seq<char> {
    "传记项目创建成功"@
}

/// Message of a successful biography lookup.
pub open spec fn biography_found_msg() -> Seq<char> {
    "获取传记项目成功"@
}

/// Message of a successful biography update.
pub open spec fn biography_updated_msg() -> Seq<char> {
    "传记项目更新成功"@
}

/// Message of a successful biography listing.
pub open spec fn biographies_listed_msg() -> Seq<char> {
    "获取传记项目列表成功"@
}

/// The biography a create-biography request gives rise to, under a
/// given id at a given instant: the content starts empty, the status
/// is `Draft`, and both timestamps are that instant.
pub open spec fn biography_from(
    req: CreateBiographyRequestView,
    id: Seq<char>,
    now: int,
) -> BiographyView {
    BiographyView {
        id: id,
        user_id: req.user_id,
        title: req.title,
        description: req.description,
        content: Seq::empty(),
        status: BiographyStatus::Draft,
        created_at: now,
        updated_at: now,
    }
}

/// What creating a biography under a given id at a given instant does:
/// when the owning user exists, the new biography is stored under the
/// id and returned in a success envelope; when it does not, the request
/// fails with `BadRequest` and no biography is inserted. The user and
/// session stores are untouched either way.
pub open spec fn create_biography_post(
    old_s: AppState,
    new_s: AppState,
    req: CreateBiographyRequestView,
    id: Seq<char>,
    now: int,
    r: Result<ApiResponse<Biography>, ApiError>,
) -> bool {
    &&& new_s.users_map() == old_s.users_map()
    &&& new_s.sessions_map() == old_s.sessions_map()
    &&& if old_s.users_map().dom().contains(req.user_id) {
        &&& (new_s.biographies_map() == old_s.biographies_map().insert(
            id,
            biography_from(req, id, now),
        ))
        &&& r matches Ok(env)
        &&& env.success
        &&& env.message@ == biography_created_msg()
        &&& env.data matches Some(b)
        &&& b@ == biography_from(req, id, now)
    } else {
        &&& new_s.biographies_map() == old_s.biographies_map()
        &&& r matches Err(e)
        &&& e == ApiError::BadRequest
    }
}

/// Creates a biography under the given id at the given instant, after
/// checking that the owning user exists.
pub fn create_biography_at(
    state: &mut AppState,
    req: CreateBiographyRequest,
    id: String,
    now: i64,
) -> (r: Result<ApiResponse<Biography>, ApiError>)
    requires
        old(state).wf(),
    ensures
        final(state).wf(),
        create_biography_post(*old(state), *final(state), req@, id@, now as int, r),
{
    if !users_contains(&state.users, &req.user_id) {
        return Err(ApiError::BadRequest);
    }
    let biography = Biography {
        id: id.clone(),
        user_id: req.user_id,
        title: req.title,
        description: req.description,
        content: String::new(),
        status: BiographyStatus::Draft,
        created_at: now,
        updated_at: now,
    };
    let copy = biography.duplicate();
    biographies_insert(&mut state.biographies, &id, biography);
    Ok(ok_response(copy, "传记项目创建成功".to_owned()))
}

/// Creates a biography under a freshly generated id at the current
/// instant.
pub fn create_biography(state: &mut AppState, req: CreateBiographyRequest) -> (r: Result<
    ApiResponse<Biography>,
    ApiError,
>)
    requires
        old(state).wf(),
    ensures
        final(state).wf(),
        exists|id: Seq<char>, now: int|
            create_biography_post(*old(state), *final(state), req@, id, now, r),
{
    let id = fresh_id();
    let now = now_millis();
    create_biography_at(state, req, id, now)
}

/// What looking a biography up does: a copy of the stored biography in
/// a success envelope when the id is present, `NotFound` otherwise.
pub open spec fn get_biography_post(
    s: AppState,
    id: Seq<char>,
    r: Result<ApiResponse<Biography>, ApiError>,
) -> bool {
    if s.biographies_map().dom().contains(id) {
        &&& r matches Ok(env)
        &&& env.success
        &&& env.message@ == biography_found_msg()
        &&& env.data matches Some(b)
        &&& b@ == s.biographies_map()[id]
    } else {
        r matches Err(e) && e == ApiError::NotFound
    }
}

/// Looks a biography up by id.
pub fn get_biography(state: &AppState, id: &String) -> (r: Result<
    ApiResponse<Biography>,
    ApiError,
>)
    requires
        state.wf(),
    ensures
        get_biography_post(*state, id@, r),
{
    match biographies_get(&state.biographies, id) {
        Some(b) => Ok(ok_response(b, "获取传记项目成功".to_owned())),
        None => Err(ApiError::NotFound),
    }
}

/// The biography a partial update leaves behind: a field named in the
/// request is overwritten, even by an empty string; a field absent from
/// it keeps its value; the update timestamp becomes the given instant.
pub open spec fn patched(
    b: BiographyView,
    req: UpdateBiographyRequestView,
    now: int,
) -> BiographyView {
    BiographyView {
        id: b.id,
        user_id: b.user_id,
        title: match req.title {
            Some(t) => t,
            None => b.title,
        },
        description: match req.description {
            Some(d) => Some(d),
            None => b.description,
        },
        content: match req.content {
            Some(c) => c,
            None => b.content,
        },
        status: b.status,
        created_at: b.created_at,
        updated_at: now,
    }
}

/// What a partial update at a given instant does: when the id is
/// present, the stored biography is replaced by its patched form, which
/// is also returned in a success envelope; when it is not, the request
/// fails with `NotFound` and nothing changes. The user and session
/// stores are untouched either way.
pub open spec fn update_biography_post(
    old_s: AppState,
    new_s: AppState,
    id: Seq<char>,
    req: UpdateBiographyRequestView,
    now: int,
    r: Result<ApiResponse<Biography>, ApiError>,
) -> bool {
    &&& new_s.users_map() == old_s.users_map()
    &&& new_s.sessions_map() == old_s.sessions_map()
    &&& if old_s.biographies_map().dom().contains(id) {
        &&& (new_s.biographies_map() == old_s.biographies_map().insert(
            id,
            patched(old_s.biographies_map()[id], req, now),
        ))
        &&& r matches Ok(env)
        &&& env.success
        &&& env.message@ == biography_updated_msg()
        &&& env.data matches Some(b)
        &&& b@ == patched(old_s.biographies_map()[id], req, now)
    } else {
        &&& new_s.biographies_map() == old_s.biographies_map()
        &&& r matches Err(e)
        &&& e == ApiError::NotFound
    }
}

/// Applies a partial update to the biography with the given id at the
/// given instant.
pub fn update_biography_at(
    state: &mut AppState,
    id: &String,
    req: UpdateBiographyRequest,
    now: i64,
) -> (r: Result<ApiResponse<Biography>, ApiError>)
    requires
        old(state).wf(),
    ensures
        final(state).wf(),
        update_biography_post(*old(state), *final(state), id@, req@, now as int, r),
{
    match biographies_get(&state.biographies, id) {
        Some(b) => {
            let updated = Biography {
                id: b.id,
                user_id: b.user_id,
                title: match req.title {
                    Some(t) => t,
                    None => b.title,
                },
                description: match req.description {
                    Some(d) => Some(d),
                    None => b.description,
                },
                content: match req.content {
                    Some(c) => c,
                    None => b.content,
                },
                status: b.status,
                created_at: b.created_at,
                updated_at: now,
            };
            let copy = updated.duplicate();
            biographies_insert(&mut state.biographies, id, updated);
            proof {
                // seed the well-formedness quantifier at the updated key
                assert(old(state).biographies_map()[id@].id == id@);
            }
            Ok(ok_response(copy, "传记项目更新成功".to_owned()))
        },
        None => Err(ApiError::NotFound),
    }
}

/// Applies a partial update to the biography with the given id at the
/// current instant.
pub fn update_biography(state: &mut AppState, id: &String, req: UpdateBiographyRequest) -> (r:
    Result<ApiResponse<Biography>, ApiError>)
    requires
        old(state).wf(),
    ensures
        final(state).wf(),
        exists|now: int| update_biography_post(*old(state), *final(state), id@, req@, now, r),
{
    let now = now_millis();
    update_biography_at(state, id, req, now)
}

/// Exactness of a listing: the sequence holds, without a repeated id
/// and in no particular order, exactly the stored biographies whose
/// owner is the given user.
pub open spec fn matching_list(
    m: Map<Seq<char>, BiographyView>,
    uid: Seq<char>,
    l: Seq<Biography>,
) -> bool {
    &&& forall|i: int| #![trigger l[i]]
        0 <= i < l.len() ==> l[i]@.user_id == uid && m.contains_pair(l[i]@.id, l[i]@)
    &&& forall|k: Seq<char>| #![trigger m[k]]
        m.dom().contains(k) && m[k].user_id == uid ==> exists|i: int|
            0 <= i < l.len() && l[i]@.id == k
    &&& forall|i: int, j: int| #![trigger l[i], l[j]]
        0 <= i < j < l.len() ==> l[i]@.id != l[j]@.id
}

/// What listing biographies does: with no `user_id` parameter the
/// request fails with `BadRequest`; with one, the envelope holds
/// exactly the biographies owned by that user, an empty list when
/// there are none.
pub open spec fn list_biographies_post(
    s: AppState,
    user_id: Option<String>,
    r: Result<ApiResponse<Vec<Biography>>, ApiError>,
) -> bool {
    match user_id {
        None => r matches Err(e) && e == ApiError::BadRequest,
        Some(uid) => {
            &&& r matches Ok(env)
            &&& env.success
            &&& env.message@ == biographies_listed_msg()
            &&& env.data matches Some(v)
            &&& matching_list(s.biographies_map(), uid@, v@)
        },
    }
}

/// Lists the biographies owned by a user. The parameter mirrors the
/// query string: `None` when the request named no `user_id`.
pub fn list_biographies(state: &AppState, user_id: Option<String>) -> (r: Result<
    ApiResponse<Vec<Biography>>,
    ApiError,
>)
    requires
        state.wf(),
    ensures
        list_biographies_post(*state, user_id, r),
{
    let uid = match user_id {
        Some(u) => u,
        None => {
            return Err(ApiError::BadRequest);
        },
    };
    let entries = biographies_entries(&state.biographies);
    let ghost bmap = state.biographies_map();
    let mut out: Vec<Biography> = Vec::new();
    let mut i: usize = 0;
    while i < entries.len()
        invariant
            i <= entries.len(),
            state.wf(),
            bmap == state.biographies_map(),
            forall|j: int| #![trigger entries@[j]]
                0 <= j < entries@.len() ==> bmap.contains_pair(entries@[j].0@, entries@[j].1@),
            forall|k: Seq<char>| #![trigger bmap[k]]
                bmap.dom().contains(k) ==> exists|j: int|
                    0 <= j < entries@.len() && entries@[j].0@ == k,
            forall|j1: int, j2: int| #![trigger entries@[j1], entries@[j2]]
                0 <= j1 < j2 < entries@.len() ==> entries@[j1].0@ != entries@[j2].0@,
            forall|l: int| #![trigger out@[l]]
                0 <= l < out@.len() ==> out@[l]@.user_id == uid@ && bmap.contains_pair(
                    out@[l]@.id,
                    out@[l]@,
                ),
            forall|j: int| #![trigger entries@[j]]
                0 <= j < i && entries@[j].1@.user_id == uid@ ==> exists|l: int|
                    0 <= l < out@.len() && out@[l]@.id == entries@[j].0@,
            forall|l: int| #![trigger out@[l]]
                0 <= l < out@.len() ==> exists|j: int|
                    0 <= j < i && entries@[j].0@ == out@[l]@.id,
            forall|l1: int, l2: int| #![trigger out@[l1], out@[l2]]
                0 <= l1 < l2 < out@.len() ==> out@[l1]@.id != out@[l2]@.id,
        decreases entries.len() - i,
    {
        let ghost out0 = out@;
        let ghost i0 = i as int;
        let pair = &entries[i];
        if pair.1.user_id == uid {
            proof {
                // the entry sits under its own id
                assert(bmap[entries@[i as int].0@].id == entries@[i as int].0@);
            }
            out.push(pair.1.duplicate());
            proof {
                // the element just pushed answers for this entry
                assert(out@[out@.len() - 1]@.id == entries@[i as int].0@);
            }
        }
        i = i + 1;
        proof {
            assert forall|j: int| 0 <= j < i && entries@[j].1@.user_id == uid@ implies exists|
                l: int,
            | 0 <= l < out@.len() && out@[l]@.id == entries@[j].0@ by {
                if j < i0 {
                    let l0 = choose|l: int| 0 <= l < out0.len() && out0[l]@.id == entries@[j].0@;
                    assert(out@[l0]@.id == entries@[j].0@);
                } else {
                    assert(out@[out@.len() - 1]@.id == entries@[j].0@);
                }
            }
        }
    }
    Ok(ok_response(out, "获取传记项目列表成功".to_owned()))
}

/// Message of a successful outline generation.
pub open spec fn outline_generated_msg() -> Seq<char> {
    "大纲生成成功"@
}

/// Message of a successful content generation.
pub open spec fn content_generated_msg() -> Seq<char> {
    "内容生成成功"@
}

/// Message of a successful interview-question generation.
pub open spec fn questions_generated_msg() -> Seq<char> {
    "采访问题生成成功"@
}

/// Greeting served at the root path.
pub fn root_handler() -> (r: &'static str)
    ensures
        r@ == "传记写作助手后端服务 - API文档请参考相关接口"@,
{
    "传记写作助手后端服务 - API文档请参考相关接口"
}

/// What an AI stub endpoint does: it never fails and returns its fixed
/// canned text, whatever the request held.
pub open spec fn ai_stub_post(
    text: Seq<char>,
    msg: Seq<char>,
    r: Result<ApiResponse<String>, ApiError>,
) -> bool {
    &&& r matches Ok(env)
    &&& env.success
    &&& env.message@ == msg
    &&& env.data matches Some(t)
    &&& t@ == text
}

/// The canned outline the stubbed outline endpoint returns.
pub open spec fn outline_text() -> Seq<char> {
    r#"{
        "title": "传记大纲",
        "chapters": [
            {"chapter_number": 1, "title": "早年生活", "summary": "描述主人公的出生背景和童年经历"},
            {"chapter_number": 2, "title": "求学之路", "summary": "讲述教育经历和成长过程"},
            {"chapter_number": 3, "title": "职业生涯", "summary": "记录工作经历和职业发展"},
            {"chapter_number": 4, "title": "重要事件", "summary": "回顾人生中的重大转折点"},
            {"chapter_number": 5, "title": "成就与影响", "summary": "总结取得的成就和社会影响"},
            {"chapter_number": 6, "title": "晚年生活", "summary": "描述晚年时光和人生感悟"}
        ]
    }"#@
}

/// The canned text the stubbed content endpoint returns.
pub open spec fn content_text() -> Seq<char> {
    "这是由AI生成的传记内容示例。在实际实现中，这里会调用QWen API来生成高质量的传记内容。"@
}

/// The canned question list the stubbed interview endpoint returns.
pub open spec fn questions_text() -> Seq<char> {
    r#"[
        "您能介绍一下自己的童年和家庭背景吗？",
        "在您的成长过程中，哪些人对您产生了深远的影响？",
        "您人生中最重要的转折点是什么时候？",
        "面对困难时，您是如何坚持下来的？",
        "您认为自己最大的成就是什么？",
        "对于年轻一代，您有什么建议或寄语？"
    ]"#@
}

/// Returns the canned biography outline. A real model integration
/// would replace this stub; the request payload is ignored.
pub fn generate_outline() -> (r: Result<ApiResponse<String>, ApiError>)
    ensures
        ai_stub_post(outline_text(), outline_generated_msg(), r),
{
    let outline = r#"{
        "title": "传记大纲",
        "chapters": [
            {"chapter_number": 1, "title": "早年生活", "summary": "描述主人公的出生背景和童年经历"},
            {"chapter_number": 2, "title": "求学之路", "summary": "讲述教育经历和成长过程"},
            {"chapter_number": 3, "title": "职业生涯", "summary": "记录工作经历和职业发展"},
            {"chapter_number": 4, "title": "重要事件", "summary": "回顾人生中的重大转折点"},
            {"chapter_number": 5, "title": "成就与影响", "summary": "总结取得的成就和社会影响"},
            {"chapter_number": 6, "title": "晚年生活", "summary": "描述晚年时光和人生感悟"}
        ]
    }"#.to_owned();
    Ok(ok_response(outline, "大纲生成成功".to_owned()))
}

/// Returns the canned biography content. A real model integration
/// would replace this stub; the request payload is ignored.
pub fn generate_content() -> (r: Result<ApiResponse<String>, ApiError>)
    ensures
        ai_stub_post(content_text(), content_generated_msg(), r),
{
    let content = "这是由AI生成的传记内容示例。在实际实现中，这里会调用QWen API来生成高质量的传记内容。".to_owned();
    Ok(ok_response(content, "内容生成成功".to_owned()))
}

/// Returns the canned interview questions. A real model integration
/// would replace this stub; the request payload is ignored.
pub fn interview_questions() -> (r: Result<ApiResponse<String>, ApiError>)
    ensures
        ai_stub_post(questions_text(), questions_generated_msg(), r),
{
    let questions = r#"[
        "您能介绍一下自己的童年和家庭背景吗？",
        "在您的成长过程中，哪些人对您产生了深远的影响？",
        "您人生中最重要的转折点是什么时候？",
        "面对困难时，您是如何坚持下来的？",
        "您认为自己最大的成就是什么？",
        "对于年轻一代，您有什么建议或寄语？"
    ]"#.to_owned();
    Ok(ok_response(questions, "采访问题生成成功".to_owned()))
}

} // verus!
