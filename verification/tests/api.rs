use biography_backend::entities::{
    Biography, BiographyStatus, CreateBiographyRequest, CreateUserRequest, UpdateBiographyRequest,
};
use biography_backend::envelope::{error_response, ok_response, ApiError};
use biography_backend::handlers::{
    create_biography, create_biography_at, create_user, create_user_at, generate_content,
    generate_outline, get_biography, get_user, interview_questions, list_biographies,
    root_handler, update_biography_at,
};
use biography_backend::store::AppState;

fn user_req(openid: &str, nickname: &str) -> CreateUserRequest {
    CreateUserRequest {
        openid: openid.to_string(),
        nickname: nickname.to_string(),
        avatar: None,
    }
}

fn bio_req(user_id: &str, title: &str) -> CreateBiographyRequest {
    CreateBiographyRequest {
        user_id: user_id.to_string(),
        title: title.to_string(),
        description: None,
    }
}

#[test]
fn created_user_is_retrievable_and_equal() {
    let mut s = AppState::new();
    let env = create_user_at(&mut s, user_req("wx-1", "Ada"), "u1".to_string(), 100).unwrap();
    assert!(env.success);
    assert_eq!(env.message, "用户创建成功");
    let created = env.data.unwrap();
    assert_eq!(created.id, "u1");
    assert_eq!(created.openid, "wx-1");
    assert_eq!(created.nickname, "Ada");
    assert_eq!(created.avatar, None);
    assert_eq!(created.created_at, 100);
    assert_eq!(created.updated_at, 100);

    let got = get_user(&s, &"u1".to_string()).unwrap();
    assert!(got.success);
    assert_eq!(got.message, "获取用户信息成功");
    let fetched = got.data.unwrap();
    assert_eq!(fetched.id, created.id);
    assert_eq!(fetched.openid, created.openid);
    assert_eq!(fetched.nickname, created.nickname);
    assert_eq!(fetched.avatar, created.avatar);
    assert_eq!(fetched.created_at, created.created_at);
    assert_eq!(fetched.updated_at, created.updated_at);
}

#[test]
fn generated_ids_are_distinct() {
    let mut s = AppState::new();
    let first = create_user(&mut s, user_req("wx-1", "Ada")).unwrap().data.unwrap();
    let second = create_user(&mut s, user_req("wx-2", "Ben")).unwrap().data.unwrap();
    assert!(!first.id.is_empty());
    assert!(!second.id.is_empty());
    assert_ne!(first.id, second.id);
    let got = get_user(&s, &first.id).unwrap().data.unwrap();
    assert_eq!(got.openid, "wx-1");
}

#[test]
fn missing_user_is_not_found() {
    let s = AppState::new();
    assert_eq!(get_user(&s, &"nobody".to_string()).unwrap_err(), ApiError::NotFound);
}

#[test]
fn biography_for_unknown_user_is_rejected() {
    let mut s = AppState::new();
    let r = create_biography_at(&mut s, bio_req("ghost", "Life"), "b1".to_string(), 5);
    assert_eq!(r.unwrap_err(), ApiError::BadRequest);
    // nothing was inserted
    assert_eq!(
        get_biography(&s, &"b1".to_string()).unwrap_err(),
        ApiError::NotFound
    );
    let listed = list_biographies(&s, Some("ghost".to_string())).unwrap().data.unwrap();
    assert!(listed.is_empty());
}

#[test]
fn new_biography_starts_as_empty_draft() {
    let mut s = AppState::new();
    create_user_at(&mut s, user_req("wx-1", "Ada"), "u1".to_string(), 1).unwrap();
    let env = create_biography_at(&mut s, bio_req("u1", "Life"), "b1".to_string(), 2).unwrap();
    assert!(env.success);
    assert_eq!(env.message, "传记项目创建成功");
    let b = env.data.unwrap();
    assert_eq!(b.id, "b1");
    assert_eq!(b.user_id, "u1");
    assert_eq!(b.title, "Life");
    assert_eq!(b.description, None);
    assert_eq!(b.content, "");
    assert!(matches!(b.status, BiographyStatus::Draft));
    assert_eq!(b.created_at, 2);
    assert_eq!(b.updated_at, 2);
}

#[test]
fn partial_update_touches_only_named_fields() {
    let mut s = AppState::new();
    create_user_at(&mut s, user_req("wx-1", "Ada"), "u1".to_string(), 1).unwrap();
    let req = CreateBiographyRequest {
        user_id: "u1".to_string(),
        title: "Life".to_string(),
        description: Some("a story".to_string()),
    };
    create_biography_at(&mut s, req, "b1".to_string(), 10).unwrap();

    let patch = UpdateBiographyRequest {
        title: Some("A Life".to_string()),
        description: None,
        content: None,
    };
    let env = update_biography_at(&mut s, &"b1".to_string(), patch, 20).unwrap();
    assert!(env.success);
    assert_eq!(env.message, "传记项目更新成功");
    let b = env.data.unwrap();
    assert_eq!(b.title, "A Life");
    assert_eq!(b.description, Some("a story".to_string()));
    assert_eq!(b.content, "");
    assert_eq!(b.created_at, 10);
    assert!(b.updated_at >= 10);
    assert_eq!(b.updated_at, 20);
}

#[test]
fn explicit_empty_string_clears_a_field() {
    let mut s = AppState::new();
    create_user_at(&mut s, user_req("wx-1", "Ada"), "u1".to_string(), 1).unwrap();
    create_biography_at(&mut s, bio_req("u1", "Life"), "b1".to_string(), 10).unwrap();
    let patch = UpdateBiographyRequest {
        title: Some("".to_string()),
        description: Some("".to_string()),
        content: None,
    };
    let b = update_biography_at(&mut s, &"b1".to_string(), patch, 11).unwrap().data.unwrap();
    assert_eq!(b.title, "");
    assert_eq!(b.description, Some("".to_string()));
}

#[test]
fn update_of_missing_biography_is_not_found() {
    let mut s = AppState::new();
    let patch = UpdateBiographyRequest { title: None, description: None, content: None };
    let r = update_biography_at(&mut s, &"b1".to_string(), patch, 1);
    assert_eq!(r.unwrap_err(), ApiError::NotFound);
}

fn ids_of(list: &[Biography]) -> Vec<String> {
    let mut ids: Vec<String> = list.iter().map(|b| b.id.clone()).collect();
    ids.sort();
    ids
}

#[test]
fn listing_returns_exactly_the_owned_biographies() {
    let mut s = AppState::new();
    create_user_at(&mut s, user_req("wx-1", "Ada"), "u1".to_string(), 1).unwrap();
    create_user_at(&mut s, user_req("wx-2", "Ben"), "u2".to_string(), 1).unwrap();
    create_biography_at(&mut s, bio_req("u1", "One"), "b1".to_string(), 2).unwrap();
    create_biography_at(&mut s, bio_req("u2", "Two"), "b2".to_string(), 3).unwrap();
    create_biography_at(&mut s, bio_req("u1", "Three"), "b3".to_string(), 4).unwrap();

    let env = list_biographies(&s, Some("u1".to_string())).unwrap();
    assert!(env.success);
    assert_eq!(env.message, "获取传记项目列表成功");
    let mine = env.data.unwrap();
    assert_eq!(ids_of(&mine), vec!["b1".to_string(), "b3".to_string()]);
    for b in &mine {
        assert_eq!(b.user_id, "u1");
    }

    let others = list_biographies(&s, Some("u2".to_string())).unwrap().data.unwrap();
    assert_eq!(ids_of(&others), vec!["b2".to_string()]);

    let none = list_biographies(&s, Some("u9".to_string())).unwrap().data.unwrap();
    assert!(none.is_empty());
}

#[test]
fn listing_without_user_id_is_a_bad_request() {
    let s = AppState::new();
    assert_eq!(list_biographies(&s, None).unwrap_err(), ApiError::BadRequest);
}

#[test]
fn repeated_gets_differ_at_most_in_timestamp() {
    let mut s = AppState::new();
    create_user_at(&mut s, user_req("wx-1", "Ada"), "u1".to_string(), 1).unwrap();
    create_biography_at(&mut s, bio_req("u1", "Life"), "b1".to_string(), 2).unwrap();
    let e1 = get_biography(&s, &"b1".to_string()).unwrap();
    let e2 = get_biography(&s, &"b1".to_string()).unwrap();
    assert_eq!(e1.success, e2.success);
    assert_eq!(e1.message, e2.message);
    let b1 = e1.data.unwrap();
    let b2 = e2.data.unwrap();
    assert_eq!(b1.id, b2.id);
    assert_eq!(b1.user_id, b2.user_id);
    assert_eq!(b1.title, b2.title);
    assert_eq!(b1.description, b2.description);
    assert_eq!(b1.content, b2.content);
    assert_eq!(b1.created_at, b2.created_at);
    assert_eq!(b1.updated_at, b2.updated_at);
}

#[test]
fn full_scenario() {
    let mut s = AppState::new();
    let u1 = create_user(&mut s, user_req("wx-1", "Ada")).unwrap().data.unwrap();

    let created = create_biography(&mut s, bio_req(&u1.id, "Life")).unwrap().data.unwrap();
    assert!(matches!(created.status, BiographyStatus::Draft));
    assert_eq!(created.content, "");

    let patch = UpdateBiographyRequest {
        title: None,
        description: None,
        content: Some("chapter one".to_string()),
    };
    update_biography_at(&mut s, &created.id, patch, 50).unwrap();

    let got = get_biography(&s, &created.id).unwrap().data.unwrap();
    assert_eq!(got.content, "chapter one");
    assert_eq!(got.title, "Life");

    let listed = list_biographies(&s, Some(u1.id.clone())).unwrap().data.unwrap();
    assert_eq!(listed.len(), 1);
    assert_eq!(listed[0].id, created.id);
    assert_eq!(listed[0].content, "chapter one");

    let r = get_biography(&s, &"no-such-biography".to_string());
    assert_eq!(r.unwrap_err(), ApiError::NotFound);
}

#[test]
fn ai_stubs_return_their_canned_texts() {
    let outline = generate_outline().unwrap();
    assert!(outline.success);
    assert_eq!(outline.message, "大纲生成成功");
    let text = outline.data.unwrap();
    assert!(text.contains("传记大纲"));
    assert!(text.contains("\"chapter_number\": 6"));

    let content = generate_content().unwrap();
    assert!(content.success);
    assert_eq!(content.message, "内容生成成功");
    assert_eq!(
        content.data.unwrap(),
        "这是由AI生成的传记内容示例。在实际实现中，这里会调用QWen API来生成高质量的传记内容。"
    );

    let questions = interview_questions().unwrap();
    assert!(questions.success);
    assert_eq!(questions.message, "采访问题生成成功");
    assert!(questions.data.unwrap().contains("您能介绍一下自己的童年和家庭背景吗？"));
}

#[test]
fn root_greeting() {
    assert_eq!(root_handler(), "传记写作助手后端服务 - API文档请参考相关接口");
}

#[test]
fn envelope_constructors() {
    let ok = ok_response(7u32, "done".to_string());
    assert!(ok.success);
    assert_eq!(ok.data, Some(7u32));
    assert_eq!(ok.message, "done");

    let err: biography_backend::envelope::ApiResponse<u32> =
        error_response("broken".to_string());
    assert!(!err.success);
    assert_eq!(err.data, None);
    assert_eq!(err.message, "broken");
}
