//! Entity value types: users, biography projects, sessions, and the
//! request payloads that create or change them, each with a ghost view
//! used by the contracts.

use vstd::prelude::*;

verus! {

/// Status tag of a biography project. No handler changes it after
/// creation: every biography is created as `Draft`.
#[derive(Clone, Copy, Debug, PartialEq, Eq, Structural)]
pub enum BiographyStatus {
    Draft,
    Published,
    Archived,
}

/// A registered user. The id is generated by the server and never
/// changes once assigned; timestamps are milliseconds since the epoch.
#[derive(Debug)]
pub struct User {
    pub id: String,
    pub openid: String,
    pub nickname: String,
    pub avatar: Option<String>,
    pub created_at: i64,
    pub updated_at: i64,
}

/// Mathematical image of a `User`: every string as a character sequence.
pub ghost struct UserView {
    pub id: Seq<char>,
    pub openid: Seq<char>,
    pub nickname: Seq<char>,
    pub avatar: Option<Seq<char>>,
    pub created_at: int,
    pub updated_at: int,
}

impl View for User {
    type V = UserView;

    open spec fn view(&self) -> UserView {
        UserView {
            id: self.id@,
            openid: self.openid@,
            nickname: self.nickname@,
            avatar: match self.avatar {
                Some(a) => Some(a@),
                None => None,
            },
            created_at: self.created_at as int,
            updated_at: self.updated_at as int,
        }
    }
}

impl User {
    /// A field-by-field copy with the same view.
    pub fn duplicate(&self) -> (r: User)
        ensures
            r@ == self@,
    {
        User {
            id: self.id.clone(),
            openid: self.openid.clone(),
            nickname: self.nickname.clone(),
            avatar: match &self.avatar {
                Some(a) => Some(a.clone()),
                None => None,
            },
            created_at: self.created_at,
            updated_at: self.updated_at,
        }
    }
}

/// A biography project owned by a user. `user_id` references an
/// existing user at creation time; `content` starts empty.
#[derive(Debug)]
pub struct Biography {
    pub id: String,
    pub user_id: String,
    pub title: String,
    pub description: Option<String>,
    pub content: String,
    pub status: BiographyStatus,
    pub created_at: i64,
    pub updated_at: i64,
}

/// Mathematical image of a `Biography`.
pub ghost struct BiographyView {
    pub id: Seq<char>,
    pub user_id: Seq<char>,
    pub title: Seq<char>,
    pub description: Option<Seq<char>>,
    pub content: Seq<char>,
    pub status: BiographyStatus,
    pub created_at: int,
    pub updated_at: int,
}

impl View for Biography {
    type V = BiographyView;

    open spec fn view(&self) -> BiographyView {
        BiographyView {
            id: self.id@,
            user_id: self.user_id@,
            title: self.title@,
            description: match self.description {
                Some(d) => Some(d@),
                None => None,
            },
            content: self.content@,
            status: self.status,
            created_at: self.created_at as int,
            updated_at: self.updated_at as int,
        }
    }
}

impl Biography {
    /// A field-by-field copy with the same view.
    pub fn duplicate(&self) -> (r: Biography)
        ensures
            r@ == self@,
    {
        Biography {
            id: self.id.clone(),
            user_id: self.user_id.clone(),
            title: self.title.clone(),
            description: match &self.description {
                Some(d) => Some(d.clone()),
                None => None,
            },
            content: self.content.clone(),
            status: self.status,
            created_at: self.created_at,
            updated_at: self.updated_at,
        }
    }
}

/// An authentication session. The data model declares it and the state
/// allocates a store for it, but no operation in scope creates or reads
/// one.
#[derive(Debug)]
pub struct Session {
    pub session_id: String,
    pub user_id: String,
    pub expires_at: i64,
}

/// Mathematical image of a `Session`.
pub ghost struct SessionView {
    pub session_id: Seq<char>,
    pub user_id: Seq<char>,
    pub expires_at: int,
}

impl View for Session {
    type V = SessionView;

    open spec fn view(&self) -> SessionView {
        SessionView {
            session_id: self.session_id@,
            user_id: self.user_id@,
            expires_at: self.expires_at as int,
        }
    }
}

/// Payload of the create-user operation.
#[derive(Debug)]
pub struct CreateUserRequest {
    pub openid: String,
    pub nickname: String,
    pub avatar: Option<String>,
}

/// Mathematical image of a `CreateUserRequest`.
pub ghost struct CreateUserRequestView {
    pub openid: Seq<char>,
    pub nickname: Seq<char>,
    pub avatar: Option<Seq<char>>,
}

impl View for CreateUserRequest {
    type V = CreateUserRequestView;

    open spec fn view(&self) -> CreateUserRequestView {
        CreateUserRequestView {
            openid: self.openid@,
            nickname: self.nickname@,
            avatar: match self.avatar {
                Some(a) => Some(a@),
                None => None,
            },
        }
    }
}

/// Payload of the create-biography operation.
#[derive(Debug)]
pub struct CreateBiographyRequest {
    pub user_id: String,
    pub title: String,
    pub description: Option<String>,
}

/// Mathematical image of a `CreateBiographyRequest`.
pub ghost struct CreateBiographyRequestView {
    pub user_id: Seq<char>,
    pub title: Seq<char>,
    pub description: Option<Seq<char>>,
}

impl View for CreateBiographyRequest {
    type V = CreateBiographyRequestView;

    open spec fn view(&self) -> CreateBiographyRequestView {
        CreateBiographyRequestView {
            user_id: self.user_id@,
            title: self.title@,
            description: match self.description {
                Some(d) => Some(d@),
                None => None,
            },
        }
    }
}

/// Payload of the partial-update operation. A `None` field means
/// "leave unchanged"; a `Some` field, even an empty string, means
/// "overwrite".
#[derive(Debug)]
pub struct UpdateBiographyRequest {
    pub title: Option<String>,
    pub description: Option<String>,
    pub content: Option<String>,
}

/// Mathematical image of an `UpdateBiographyRequest`.
pub ghost struct UpdateBiographyRequestView {
    pub title: Option<Seq<char>>,
    pub description: Option<Seq<char>>,
    pub content: Option<Seq<char>>,
}

impl View for UpdateBiographyRequest {
    type V = UpdateBiographyRequestView;

    open spec fn view(&self) -> UpdateBiographyRequestView {
        UpdateBiographyRequestView {
            title: match self.title {
                Some(t) => Some(t@),
                None => None,
            },
            description: match self.description {
                Some(d) => Some(d@),
                None => None,
            },
            content: match self.content {
                Some(c) => Some(c@),
                None => None,
            },
        }
    }
}

} // verus!
