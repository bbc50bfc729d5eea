//! The entity store: three concurrent maps keyed by entity id, one per
//! entity type, together with the application state that owns them.
//!
//! The maps are `dashmap::DashMap` values. Each map's contents is named
//! by an uninterpreted view returning a `Map` from key characters to
//! the entity's ghost view; the trusted wrappers below state how each
//! store operation acts on that view.

use vstd::prelude::*;

use crate::entities::{Biography, BiographyView, Session, SessionView, User, UserView};
use dashmap::DashMap;

verus! {

#[verifier::external_type_specification]
#[verifier::external_body]
#[verifier::reject_recursive_types(K)]
#[verifier::reject_recursive_types(V)]
#[verifier::reject_recursive_types(S)]
pub struct ExDashMap<K, V, S>(DashMap<K, V, S>);

/// A store of users keyed by id.
pub type UserMap = DashMap<String, User>;

/// A store of biographies keyed by id.
pub type BiographyMap = DashMap<String, Biography>;

/// A store of sessions keyed by id.
pub type SessionMap = DashMap<String, Session>;

/// The contents of a user map, keyed by the id string's characters.
pub uninterp spec fn users_view(m: UserMap) -> Map<Seq<char>, UserView>;

/// The contents of a biography map, keyed by the id string's characters.
pub uninterp spec fn biographies_view(m: BiographyMap) -> Map<Seq<char>, BiographyView>;

/// The contents of a session map, keyed by the id string's characters.
pub uninterp spec fn sessions_view(m: SessionMap) -> Map<Seq<char>, SessionView>;

/// Relies on dashmap::DashMap::new: the new map is empty.
#[verifier::external_body]
pub(crate) fn new_user_map() -> (r: UserMap)
    ensures
        (users_view(r) == Map::<Seq<char>, UserView>::empty()),
{
    DashMap::new()
}

/// Relies on dashmap::DashMap::new: the new map is empty.
#[verifier::external_body]
pub(crate) fn new_biography_map() -> (r: BiographyMap)
    ensures
        (biographies_view(r) == Map::<Seq<char>, BiographyView>::empty()),
{
    DashMap::new()
}

/// Relies on dashmap::DashMap::new: the new map is empty.
#[verifier::external_body]
pub(crate) fn new_session_map() -> (r: SessionMap)
    ensures
        (sessions_view(r) == Map::<Seq<char>, SessionView>::empty()),
{
    DashMap::new()
}

/// Relies on dashmap::DashMap::insert: maps the key to the value,
/// overwriting any previous entry for that key.
#[verifier::external_body]
pub(crate) fn users_insert(m: &mut UserMap, k: &String, v: User)
    ensures
        users_view(*final(m)) == users_view(*old(m)).insert(k@, v@),
{
    m.insert(k.clone(), v);
}

/// Relies on dashmap::DashMap::get: returns a copy of the entry for the
/// key, `None` if there is none.
#[verifier::external_body]
pub(crate) fn users_get(m: &UserMap, k: &String) -> (r: Option<User>)
    ensures
        match r {
            Some(u) => users_view(*m).contains_pair(k@, u@),
            None => !users_view(*m).dom().contains(k@),
        },
{
    match m.get(k) {
        Some(entry) => Some(entry.value().duplicate()),
        None => None,
    }
}

/// Relies on dashmap::DashMap::contains_key: tells whether the map has
/// an entry for the key.
#[verifier::external_body]
pub(crate) fn users_contains(m: &UserMap, k: &String) -> (r: bool)
    ensures
        r == users_view(*m).dom().contains(k@),
{
    m.contains_key(k)
}

/// Relies on dashmap::DashMap::insert: maps the key to the value,
/// overwriting any previous entry for that key.
#[verifier::external_body]
pub(crate) fn biographies_insert(m: &mut BiographyMap, k: &String, v: Biography)
    ensures
        biographies_view(*final(m)) == biographies_view(*old(m)).insert(k@, v@),
{
    m.insert(k.clone(), v);
}

/// Relies on dashmap::DashMap::get: returns a copy of the entry for the
/// key, `None` if there is none.
#[verifier::external_body]
pub(crate) fn biographies_get(m: &BiographyMap, k: &String) -> (r: Option<Biography>)
    ensures
        match r {
            Some(b) => biographies_view(*m).contains_pair(k@, b@),
            None => !biographies_view(*m).dom().contains(k@),
        },
{
    match m.get(k) {
        Some(entry) => Some(entry.value().duplicate()),
        None => None,
    }
}

/// Relies on dashmap::DashMap::iter: yields every entry of the map
/// exactly once, in no particular order.
#[verifier::external_body]
pub(crate) fn biographies_entries(m: &BiographyMap) -> (r: Vec<(String, Biography)>)
    ensures
        forall|i: int|
            0 <= i < r@.len() ==> biographies_view(*m).contains_pair(r@[i].0@, r@[i].1@),
        forall|k: Seq<char>|
            biographies_view(*m).dom().contains(k) ==> exists|i: int|
                0 <= i < r@.len() && r@[i].0@ == k,
        forall|i: int, j: int| 0 <= i < j < r@.len() ==> r@[i].0@ != r@[j].0@,
{
    let mut out: Vec<(String, Biography)> = Vec::new();
    for entry in m.iter() {
        out.push((entry.key().clone(), entry.value().duplicate()));
    }
    out
}

/// The process-wide application state: one store per entity type.
pub struct AppState {
    pub users: UserMap,
    pub biographies: BiographyMap,
    pub sessions: SessionMap,
}

impl AppState {
    /// The user store's contents.
    pub open spec fn users_map(self) -> Map<Seq<char>, UserView> {
        users_view(self.users)
    }

    /// The biography store's contents.
    pub open spec fn biographies_map(self) -> Map<Seq<char>, BiographyView> {
        biographies_view(self.biographies)
    }

    /// The session store's contents.
    pub open spec fn sessions_map(self) -> Map<Seq<char>, SessionView> {
        sessions_view(self.sessions)
    }

    /// Well-formedness: the stores hold finitely many entities, and
    /// every entity sits under its own id.
    pub open spec fn wf(self) -> bool {
        &&& self.users_map().dom().finite()
        &&& self.biographies_map().dom().finite()
        &&& self.sessions_map().dom().finite()
        &&& forall|k: Seq<char>|
            self.users_map().dom().contains(k) ==> #[trigger] self.users_map()[k].id == k
        &&& forall|k: Seq<char>|
            self.biographies_map().dom().contains(k) ==> #[trigger] self.biographies_map()[k].id
                == k
    }

    /// A fresh state with all three stores empty.
    pub fn new() -> (s: AppState)
        ensures
            s.wf(),
            s.users_map() == Map::<Seq<char>, UserView>::empty(),
            s.biographies_map() == Map::<Seq<char>, BiographyView>::empty(),
            s.sessions_map() == Map::<Seq<char>, SessionView>::empty(),
    {
        AppState {
            users: new_user_map(),
            biographies: new_biography_map(),
            sessions: new_session_map(),
        }
    }
}

} // verus!
