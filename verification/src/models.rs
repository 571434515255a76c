//! Data model: the entities held by the persistence layer, the transient
//! forms and filters supplied by callers, and the authentication payload.
//!
//! Each entity has a spec-level view (`...View`) whose fields are the
//! mathematical contents of the executable fields; every contract in the
//! library speaks about these views.
use vstd::prelude::*;

verus! {

/// A user record: stable unique id, unique email, salted password hash.
pub struct User {
    pub id: String,
    pub email: String,
    pub password_hash: String,
}

pub struct UserView {
    pub id: Seq<char>,
    pub email: Seq<char>,
    pub password_hash: Seq<char>,
}

impl View for User {
    type V = UserView;

    open spec fn view(&self) -> UserView {
        UserView { id: self.id@, email: self.email@, password_hash: self.password_hash@ }
    }
}

impl DeepView for User {
    type V = UserView;

    open spec fn deep_view(&self) -> UserView {
        self.view()
    }
}

impl Clone for User {
    fn clone(&self) -> (res: User)
        ensures
            res@ == self@,
    {
        User {
            id: self.id.clone(),
            email: self.email.clone(),
            password_hash: self.password_hash.clone(),
        }
    }
}

/// The per-snippet display state.
pub struct SnippetState {
    pub id: String,
    pub is_favorite: bool,
    pub is_dark: bool,
}

pub struct SnippetStateView {
    pub id: Seq<char>,
    pub is_favorite: bool,
    pub is_dark: bool,
}

impl View for SnippetState {
    type V = SnippetStateView;

    open spec fn view(&self) -> SnippetStateView {
        SnippetStateView { id: self.id@, is_favorite: self.is_favorite, is_dark: self.is_dark }
    }
}

impl DeepView for SnippetState {
    type V = SnippetStateView;

    open spec fn deep_view(&self) -> SnippetStateView {
        self.view()
    }
}

impl Clone for SnippetState {
    fn clone(&self) -> (res: SnippetState)
        ensures
            res@ == self@,
    {
        SnippetState { id: self.id.clone(), is_favorite: self.is_favorite, is_dark: self.is_dark }
    }
}

/// A code snippet. `tag_ids` and `snippet_state_id` reference related
/// records by id; the records themselves are attached by relation expansion
/// (see `SnippetDetail`).
pub struct Snippet {
    pub id: String,
    pub title: String,
    pub description: String,
    pub language: String,
    pub code: String,
    pub tag_ids: Vec<String>,
    pub snippet_state_id: String,
}

pub struct SnippetView {
    pub id: Seq<char>,
    pub title: Seq<char>,
    pub description: Seq<char>,
    pub language: Seq<char>,
    pub code: Seq<char>,
    pub tag_ids: Seq<Seq<char>>,
    pub snippet_state_id: Seq<char>,
}

impl View for Snippet {
    type V = SnippetView;

    open spec fn view(&self) -> SnippetView {
        SnippetView {
            id: self.id@,
            title: self.title@,
            description: self.description@,
            language: self.language@,
            code: self.code@,
            tag_ids: self.tag_ids.deep_view(),
            snippet_state_id: self.snippet_state_id@,
        }
    }
}

impl DeepView for Snippet {
    type V = SnippetView;

    open spec fn deep_view(&self) -> SnippetView {
        self.view()
    }
}

/// A tag. `snippet_ids` references the tagged snippets by id.
pub struct Tag {
    pub id: String,
    pub name: String,
    pub color: Option<String>,
    pub snippet_ids: Vec<String>,
}

pub struct TagView {
    pub id: Seq<char>,
    pub name: Seq<char>,
    pub color: Option<Seq<char>>,
    pub snippet_ids: Seq<Seq<char>>,
}

impl View for Tag {
    type V = TagView;

    open spec fn view(&self) -> TagView {
        TagView {
            id: self.id@,
            name: self.name@,
            color: self.color.deep_view(),
            snippet_ids: self.snippet_ids.deep_view(),
        }
    }
}

impl DeepView for Tag {
    type V = TagView;

    open spec fn deep_view(&self) -> TagView {
        self.view()
    }
}

/// A snippet together with its expanded relations: the referenced display
/// state (if it exists) and the referenced tags, in stored order.
pub struct SnippetDetail {
    pub snippet: Snippet,
    pub state: Option<SnippetState>,
    pub tags: Vec<Tag>,
}

pub struct SnippetDetailView {
    pub snippet: SnippetView,
    pub state: Option<SnippetStateView>,
    pub tags: Seq<TagView>,
}

impl View for SnippetDetail {
    type V = SnippetDetailView;

    open spec fn view(&self) -> SnippetDetailView {
        SnippetDetailView {
            snippet: self.snippet@,
            state: self.state.deep_view(),
            tags: self.tags.deep_view(),
        }
    }
}

impl DeepView for SnippetDetail {
    type V = SnippetDetailView;

    open spec fn deep_view(&self) -> SnippetDetailView {
        self.view()
    }
}

/// A tag together with its expanded relation: the snippets it references,
/// in stored order.
pub struct TagDetail {
    pub tag: Tag,
    pub snippets: Vec<Snippet>,
}

pub struct TagDetailView {
    pub tag: TagView,
    pub snippets: Seq<SnippetView>,
}

impl View for TagDetail {
    type V = TagDetailView;

    open spec fn view(&self) -> TagDetailView {
        TagDetailView { tag: self.tag@, snippets: self.snippets.deep_view() }
    }
}

impl DeepView for TagDetail {
    type V = TagDetailView;

    open spec fn deep_view(&self) -> TagDetailView {
        self.view()
    }
}

/// Clones a vector of strings, preserving its contents.
pub fn clone_string_vec(v: &Vec<String>) -> (r: Vec<String>)
    ensures
        r.deep_view() == v.deep_view(),
{
    let mut r: Vec<String> = Vec::new();
    let mut i: usize = 0;
    while i < v.len()
        invariant
            i <= v@.len(),
            r@.len() == i,
            forall|k: int| 0 <= k < i ==> r@[k]@ == v@[k]@,
        decreases v@.len() - i,
    {
        let x = v[i].clone();
        r.push(x);
        i = i + 1;
    }
    proof {
        assert(r.deep_view() =~= v.deep_view());
    }
    r
}

fn clone_opt_string(v: &Option<String>) -> (r: Option<String>)
    ensures
        r.deep_view() == v.deep_view(),
{
    match v {
        Some(s) => Some(s.clone()),
        None => None,
    }
}

impl Clone for Snippet {
    fn clone(&self) -> (res: Snippet)
        ensures
            res@ == self@,
    {
        Snippet {
            id: self.id.clone(),
            title: self.title.clone(),
            description: self.description.clone(),
            language: self.language.clone(),
            code: self.code.clone(),
            tag_ids: clone_string_vec(&self.tag_ids),
            snippet_state_id: self.snippet_state_id.clone(),
        }
    }
}

impl Clone for Tag {
    fn clone(&self) -> (res: Tag)
        ensures
            res@ == self@,
    {
        Tag {
            id: self.id.clone(),
            name: self.name.clone(),
            color: clone_opt_string(&self.color),
            snippet_ids: clone_string_vec(&self.snippet_ids),
        }
    }
}

/// Registration form: transient caller input, never persisted as-is.
pub struct UserForm {
    pub name: String,
    pub email: String,
    pub password: String,
}

/// Login input: transient (email, plaintext password) pair, never persisted.
pub struct Credentials {
    pub email: String,
    pub password: String,
}

/// Direct user-record input for the mechanical user CRUD commands.
pub struct UserData {
    pub email: String,
    pub password_hash: String,
}

/// Listing filter for users.
pub struct UserFilter {
    pub email: Option<String>,
}

/// Returned to a caller after a successful login, registration or refresh.
pub struct AuthPayload {
    pub access_token: String,
    pub refresh_token: String,
    pub user: User,
}

/// Creation/update form for snippets.
pub struct SnippetForm {
    pub title: String,
    pub description: String,
    pub language: String,
    pub code: String,
    pub tag_ids: Vec<String>,
    pub snippet_state_id: String,
}

/// Listing filter for snippets.
pub struct SnippetFilter {
    pub search: Option<String>,
    pub title: Option<String>,
    pub description: Option<String>,
    pub language: Option<String>,
    pub code: Option<String>,
    pub state: Option<SnippetStateUpdate>,
    pub tags: Option<Vec<String>>,
}

/// Partial update of a snippet's display state; absent fields are kept.
pub struct SnippetStateUpdate {
    pub is_favorite: Option<bool>,
    pub is_dark: Option<bool>,
}

/// Creation/update form for tags.
pub struct TagForm {
    pub name: String,
    pub color: Option<String>,
    pub snippet_ids: Vec<String>,
}

/// Listing filter for tags.
pub struct TagFilter {
    pub name: Option<String>,
}

/// One page of a listing, together with pagination bookkeeping.
pub struct PaginatedResponse<T> {
    pub data: Vec<T>,
    pub total: i64,
    pub page: usize,
    pub page_size: usize,
}

} // verus!
