//! Listing filters, modeled as explicit tagged clauses.
//!
//! An optional, fully-typed filter struct is lowered by a builder into a
//! list of `{field, operator, value}` clauses, and a record matches a filter
//! exactly when it satisfies every clause. The spec predicates here are the
//! single meaning of "matches" used by the listing contracts.
use vstd::prelude::*;

use crate::models::SnippetFilter;
use crate::models::SnippetStateUpdate;
use crate::models::SnippetStateView;
use crate::models::SnippetView;
use crate::models::Tag;
use crate::models::TagFilter;
use crate::models::TagView;
use crate::models::Snippet;
use crate::models::SnippetState;
use crate::models::User;
use crate::models::UserFilter;
use crate::models::UserView;
use crate::store::string_eq;
use crate::text::seq_contains_sub;
use crate::text::str_contains;

verus! {

/// One filter clause over users.
pub enum UserClause {
    EmailContains(String),
}

pub enum UserClauseView {
    EmailContains(Seq<char>),
}

impl View for UserClause {
    type V = UserClauseView;

    open spec fn view(&self) -> UserClauseView {
        match self {
            UserClause::EmailContains(s) => UserClauseView::EmailContains(s@),
        }
    }
}

impl DeepView for UserClause {
    type V = UserClauseView;

    open spec fn deep_view(&self) -> UserClauseView {
        self.view()
    }
}

/// One filter clause over tags.
pub enum TagClause {
    NameContains(String),
}

pub enum TagClauseView {
    NameContains(Seq<char>),
}

impl View for TagClause {
    type V = TagClauseView;

    open spec fn view(&self) -> TagClauseView {
        match self {
            TagClause::NameContains(s) => TagClauseView::NameContains(s@),
        }
    }
}

impl DeepView for TagClause {
    type V = TagClauseView;

    open spec fn deep_view(&self) -> TagClauseView {
        self.view()
    }
}

/// One condition on a snippet's related display state.
pub enum StateClause {
    IsFavorite(bool),
    IsDark(bool),
}

pub enum StateClauseView {
    IsFavorite(bool),
    IsDark(bool),
}

impl View for StateClause {
    type V = StateClauseView;

    open spec fn view(&self) -> StateClauseView {
        match self {
            StateClause::IsFavorite(b) => StateClauseView::IsFavorite(*b),
            StateClause::IsDark(b) => StateClauseView::IsDark(*b),
        }
    }
}

impl DeepView for StateClause {
    type V = StateClauseView;

    open spec fn deep_view(&self) -> StateClauseView {
        self.view()
    }
}

/// One filter clause over snippets. `SearchAny` is the free-text search: it
/// holds when any of the four text fields contains the query.
pub enum SnippetClause {
    SearchAny(String),
    TitleContains(String),
    DescriptionContains(String),
    LanguageEquals(String),
    CodeContains(String),
    StateIs(Vec<StateClause>),
    TagsSomeNameIn(Vec<String>),
}

pub enum SnippetClauseView {
    SearchAny(Seq<char>),
    TitleContains(Seq<char>),
    DescriptionContains(Seq<char>),
    LanguageEquals(Seq<char>),
    CodeContains(Seq<char>),
    StateIs(Seq<StateClauseView>),
    TagsSomeNameIn(Seq<Seq<char>>),
}

impl View for SnippetClause {
    type V = SnippetClauseView;

    open spec fn view(&self) -> SnippetClauseView {
        match self {
            SnippetClause::SearchAny(s) => SnippetClauseView::SearchAny(s@),
            SnippetClause::TitleContains(s) => SnippetClauseView::TitleContains(s@),
            SnippetClause::DescriptionContains(s) => SnippetClauseView::DescriptionContains(s@),
            SnippetClause::LanguageEquals(s) => SnippetClauseView::LanguageEquals(s@),
            SnippetClause::CodeContains(s) => SnippetClauseView::CodeContains(s@),
            SnippetClause::StateIs(cs) => SnippetClauseView::StateIs(cs.deep_view()),
            SnippetClause::TagsSomeNameIn(ns) => SnippetClauseView::TagsSomeNameIn(ns.deep_view()),
        }
    }
}

impl DeepView for SnippetClause {
    type V = SnippetClauseView;

    open spec fn deep_view(&self) -> SnippetClauseView {
        self.view()
    }
}

/// Whether a user satisfies one clause.
pub open spec fn user_clause_holds(u: UserView, c: UserClauseView) -> bool {
    match c {
        UserClauseView::EmailContains(q) => seq_contains_sub(u.email, q),
    }
}

/// Whether a user satisfies every clause of a filter.
pub open spec fn user_matches(u: UserView, cs: Seq<UserClauseView>) -> bool {
    forall|i: int| 0 <= i < cs.len() ==> user_clause_holds(u, #[trigger] cs[i])
}

/// Whether a tag satisfies one clause.
pub open spec fn tag_clause_holds(t: TagView, c: TagClauseView) -> bool {
    match c {
        TagClauseView::NameContains(q) => seq_contains_sub(t.name, q),
    }
}

/// Whether a tag satisfies every clause of a filter.
pub open spec fn tag_matches(t: TagView, cs: Seq<TagClauseView>) -> bool {
    forall|i: int| 0 <= i < cs.len() ==> tag_clause_holds(t, #[trigger] cs[i])
}

/// Whether a display state satisfies one condition.
pub open spec fn state_clause_holds(st: SnippetStateView, c: StateClauseView) -> bool {
    match c {
        StateClauseView::IsFavorite(b) => st.is_favorite == b,
        StateClauseView::IsDark(b) => st.is_dark == b,
    }
}

/// Whether a display state satisfies every condition of a `StateIs` clause.
pub open spec fn state_all_hold(st: SnippetStateView, scs: Seq<StateClauseView>) -> bool {
    forall|j: int| 0 <= j < scs.len() ==> state_clause_holds(st, #[trigger] scs[j])
}

/// Whether some stored state carries this id and satisfies every condition.
pub open spec fn state_is_holds(
    states: Seq<SnippetStateView>,
    state_id: Seq<char>,
    scs: Seq<StateClauseView>,
) -> bool {
    exists|i: int|
        0 <= i < states.len() && #[trigger] states[i].id == state_id && state_all_hold(
            states[i],
            scs,
        )
}

/// Whether some stored tag is referenced by `tag_ids` and named in `names`.
pub open spec fn tags_some_name_in_holds(
    tags: Seq<TagView>,
    tag_ids: Seq<Seq<char>>,
    names: Seq<Seq<char>>,
) -> bool {
    exists|i: int|
        0 <= i < tags.len() && tag_ids.contains(#[trigger] tags[i].id) && names.contains(
            tags[i].name,
        )
}

/// Whether a snippet satisfies one clause, given the stored states and tags
/// that its relations refer to.
pub open spec fn snippet_clause_holds(
    states: Seq<SnippetStateView>,
    tags: Seq<TagView>,
    s: SnippetView,
    c: SnippetClauseView,
) -> bool {
    match c {
        SnippetClauseView::SearchAny(q) => seq_contains_sub(s.title, q) || seq_contains_sub(
            s.description,
            q,
        ) || seq_contains_sub(s.code, q) || seq_contains_sub(s.language, q),
        SnippetClauseView::TitleContains(q) => seq_contains_sub(s.title, q),
        SnippetClauseView::DescriptionContains(q) => seq_contains_sub(s.description, q),
        SnippetClauseView::LanguageEquals(q) => s.language == q,
        SnippetClauseView::CodeContains(q) => seq_contains_sub(s.code, q),
        SnippetClauseView::StateIs(scs) => state_is_holds(states, s.snippet_state_id, scs),
        SnippetClauseView::TagsSomeNameIn(names) => tags_some_name_in_holds(
            tags,
            s.tag_ids,
            names,
        ),
    }
}

/// Whether a snippet satisfies every clause of a filter.
pub open spec fn snippet_matches(
    states: Seq<SnippetStateView>,
    tags: Seq<TagView>,
    s: SnippetView,
    cs: Seq<SnippetClauseView>,
) -> bool {
    forall|i: int| 0 <= i < cs.len() ==> snippet_clause_holds(states, tags, s, #[trigger] cs[i])
}

/// The clauses that an optional user filter lowers to.
pub open spec fn user_clauses_spec(filter: Option<UserFilter>) -> Seq<UserClauseView> {
    match filter {
        None => seq![],
        Some(f) => match f.email {
            Some(e) => seq![UserClauseView::EmailContains(e@)],
            None => seq![],
        },
    }
}

/// Lowers an optional user filter to its clause list.
pub fn build_user_filters(filter: Option<UserFilter>) -> (r: Vec<UserClause>)
    ensures
        r.deep_view() == user_clauses_spec(filter),
{
    let ghost gf = filter;
    let mut r: Vec<UserClause> = Vec::new();
    match filter {
        None => {},
        Some(f) => match f.email {
            Some(e) => {
                r.push(UserClause::EmailContains(e));
            },
            None => {},
        },
    }
    proof {
        assert(r.deep_view() =~= user_clauses_spec(gf));
    }
    r
}

/// The clauses that an optional tag filter lowers to.
pub open spec fn tag_clauses_spec(filter: Option<TagFilter>) -> Seq<TagClauseView> {
    match filter {
        None => seq![],
        Some(f) => match f.name {
            Some(n) => seq![TagClauseView::NameContains(n@)],
            None => seq![],
        },
    }
}

/// Lowers an optional tag filter to its clause list.
pub fn build_tag_filters(filter: Option<TagFilter>) -> (r: Vec<TagClause>)
    ensures
        r.deep_view() == tag_clauses_spec(filter),
{
    let ghost gf = filter;
    let mut r: Vec<TagClause> = Vec::new();
    match filter {
        None => {},
        Some(f) => match f.name {
            Some(n) => {
                r.push(TagClause::NameContains(n));
            },
            None => {},
        },
    }
    proof {
        assert(r.deep_view() =~= tag_clauses_spec(gf));
    }
    r
}

/// The state conditions that a partial state filter lowers to.
pub open spec fn state_clauses_spec(st: SnippetStateUpdate) -> Seq<StateClauseView> {
    (match st.is_favorite {
        Some(b) => seq![StateClauseView::IsFavorite(b)],
        None => seq![],
    }) + (match st.is_dark {
        Some(b) => seq![StateClauseView::IsDark(b)],
        None => seq![],
    })
}

/// The clauses that an optional snippet filter lowers to, in the order the
/// filter fields are declared: free-text search, title, description,
/// language, code, state conditions (only when non-empty), tag names (only
/// when non-empty).
pub open spec fn snippet_clauses_spec(filter: Option<SnippetFilter>) -> Seq<SnippetClauseView> {
    match filter {
        None => seq![],
        Some(f) => (match f.search {
            Some(q) => seq![SnippetClauseView::SearchAny(q@)],
            None => seq![],
        }) + (match f.title {
            Some(q) => seq![SnippetClauseView::TitleContains(q@)],
            None => seq![],
        }) + (match f.description {
            Some(q) => seq![SnippetClauseView::DescriptionContains(q@)],
            None => seq![],
        }) + (match f.language {
            Some(q) => seq![SnippetClauseView::LanguageEquals(q@)],
            None => seq![],
        }) + (match f.code {
            Some(q) => seq![SnippetClauseView::CodeContains(q@)],
            None => seq![],
        }) + (match f.state {
            Some(st) => if state_clauses_spec(st).len() > 0 {
                seq![SnippetClauseView::StateIs(state_clauses_spec(st))]
            } else {
                seq![]
            },
            None => seq![],
        }) + (match f.tags {
            Some(ts) => if ts.deep_view().len() > 0 {
                seq![SnippetClauseView::TagsSomeNameIn(ts.deep_view())]
            } else {
                seq![]
            },
            None => seq![],
        }),
    }
}

/// Lowers an optional snippet filter to its clause list.
#[verifier::rlimit(50)]
pub fn build_snippet_filters(filter: Option<SnippetFilter>) -> (r: Vec<SnippetClause>)
    ensures
        r.deep_view() == snippet_clauses_spec(filter),
{
    let ghost gf = filter;
    let mut r: Vec<SnippetClause> = Vec::new();
    match filter {
        None => {
            proof {
                assert(r.deep_view() =~= snippet_clauses_spec(gf));
            }
        },
        Some(f) => {
            let SnippetFilter { search, title, description, language, code, state, tags } = f;
            let ghost e1 = match search {
                Some(ref q) => seq![SnippetClauseView::SearchAny(q@)],
                None => seq![],
            };
            let ghost e2 = match title {
                Some(ref q) => seq![SnippetClauseView::TitleContains(q@)],
                None => seq![],
            };
            let ghost e3 = match description {
                Some(ref q) => seq![SnippetClauseView::DescriptionContains(q@)],
                None => seq![],
            };
            let ghost e4 = match language {
                Some(ref q) => seq![SnippetClauseView::LanguageEquals(q@)],
                None => seq![],
            };
            let ghost e5 = match code {
                Some(ref q) => seq![SnippetClauseView::CodeContains(q@)],
                None => seq![],
            };
            let ghost e6 = match state {
                Some(ref st) => if state_clauses_spec(*st).len() > 0 {
                    seq![SnippetClauseView::StateIs(state_clauses_spec(*st))]
                } else {
                    seq![]
                },
                None => seq![],
            };
            let ghost e7 = match tags {
                Some(ref ts) => if ts.deep_view().len() > 0 {
                    seq![SnippetClauseView::TagsSomeNameIn(ts.deep_view())]
                } else {
                    seq![]
                },
                None => seq![],
            };
            proof {
                assert(snippet_clauses_spec(gf) == e1 + e2 + e3 + e4 + e5 + e6 + e7);
            }
            if let Some(q) = search {
                r.push(SnippetClause::SearchAny(q));
            }
            proof {
                assert(r.deep_view() =~= e1);
            }
            if let Some(q) = title {
                r.push(SnippetClause::TitleContains(q));
            }
            proof {
                assert(r.deep_view() =~= e1 + e2);
            }
            if let Some(q) = description {
                r.push(SnippetClause::DescriptionContains(q));
            }
            proof {
                assert(r.deep_view() =~= e1 + e2 + e3);
            }
            if let Some(q) = language {
                r.push(SnippetClause::LanguageEquals(q));
            }
            proof {
                assert(r.deep_view() =~= e1 + e2 + e3 + e4);
            }
            if let Some(q) = code {
                r.push(SnippetClause::CodeContains(q));
            }
            proof {
                assert(r.deep_view() =~= e1 + e2 + e3 + e4 + e5);
            }
            if let Some(st) = state {
                let mut scs: Vec<StateClause> = Vec::new();
                if let Some(b) = st.is_favorite {
                    scs.push(StateClause::IsFavorite(b));
                }
                if let Some(b) = st.is_dark {
                    scs.push(StateClause::IsDark(b));
                }
                proof {
                    assert(scs.deep_view() =~= state_clauses_spec(st));
                }
                if scs.len() > 0 {
                    r.push(SnippetClause::StateIs(scs));
                }
            }
            proof {
                assert(r.deep_view() =~= e1 + e2 + e3 + e4 + e5 + e6);
            }
            if let Some(ts) = tags {
                if ts.len() > 0 {
                    r.push(SnippetClause::TagsSomeNameIn(ts));
                }
            }
            proof {
                assert(r.deep_view() =~= e1 + e2 + e3 + e4 + e5 + e6 + e7);
            }
        },
    }
    r
}

/// Whether a user satisfies every clause (executable form).
pub fn user_matches_exec(u: &User, cs: &Vec<UserClause>) -> (r: bool)
    ensures
        r == user_matches(u@, cs.deep_view()),
{
    let mut i: usize = 0;
    while i < cs.len()
        invariant
            i <= cs@.len(),
            forall|k: int| 0 <= k < i ==> user_clause_holds(u@, #[trigger] cs.deep_view()[k]),
        decreases cs@.len() - i,
    {
        let holds = match &cs[i] {
            UserClause::EmailContains(q) => str_contains(u.email.as_str(), q.as_str()),
        };
        if !holds {
            proof {
                assert(!user_clause_holds(u@, cs.deep_view()[i as int]));
            }
            return false;
        }
        i = i + 1;
    }
    true
}

/// Whether a tag satisfies every clause (executable form).
pub fn tag_matches_exec(t: &Tag, cs: &Vec<TagClause>) -> (r: bool)
    ensures
        r == tag_matches(t@, cs.deep_view()),
{
    let mut i: usize = 0;
    while i < cs.len()
        invariant
            i <= cs@.len(),
            forall|k: int| 0 <= k < i ==> tag_clause_holds(t@, #[trigger] cs.deep_view()[k]),
        decreases cs@.len() - i,
    {
        let holds = match &cs[i] {
            TagClause::NameContains(q) => str_contains(t.name.as_str(), q.as_str()),
        };
        if !holds {
            proof {
                assert(!tag_clause_holds(t@, cs.deep_view()[i as int]));
            }
            return false;
        }
        i = i + 1;
    }
    true
}

/// Whether some element of `v` equals `x` by content.
pub fn vec_string_contains(v: &Vec<String>, x: &String) -> (r: bool)
    ensures
        r == v.deep_view().contains(x@),
{
    let mut i: usize = 0;
    while i < v.len()
        invariant
            i <= v@.len(),
            forall|k: int| 0 <= k < i ==> #[trigger] v.deep_view()[k] != x@,
        decreases v@.len() - i,
    {
        if string_eq(&v[i], x) {
            proof {
                assert(v.deep_view()[i as int] == x@);
            }
            return true;
        }
        i = i + 1;
    }
    proof {
        assert(!v.deep_view().contains(x@)) by {
            if v.deep_view().contains(x@) {
                let k = choose|k: int| 0 <= k < v.deep_view().len() && v.deep_view()[k] == x@;
                assert(v.deep_view()[k] != x@);
            }
        }
    }
    false
}

fn state_clause_eval(st: &SnippetState, c: &StateClause) -> (r: bool)
    ensures
        r == state_clause_holds(st@, c.deep_view()),
{
    match c {
        StateClause::IsFavorite(b) => st.is_favorite == *b,
        StateClause::IsDark(b) => st.is_dark == *b,
    }
}

fn state_satisfies_all(st: &SnippetState, scs: &Vec<StateClause>) -> (r: bool)
    ensures
        r == state_all_hold(st@, scs.deep_view()),
{
    let mut j: usize = 0;
    while j < scs.len()
        invariant
            j <= scs@.len(),
            forall|k: int| 0 <= k < j ==> state_clause_holds(st@, #[trigger] scs.deep_view()[k]),
        decreases scs@.len() - j,
    {
        if !state_clause_eval(st, &scs[j]) {
            proof {
                assert(!state_clause_holds(st@, scs.deep_view()[j as int]));
            }
            return false;
        }
        j = j + 1;
    }
    true
}

fn state_is_eval(states: &Vec<SnippetState>, state_id: &String, scs: &Vec<StateClause>) -> (r: bool)
    ensures
        r == state_is_holds(states.deep_view(), state_id@, scs.deep_view()),
{
    let mut i: usize = 0;
    while i < states.len()
        invariant
            i <= states@.len(),
            forall|k: int|
                0 <= k < i ==> !(#[trigger] states.deep_view()[k].id == state_id@ && state_all_hold(
                    states.deep_view()[k],
                    scs.deep_view(),
                )),
        decreases states@.len() - i,
    {
        if string_eq(&states[i].id, state_id) {
            if state_satisfies_all(&states[i], scs) {
                proof {
                    let w = i as int;
                    assert(states.deep_view()[w] == states@[w]@);
                    assert(0 <= w < states.deep_view().len() && states.deep_view()[w].id
                        == state_id@ && state_all_hold(states.deep_view()[w], scs.deep_view()));
                }
                return true;
            }
        }
        proof {
            assert(states.deep_view()[i as int] == states@[i as int]@);
        }
        i = i + 1;
    }
    false
}

fn tags_some_name_in_eval(tags: &Vec<Tag>, s: &Snippet, names: &Vec<String>) -> (r: bool)
    ensures
        r == tags_some_name_in_holds(tags.deep_view(), s.tag_ids.deep_view(), names.deep_view()),
{
    let mut i: usize = 0;
    while i < tags.len()
        invariant
            i <= tags@.len(),
            forall|k: int|
                0 <= k < i ==> !(s.tag_ids.deep_view().contains(#[trigger] tags.deep_view()[k].id)
                    && names.deep_view().contains(tags.deep_view()[k].name)),
        decreases tags@.len() - i,
    {
        if vec_string_contains(&s.tag_ids, &tags[i].id) {
            if vec_string_contains(names, &tags[i].name) {
                proof {
                    let w = i as int;
                    assert(tags.deep_view()[w] == tags@[w]@);
                    assert(0 <= w < tags.deep_view().len() && s.tag_ids.deep_view().contains(
                        tags.deep_view()[w].id,
                    ) && names.deep_view().contains(tags.deep_view()[w].name));
                }
                return true;
            }
        }
        proof {
            assert(tags.deep_view()[i as int] == tags@[i as int]@);
        }
        i = i + 1;
    }
    false
}

/// Whether a snippet satisfies every clause, against the given stored
/// states and tags (executable form).
pub fn snippet_matches_exec(
    states: &Vec<SnippetState>,
    tags: &Vec<Tag>,
    s: &Snippet,
    cs: &Vec<SnippetClause>,
) -> (r: bool)
    ensures
        r == snippet_matches(states.deep_view(), tags.deep_view(), s@, cs.deep_view()),
{
    let mut i: usize = 0;
    while i < cs.len()
        invariant
            i <= cs@.len(),
            forall|k: int|
                0 <= k < i ==> snippet_clause_holds(
                    states.deep_view(),
                    tags.deep_view(),
                    s@,
                    #[trigger] cs.deep_view()[k],
                ),
        decreases cs@.len() - i,
    {
        let holds = snippet_clause_eval(states, tags, s, &cs[i]);
        if !holds {
            proof {
                assert(cs.deep_view()[i as int] == cs@[i as int].deep_view());
            }
            return false;
        }
        i = i + 1;
    }
    true
}

fn snippet_clause_eval(
    states: &Vec<SnippetState>,
    tags: &Vec<Tag>,
    s: &Snippet,
    c: &SnippetClause,
) -> (r: bool)
    ensures
        r == snippet_clause_holds(states.deep_view(), tags.deep_view(), s@, c.deep_view()),
{
    match c {
        SnippetClause::SearchAny(q) => str_contains(s.title.as_str(), q.as_str()) || str_contains(
            s.description.as_str(),
            q.as_str(),
        ) || str_contains(s.code.as_str(), q.as_str()) || str_contains(
            s.language.as_str(),
            q.as_str(),
        ),
        SnippetClause::TitleContains(q) => str_contains(s.title.as_str(), q.as_str()),
        SnippetClause::DescriptionContains(q) => str_contains(s.description.as_str(), q.as_str()),
        SnippetClause::LanguageEquals(q) => string_eq(&s.language, q),
        SnippetClause::CodeContains(q) => str_contains(s.code.as_str(), q.as_str()),
        SnippetClause::StateIs(scs) => {
            let r = state_is_eval(states, &s.snippet_state_id, scs);
            proof {
                assert(c.deep_view() == SnippetClauseView::StateIs(scs.deep_view()));
                assert(s@.snippet_state_id == s.snippet_state_id@);
            }
            r
        },
        SnippetClause::TagsSomeNameIn(names) => {
            let r = tags_some_name_in_eval(tags, s, names);
            proof {
                assert(c.deep_view() == SnippetClauseView::TagsSomeNameIn(names.deep_view()));
                assert(s@.tag_ids == s.tag_ids.deep_view());
            }
            r
        },
    }
}

} // verus!
