//! The in-memory persistence model behind the shared client handle.
//!
//! The store is the abstract repository the command layer runs against: per
//! entity it offers create / point read / filtered listing / update / delete,
//! plus relation expansion. Record ids are minted from a strictly increasing
//! counter and rendered in decimal, so they are unique by construction; user
//! emails are kept unique, as a registration backend requires.
use vstd::prelude::*;
use vstd::pervasive::VecAdditionalExecFns;

use crate::error::AppError;
use crate::models::User;
use crate::models::UserView;
use crate::models::SnippetState;
use crate::models::Snippet;
use crate::models::Tag;
use crate::text::dec_of;
use crate::text::lemma_dec_of_injective;
use crate::text::u64_to_dec_string;

verus! {

/// `id` was minted by a counter that has since reached `bound`: it is the
/// decimal form of some earlier counter value.
pub open spec fn minted(id: Seq<char>, bound: nat) -> bool {
    exists|k: nat| k < bound && id == dec_of(k)
}

/// A minted id can never equal the decimal form of the current counter.
pub proof fn lemma_minted_is_not_next(id: Seq<char>, bound: nat)
    requires
        minted(id, bound),
    ensures
        id != dec_of(bound),
{
    let k = choose|k: nat| k < bound && id == dec_of(k);
    if id == dec_of(bound) {
        lemma_dec_of_injective(k, bound);
    }
}

/// Raising the counter keeps every previously minted id minted.
pub proof fn lemma_minted_widen(id: Seq<char>, bound: nat, wider: nat)
    requires
        minted(id, bound),
        bound <= wider,
    ensures
        minted(id, wider),
{
    let k = choose|k: nat| k < bound && id == dec_of(k);
    assert(k < wider && id == dec_of(k));
}

/// Compares two strings by content.
pub fn string_eq(a: &String, b: &String) -> (r: bool)
    ensures
        r == (a@ == b@),
{
    *a == *b
}

/// The persistence-client model: one collection per entity and the id
/// counter. All commands run against one shared instance of this store.
pub struct Store {
    pub users: Vec<User>,
    pub snippet_states: Vec<SnippetState>,
    pub snippets: Vec<Snippet>,
    pub tags: Vec<Tag>,
    pub next_id: u64,
}

impl Store {
    /// The stored users, as views.
    pub open spec fn users_v(&self) -> Seq<UserView> {
        self.users.deep_view()
    }

    /// The stored snippet states, as views.
    pub open spec fn states_v(&self) -> Seq<crate::models::SnippetStateView> {
        self.snippet_states.deep_view()
    }

    /// The stored snippets, as views.
    pub open spec fn snippets_v(&self) -> Seq<crate::models::SnippetView> {
        self.snippets.deep_view()
    }

    /// The stored tags, as views.
    pub open spec fn tags_v(&self) -> Seq<crate::models::TagView> {
        self.tags.deep_view()
    }

    /// Some stored user has this email.
    pub open spec fn has_user_email(&self, email: Seq<char>) -> bool {
        exists|i: int| 0 <= i < self.users_v().len() && #[trigger] self.users_v()[i].email == email
    }

    /// Some stored user has this id.
    pub open spec fn has_user_id(&self, id: Seq<char>) -> bool {
        exists|i: int| 0 <= i < self.users_v().len() && #[trigger] self.users_v()[i].id == id
    }

    /// Every stored id was minted by the counter.
    pub open spec fn ids_minted(&self) -> bool {
        &&& forall|i: int|
            0 <= i < self.users_v().len() ==> minted(
                #[trigger] self.users_v()[i].id,
                self.next_id as nat,
            )
        &&& forall|i: int|
            0 <= i < self.states_v().len() ==> minted(
                #[trigger] self.states_v()[i].id,
                self.next_id as nat,
            )
        &&& forall|i: int|
            0 <= i < self.snippets_v().len() ==> minted(
                #[trigger] self.snippets_v()[i].id,
                self.next_id as nat,
            )
        &&& forall|i: int|
            0 <= i < self.tags_v().len() ==> minted(
                #[trigger] self.tags_v()[i].id,
                self.next_id as nat,
            )
    }

    /// Within each collection, ids are pairwise distinct.
    pub open spec fn ids_unique(&self) -> bool {
        &&& forall|i: int, j: int|
            0 <= i < j < self.users_v().len() ==> self.users_v()[i].id
                != self.users_v()[j].id
        &&& forall|i: int, j: int|
            0 <= i < j < self.states_v().len()
                ==> self.states_v()[i].id != self.states_v()[j].id
        &&& forall|i: int, j: int|
            0 <= i < j < self.snippets_v().len() ==> self.snippets_v()[i].id
                != self.snippets_v()[j].id
        &&& forall|i: int, j: int|
            0 <= i < j < self.tags_v().len() ==> self.tags_v()[i].id
                != self.tags_v()[j].id
    }

    /// User emails are pairwise distinct.
    pub open spec fn emails_unique(&self) -> bool {
        forall|i: int, j: int|
            0 <= i < j < self.users_v().len() ==> self.users_v()[i].email
                != self.users_v()[j].email
    }

    /// The store invariant, established by `new` and preserved by every
    /// operation.
    pub open spec fn wf(&self) -> bool {
        &&& self.ids_minted()
        &&& self.ids_unique()
        &&& self.emails_unique()
    }

    /// An empty store.
    pub fn new() -> (r: Store)
        ensures
            r.wf(),
            r.users_v() == Seq::<UserView>::empty(),
            r.states_v().len() == 0,
            r.snippets_v().len() == 0,
            r.tags_v().len() == 0,
    {
        let r = Store {
            users: Vec::new(),
            snippet_states: Vec::new(),
            snippets: Vec::new(),
            tags: Vec::new(),
            next_id: 0,
        };
        proof {
            assert(r.users_v() =~= Seq::<UserView>::empty());
        }
        r
    }

    /// All four collections hold the same records as in `other`.
    pub open spec fn same_records(&self, other: &Store) -> bool {
        &&& self.users_v() == other.users_v()
        &&& self.states_v() == other.states_v()
        &&& self.snippets_v() == other.snippets_v()
        &&& self.tags_v() == other.tags_v()
    }

    /// Mints a fresh id: the decimal form of the current counter value.
    fn mint_id(&mut self) -> (r: Result<String, AppError>)
        ensures
            final(self).same_records(old(self)),
            r matches Ok(id) ==> id@ == dec_of(old(self).next_id as nat) && final(self).next_id
                == old(self).next_id + 1,
            r is Err ==> final(self).next_id == old(self).next_id && old(self).next_id
                == u64::MAX,
            r matches Err(e) ==> e matches AppError::Other(m) && m@
                == "Identifier space exhausted"@,
            old(self).next_id < u64::MAX ==> r is Ok,
    {
        if self.next_id == u64::MAX {
            return Err(AppError::Other("Identifier space exhausted".to_owned()));
        }
        let id = u64_to_dec_string(self.next_id);
        self.next_id = self.next_id + 1;
        Ok(id)
    }

    /// Index of the user with this email, if any.
    fn find_user_index_by_email(&self, email: &String) -> (r: Option<usize>)
        ensures
            r matches Some(i) ==> i < self.users_v().len()
                && self.users_v()[i as int].email == email@,
            r is None ==> forall|i: int|
                0 <= i < self.users_v().len() ==> #[trigger] self.users_v()[i].email
                    != email@,
    {
        let mut i: usize = 0;
        while i < self.users.len()
            invariant
                i <= self.users@.len(),
                forall|k: int|
                    0 <= k < i ==> #[trigger] self.users_v()[k].email != email@,
            decreases self.users@.len() - i,
        {
            if string_eq(&self.users[i].email, email) {
                return Some(i);
            }
            i = i + 1;
        }
        None
    }

    /// Index of the user with this id, if any.
    fn find_user_index_by_id(&self, id: &String) -> (r: Option<usize>)
        ensures
            r matches Some(i) ==> i < self.users_v().len()
                && self.users_v()[i as int].id == id@,
            r is None ==> forall|i: int|
                0 <= i < self.users_v().len() ==> #[trigger] self.users_v()[i].id
                    != id@,
    {
        let mut i: usize = 0;
        while i < self.users.len()
            invariant
                i <= self.users@.len(),
                forall|k: int| 0 <= k < i ==> #[trigger] self.users_v()[k].id != id@,
            decreases self.users@.len() - i,
        {
            if string_eq(&self.users[i].id, id) {
                return Some(i);
            }
            i = i + 1;
        }
        None
    }

    /// The user with this email, if any (a point read, no side effects).
    pub fn find_user_by_email(&self, email: &String) -> (r: Option<User>)
        ensures
            r matches Some(u) ==> u@.email == email@ && exists|i: int|
                0 <= i < self.users_v().len() && #[trigger] self.users_v()[i]
                    == u@,
            r is None ==> forall|i: int|
                0 <= i < self.users_v().len() ==> #[trigger] self.users_v()[i].email
                    != email@,
    {
        match self.find_user_index_by_email(email) {
            Some(i) => Some(self.users[i].clone()),
            None => None,
        }
    }

    /// The user with this id, if any (a point read, no side effects).
    pub fn get_user_by_id(&self, id: &String) -> (r: Option<User>)
        ensures
            r matches Some(u) ==> u@.id == id@ && exists|i: int|
                0 <= i < self.users_v().len() && #[trigger] self.users_v()[i]
                    == u@,
            r is None ==> forall|i: int|
                0 <= i < self.users_v().len() ==> #[trigger] self.users_v()[i].id
                    != id@,
    {
        match self.find_user_index_by_id(id) {
            Some(i) => Some(self.users[i].clone()),
            None => None,
        }
    }

    /// Creates a user. Fails exactly when the email is already registered
    /// (the unique-email constraint) or the id counter is exhausted.
    pub fn create_user(&mut self, email: &String, password_hash: &String) -> (r: Result<
        User,
        AppError,
    >)
        requires
            old(self).wf(),
        ensures
            final(self).wf(),
            r is Ok <==> !old(self).has_user_email(email@) && old(self).next_id < u64::MAX,
            r matches Ok(u) ==> u@.email == email@ && u@.password_hash == password_hash@
                && final(self).users_v() == old(self).users_v().push(u@)
                && final(self).states_v() == old(self).states_v()
                && final(self).snippets_v() == old(self).snippets_v()
                && final(self).tags_v() == old(self).tags_v(),
            r is Ok ==> final(self).next_id == old(self).next_id + 1,
            r is Err ==> final(self).same_records(old(self)) && final(self).next_id == old(
                self,
            ).next_id,
            r matches Err(e) ==> (old(self).has_user_email(email@) ==> (e matches
            AppError::QueryError(m) && m@ == "Email is already registered"@)),
            r matches Err(e) ==> (!old(self).has_user_email(email@) ==> (e matches AppError::Other(
                m,
            ) && m@ == "Identifier space exhausted"@)),
    {
        if let Some(_i) = self.find_user_index_by_email(email) {
            return Err(AppError::QueryError("Email is already registered".to_owned()));
        }
        let ghost old_store = *self;
        let id = match self.mint_id() {
            Ok(id) => id,
            Err(e) => {
                return Err(e);
            },
        };
        let user = User { id, email: email.clone(), password_hash: password_hash.clone() };
        let result = user.clone();
        self.users.push(user);
        proof {
            self.lemma_wf_after_user_push(old_store);
            assert(final(self).users_v() =~= old(self).users_v().push(result@));
        }
        Ok(result)
    }

    /// Some stored user other than the one with id `id` has this email.
    pub open spec fn email_taken_by_other(&self, email: Seq<char>, id: Seq<char>) -> bool {
        exists|i: int|
            0 <= i < self.users_v().len() && #[trigger] self.users_v()[i].email == email
                && self.users_v()[i].id != id
    }

    /// Overwrites the email and password hash of the user with this id.
    /// Fails exactly when no user has the id or the new email belongs to a
    /// different user (the unique-email constraint).
    pub fn update_user(&mut self, id: &String, email: &String, password_hash: &String) -> (r:
        Result<User, AppError>)
        requires
            old(self).wf(),
        ensures
            final(self).wf(),
            r is Ok <==> old(self).has_user_id(id@) && !old(self).email_taken_by_other(email@, id@),
            r matches Ok(u) ==> u@.id == id@ && u@.email == email@ && u@.password_hash
                == password_hash@ && exists|i: int|
                0 <= i < old(self).users_v().len() && #[trigger] old(self).users_v()[i].id == id@
                    && final(self).users_v() == old(self).users_v().update(i, u@),
            r is Ok ==> final(self).states_v() == old(self).states_v() && final(self).snippets_v()
                == old(self).snippets_v() && final(self).tags_v() == old(self).tags_v(),
            r is Err ==> final(self).same_records(old(self)),
            r matches Err(e) ==> (!old(self).has_user_id(id@) ==> (e matches AppError::NotFound(m)
                && m@ == "User not found"@)),
            r matches Err(e) ==> (old(self).has_user_id(id@) ==> (e matches AppError::QueryError(m)
                && m@ == "Email is already registered"@)),
    {
        let i = match self.find_user_index_by_id(id) {
            Some(i) => i,
            None => {
                return Err(AppError::NotFound("User not found".to_owned()));
            },
        };
        match self.find_user_index_by_email(email) {
            Some(j) => {
                if j != i {
                    proof {
                        assert(self.users_v()[j as int].id != id@);
                    }
                    return Err(AppError::QueryError("Email is already registered".to_owned()));
                }
            },
            None => {},
        }
        proof {
            assert forall|k: int|
                0 <= k < self.users_v().len() && #[trigger] self.users_v()[k].email == email@
                    implies self.users_v()[k].id == id@ by {
                if self.users_v()[k].id != id@ {
                    // a second user with this email would contradict email
                    // uniqueness, given that any stored match is the target
                    assert(self.users_v()[k].email == email@);
                }
            }
        }
        let ghost prev = *self;
        let new_user = User {
            id: self.users[i].id.clone(),
            email: email.clone(),
            password_hash: password_hash.clone(),
        };
        let result = new_user.clone();
        self.users.set(i, new_user);
        proof {
            let ou = prev.users_v();
            let nu = self.users_v();
            assert(self.states_v() == prev.states_v());
            assert(self.snippets_v() == prev.snippets_v());
            assert(self.tags_v() == prev.tags_v());
            assert(self.next_id == prev.next_id);
            assert(nu =~= ou.update(i as int, result@));
            assert forall|k: int| 0 <= k < nu.len() implies #[trigger] nu[k].id == ou[k].id by {}
            assert forall|k: int|
                0 <= k < nu.len() implies minted(#[trigger] nu[k].id, self.next_id as nat) by {
                assert(minted(ou[k].id, prev.next_id as nat));
            }
            assert forall|a: int, b: int| 0 <= a < b < nu.len() implies nu[a].email
                != nu[b].email by {
                if a == i as int {
                    assert(ou[b].email != email@ || ou[b].id == id@);
                } else if b == i as int {
                    assert(ou[a].email != email@ || ou[a].id == id@);
                }
            }
        }
        Ok(result)
    }

    /// Deletes the user with this id and returns the deleted record. Fails
    /// exactly when no user has the id.
    pub fn delete_user(&mut self, id: &String) -> (r: Result<User, AppError>)
        requires
            old(self).wf(),
        ensures
            final(self).wf(),
            r is Ok <==> old(self).has_user_id(id@),
            r matches Ok(u) ==> u@.id == id@ && exists|i: int|
                0 <= i < old(self).users_v().len() && #[trigger] old(self).users_v()[i] == u@
                    && final(self).users_v() == old(self).users_v().remove(i),
            r is Ok ==> final(self).states_v() == old(self).states_v() && final(self).snippets_v()
                == old(self).snippets_v() && final(self).tags_v() == old(self).tags_v(),
            r is Err ==> final(self).same_records(old(self)),
            r matches Err(e) ==> e matches AppError::NotFound(m) && m@ == "User not found"@,
    {
        let i = match self.find_user_index_by_id(id) {
            Some(i) => i,
            None => {
                return Err(AppError::NotFound("User not found".to_owned()));
            },
        };
        let ghost prev = *self;
        let removed = self.users.remove(i);
        proof {
            let ou = prev.users_v();
            let nu = self.users_v();
            assert(self.states_v() == prev.states_v());
            assert(self.snippets_v() == prev.snippets_v());
            assert(self.tags_v() == prev.tags_v());
            assert(self.next_id == prev.next_id);
            assert(nu =~= ou.remove(i as int));
            ou.remove_ensures(i as int);
            assert forall|k: int|
                0 <= k < nu.len() implies minted(#[trigger] nu[k].id, self.next_id as nat) by {
                if k < i as int {
                    assert(nu[k] == ou[k]);
                } else {
                    assert(nu[k] == ou[k + 1]);
                }
            }
            assert forall|a: int, b: int| 0 <= a < b < nu.len() implies nu[a].id != nu[b].id
                && nu[a].email != nu[b].email by {
                let a0 = if a < i as int {
                    a
                } else {
                    a + 1
                };
                let b0 = if b < i as int {
                    b
                } else {
                    b + 1
                };
                assert(nu[a] == ou[a0]);
                assert(nu[b] == ou[b0]);
            }
        }
        Ok(removed)
    }

    /// Some stored snippet state has this id.
    pub open spec fn has_state_id(&self, id: Seq<char>) -> bool {
        exists|i: int| 0 <= i < self.states_v().len() && #[trigger] self.states_v()[i].id == id
    }

    /// Some stored snippet has this id.
    pub open spec fn has_snippet_id(&self, id: Seq<char>) -> bool {
        exists|i: int| 0 <= i < self.snippets_v().len() && #[trigger] self.snippets_v()[i].id == id
    }

    /// Some stored tag has this id.
    pub open spec fn has_tag_id(&self, id: Seq<char>) -> bool {
        exists|i: int| 0 <= i < self.tags_v().len() && #[trigger] self.tags_v()[i].id == id
    }

    fn find_state_index_by_id(&self, id: &String) -> (r: Option<usize>)
        ensures
            r matches Some(i) ==> i < self.states_v().len() && self.states_v()[i as int].id == id@,
            r is None ==> forall|i: int|
                0 <= i < self.states_v().len() ==> #[trigger] self.states_v()[i].id != id@,
    {
        let mut i: usize = 0;
        while i < self.snippet_states.len()
            invariant
                i <= self.snippet_states@.len(),
                forall|k: int| 0 <= k < i ==> #[trigger] self.states_v()[k].id != id@,
            decreases self.snippet_states@.len() - i,
        {
            if string_eq(&self.snippet_states[i].id, id) {
                return Some(i);
            }
            i = i + 1;
        }
        None
    }

    fn find_snippet_index_by_id(&self, id: &String) -> (r: Option<usize>)
        ensures
            r matches Some(i) ==> i < self.snippets_v().len() && self.snippets_v()[i as int].id
                == id@,
            r is None ==> forall|i: int|
                0 <= i < self.snippets_v().len() ==> #[trigger] self.snippets_v()[i].id != id@,
    {
        let mut i: usize = 0;
        while i < self.snippets.len()
            invariant
                i <= self.snippets@.len(),
                forall|k: int| 0 <= k < i ==> #[trigger] self.snippets_v()[k].id != id@,
            decreases self.snippets@.len() - i,
        {
            if string_eq(&self.snippets[i].id, id) {
                return Some(i);
            }
            i = i + 1;
        }
        None
    }

    fn find_tag_index_by_id(&self, id: &String) -> (r: Option<usize>)
        ensures
            r matches Some(i) ==> i < self.tags_v().len() && self.tags_v()[i as int].id == id@,
            r is None ==> forall|i: int|
                0 <= i < self.tags_v().len() ==> #[trigger] self.tags_v()[i].id != id@,
    {
        let mut i: usize = 0;
        while i < self.tags.len()
            invariant
                i <= self.tags@.len(),
                forall|k: int| 0 <= k < i ==> #[trigger] self.tags_v()[k].id != id@,
            decreases self.tags@.len() - i,
        {
            if string_eq(&self.tags[i].id, id) {
                return Some(i);
            }
            i = i + 1;
        }
        None
    }

    /// The snippet state with this id, if any.
    pub fn get_state_by_id(&self, id: &String) -> (r: Option<SnippetState>)
        ensures
            r matches Some(st) ==> st@.id == id@ && exists|i: int|
                0 <= i < self.states_v().len() && #[trigger] self.states_v()[i] == st@,
            r is None ==> !self.has_state_id(id@),
    {
        match self.find_state_index_by_id(id) {
            Some(i) => Some(self.snippet_states[i].clone()),
            None => None,
        }
    }

    /// The snippet with this id, if any.
    pub fn get_snippet_by_id(&self, id: &String) -> (r: Option<Snippet>)
        ensures
            r matches Some(s) ==> s@.id == id@ && exists|i: int|
                0 <= i < self.snippets_v().len() && #[trigger] self.snippets_v()[i] == s@,
            r is None ==> !self.has_snippet_id(id@),
    {
        match self.find_snippet_index_by_id(id) {
            Some(i) => Some(self.snippets[i].clone()),
            None => None,
        }
    }

    /// The tag with this id, if any.
    pub fn get_tag_by_id(&self, id: &String) -> (r: Option<Tag>)
        ensures
            r matches Some(t) ==> t@.id == id@ && exists|i: int|
                0 <= i < self.tags_v().len() && #[trigger] self.tags_v()[i] == t@,
            r is None ==> !self.has_tag_id(id@),
    {
        match self.find_tag_index_by_id(id) {
            Some(i) => Some(self.tags[i].clone()),
            None => None,
        }
    }

    /// Creates a snippet state with default flags. Fails only when the id
    /// counter is exhausted.
    pub fn create_snippet_state(&mut self) -> (r: Result<SnippetState, AppError>)
        requires
            old(self).wf(),
        ensures
            final(self).wf(),
            r is Ok <==> old(self).next_id < u64::MAX,
            r matches Err(e) ==> e matches AppError::Other(m) && m@
                == "Identifier space exhausted"@,
            r matches Ok(st) ==> !st@.is_favorite && !st@.is_dark && final(self).states_v() == old(self).states_v().push(st@) && final(self).users_v() == old(self).users_v() && final(self).snippets_v() == old(self).snippets_v() && final(self).tags_v() == old(self).tags_v(),
            r is Ok ==> final(self).next_id == old(self).next_id + 1,
            r is Err ==> final(self).same_records(old(self)) && final(self).next_id == old(
                self,
            ).next_id,
    {
        let ghost prev = *self;
        let id = match self.mint_id() {
            Ok(id) => id,
            Err(e) => {
                return Err(e);
            },
        };
        let state = SnippetState { id, is_favorite: false, is_dark: false };
        let result = state.clone();
        self.snippet_states.push(state);
        proof {
            let ou = prev.states_v();
            let nu = self.states_v();
            assert(nu =~= ou.push(result@));
            self.lemma_wf_after_mint(prev, 1);
        }
        Ok(result)
    }

    /// Creates a snippet from its fields. Fails only when the id counter is
    /// exhausted.
    pub fn create_snippet(
        &mut self,
        title: &String,
        description: &String,
        language: &String,
        code: &String,
        tag_ids: &Vec<String>,
        snippet_state_id: &String,
    ) -> (r: Result<Snippet, AppError>)
        requires
            old(self).wf(),
        ensures
            final(self).wf(),
            r is Ok <==> old(self).next_id < u64::MAX,
            r matches Err(e) ==> e matches AppError::Other(m) && m@
                == "Identifier space exhausted"@,
            r matches Ok(s) ==> s@.title == title@ && s@.description == description@ && s@.language
                == language@ && s@.code == code@ && s@.tag_ids == tag_ids.deep_view()
                && s@.snippet_state_id == snippet_state_id@ && final(self).snippets_v() == old(self).snippets_v().push(s@) && final(self).users_v() == old(self).users_v() && final(self).states_v() == old(self).states_v() && final(self).tags_v() == old(self).tags_v(),
            r is Ok ==> final(self).next_id == old(self).next_id + 1,
            r is Err ==> final(self).same_records(old(self)) && final(self).next_id == old(
                self,
            ).next_id,
    {
        let ghost prev = *self;
        let id = match self.mint_id() {
            Ok(id) => id,
            Err(e) => {
                return Err(e);
            },
        };
        let snippet = Snippet {
            id,
            title: title.clone(),
            description: description.clone(),
            language: language.clone(),
            code: code.clone(),
            tag_ids: crate::models::clone_string_vec(tag_ids),
            snippet_state_id: snippet_state_id.clone(),
        };
        let result = snippet.clone();
        self.snippets.push(snippet);
        proof {
            let nu = self.snippets_v();
            assert(nu =~= prev.snippets_v().push(result@));
            self.lemma_wf_after_mint(prev, 2);
        }
        Ok(result)
    }

    /// Creates a tag from its fields. Fails only when the id counter is
    /// exhausted.
    pub fn create_tag(
        &mut self,
        name: &String,
        color: &Option<String>,
        snippet_ids: &Vec<String>,
    ) -> (r: Result<Tag, AppError>)
        requires
            old(self).wf(),
        ensures
            final(self).wf(),
            r is Ok <==> old(self).next_id < u64::MAX,
            r matches Err(e) ==> e matches AppError::Other(m) && m@
                == "Identifier space exhausted"@,
            r matches Ok(t) ==> t@.name == name@ && t@.color == color.deep_view() && t@.snippet_ids
                == snippet_ids.deep_view() && final(self).tags_v() == old(self).tags_v().push(t@)
                && final(self).users_v() == old(self).users_v() && final(self).states_v() == old(self).states_v() && final(self).snippets_v() == old(self).snippets_v(),
            r is Ok ==> final(self).next_id == old(self).next_id + 1,
            r is Err ==> final(self).same_records(old(self)) && final(self).next_id == old(
                self,
            ).next_id,
    {
        let ghost prev = *self;
        let id = match self.mint_id() {
            Ok(id) => id,
            Err(e) => {
                return Err(e);
            },
        };
        let color_c = match color {
            Some(c) => Some(c.clone()),
            None => None,
        };
        let tag = Tag {
            id,
            name: name.clone(),
            color: color_c,
            snippet_ids: crate::models::clone_string_vec(snippet_ids),
        };
        let result = tag.clone();
        self.tags.push(tag);
        proof {
            let nu = self.tags_v();
            assert(nu =~= prev.tags_v().push(result@));
            self.lemma_wf_after_mint(prev, 3);
        }
        Ok(result)
    }

    /// Applies a partial update to the snippet state with this id: present
    /// flags overwrite, absent flags are kept. Fails exactly when no state
    /// has the id.
    pub fn update_snippet_state(
        &mut self,
        id: &String,
        is_favorite: Option<bool>,
        is_dark: Option<bool>,
    ) -> (r: Result<SnippetState, AppError>)
        requires
            old(self).wf(),
        ensures
            final(self).wf(),
            r is Ok <==> old(self).has_state_id(id@),
            r matches Ok(st) ==> st@.id == id@ && exists|i: int|
                0 <= i < old(self).states_v().len() && #[trigger] old(self).states_v()[i].id == id@
                    && st@.is_favorite == (match is_favorite {
                    Some(b) => b,
                    None => old(self).states_v()[i].is_favorite,
                }) && st@.is_dark == (match is_dark {
                    Some(b) => b,
                    None => old(self).states_v()[i].is_dark,
                }) && final(self).states_v() == old(self).states_v().update(i, st@),
            r is Ok ==> final(self).users_v() == old(self).users_v() && final(self).snippets_v()
                == old(self).snippets_v() && final(self).tags_v() == old(self).tags_v(),
            r is Err ==> final(self).same_records(old(self)),
            r matches Err(e) ==> e matches AppError::NotFound(m) && m@
                == "Snippet state not found"@,
    {
        let i = match self.find_state_index_by_id(id) {
            Some(i) => i,
            None => {
                return Err(AppError::NotFound("Snippet state not found".to_owned()));
            },
        };
        let ghost prev = *self;
        let new_state = SnippetState {
            id: self.snippet_states[i].id.clone(),
            is_favorite: match is_favorite {
                Some(b) => b,
                None => self.snippet_states[i].is_favorite,
            },
            is_dark: match is_dark {
                Some(b) => b,
                None => self.snippet_states[i].is_dark,
            },
        };
        let result = new_state.clone();
        self.snippet_states.set(i, new_state);
        proof {
            self.lemma_wf_after_id_keeping_update(prev, 1, i as int);
            assert(self.states_v() =~= prev.states_v().update(i as int, result@));
        }
        Ok(result)
    }

    /// Overwrites every caller-editable field of the snippet with this id.
    /// Fails exactly when no snippet has the id.
    pub fn update_snippet(&mut self, id: &String, form: &crate::models::SnippetForm) -> (r: Result<
        Snippet,
        AppError,
    >)
        requires
            old(self).wf(),
        ensures
            final(self).wf(),
            r is Ok <==> old(self).has_snippet_id(id@),
            r matches Ok(s) ==> s@.id == id@ && s@.title == form.title@ && s@.description
                == form.description@ && s@.language == form.language@ && s@.code == form.code@
                && s@.tag_ids == form.tag_ids.deep_view() && s@.snippet_state_id
                == form.snippet_state_id@ && exists|i: int|
                0 <= i < old(self).snippets_v().len() && #[trigger] old(self).snippets_v()[i].id
                    == id@ && final(self).snippets_v() == old(self).snippets_v().update(i, s@),
            r is Ok ==> final(self).users_v() == old(self).users_v() && final(self).states_v()
                == old(self).states_v() && final(self).tags_v() == old(self).tags_v(),
            r is Err ==> final(self).same_records(old(self)),
            r matches Err(e) ==> e matches AppError::NotFound(m) && m@ == "Snippet not found"@,
    {
        let i = match self.find_snippet_index_by_id(id) {
            Some(i) => i,
            None => {
                return Err(AppError::NotFound("Snippet not found".to_owned()));
            },
        };
        let ghost prev = *self;
        let new_snippet = Snippet {
            id: self.snippets[i].id.clone(),
            title: form.title.clone(),
            description: form.description.clone(),
            language: form.language.clone(),
            code: form.code.clone(),
            tag_ids: crate::models::clone_string_vec(&form.tag_ids),
            snippet_state_id: form.snippet_state_id.clone(),
        };
        let result = new_snippet.clone();
        self.snippets.set(i, new_snippet);
        proof {
            self.lemma_wf_after_id_keeping_update(prev, 2, i as int);
            assert(self.snippets_v() =~= prev.snippets_v().update(i as int, result@));
        }
        Ok(result)
    }

    /// Overwrites every caller-editable field of the tag with this id.
    /// Fails exactly when no tag has the id.
    pub fn update_tag(&mut self, id: &String, form: &crate::models::TagForm) -> (r: Result<
        Tag,
        AppError,
    >)
        requires
            old(self).wf(),
        ensures
            final(self).wf(),
            r is Ok <==> old(self).has_tag_id(id@),
            r matches Ok(t) ==> t@.id == id@ && t@.name == form.name@ && t@.color
                == form.color.deep_view() && t@.snippet_ids == form.snippet_ids.deep_view()
                && exists|i: int|
                0 <= i < old(self).tags_v().len() && #[trigger] old(self).tags_v()[i].id == id@
                    && final(self).tags_v() == old(self).tags_v().update(i, t@),
            r is Ok ==> final(self).users_v() == old(self).users_v() && final(self).states_v()
                == old(self).states_v() && final(self).snippets_v() == old(self).snippets_v(),
            r is Err ==> final(self).same_records(old(self)),
            r matches Err(e) ==> e matches AppError::NotFound(m) && m@ == "Tag not found"@,
    {
        let i = match self.find_tag_index_by_id(id) {
            Some(i) => i,
            None => {
                return Err(AppError::NotFound("Tag not found".to_owned()));
            },
        };
        let ghost prev = *self;
        let color_c = match &form.color {
            Some(c) => Some(c.clone()),
            None => None,
        };
        let new_tag = Tag {
            id: self.tags[i].id.clone(),
            name: form.name.clone(),
            color: color_c,
            snippet_ids: crate::models::clone_string_vec(&form.snippet_ids),
        };
        let result = new_tag.clone();
        self.tags.set(i, new_tag);
        proof {
            self.lemma_wf_after_id_keeping_update(prev, 3, i as int);
            assert(self.tags_v() =~= prev.tags_v().update(i as int, result@));
        }
        Ok(result)
    }

    /// Deletes the snippet with this id and returns the deleted record.
    /// Fails exactly when no snippet has the id.
    pub fn delete_snippet(&mut self, id: &String) -> (r: Result<Snippet, AppError>)
        requires
            old(self).wf(),
        ensures
            final(self).wf(),
            r is Ok <==> old(self).has_snippet_id(id@),
            r matches Ok(s) ==> s@.id == id@ && exists|i: int|
                0 <= i < old(self).snippets_v().len() && #[trigger] old(self).snippets_v()[i] == s@
                    && final(self).snippets_v() == old(self).snippets_v().remove(i),
            r is Ok ==> final(self).users_v() == old(self).users_v() && final(self).states_v()
                == old(self).states_v() && final(self).tags_v() == old(self).tags_v(),
            r is Err ==> final(self).same_records(old(self)),
            r matches Err(e) ==> e matches AppError::NotFound(m) && m@ == "Snippet not found"@,
    {
        let i = match self.find_snippet_index_by_id(id) {
            Some(i) => i,
            None => {
                return Err(AppError::NotFound("Snippet not found".to_owned()));
            },
        };
        let ghost prev = *self;
        let removed = self.snippets.remove(i);
        proof {
            assert(self.snippets_v() =~= prev.snippets_v().remove(i as int));
            self.lemma_wf_after_remove(prev, 2, i as int);
        }
        Ok(removed)
    }

    /// Deletes the tag with this id and returns the deleted record. Fails
    /// exactly when no tag has the id.
    pub fn delete_tag(&mut self, id: &String) -> (r: Result<Tag, AppError>)
        requires
            old(self).wf(),
        ensures
            final(self).wf(),
            r is Ok <==> old(self).has_tag_id(id@),
            r matches Ok(t) ==> t@.id == id@ && exists|i: int|
                0 <= i < old(self).tags_v().len() && #[trigger] old(self).tags_v()[i] == t@
                    && final(self).tags_v() == old(self).tags_v().remove(i),
            r is Ok ==> final(self).users_v() == old(self).users_v() && final(self).states_v()
                == old(self).states_v() && final(self).snippets_v() == old(self).snippets_v(),
            r is Err ==> final(self).same_records(old(self)),
            r matches Err(e) ==> e matches AppError::NotFound(m) && m@ == "Tag not found"@,
    {
        let i = match self.find_tag_index_by_id(id) {
            Some(i) => i,
            None => {
                return Err(AppError::NotFound("Tag not found".to_owned()));
            },
        };
        let ghost prev = *self;
        let removed = self.tags.remove(i);
        proof {
            assert(self.tags_v() =~= prev.tags_v().remove(i as int));
            self.lemma_wf_after_remove(prev, 3, i as int);
        }
        Ok(removed)
    }

    /// After overwriting the record at index `at` of the collection selected
    /// by `which` (1: states, 2: snippets, 3: tags) with a record carrying
    /// the same id, the invariant still holds.
    proof fn lemma_wf_after_id_keeping_update(&self, prev: Store, which: int, at: int)
        requires
            prev.wf(),
            self.next_id == prev.next_id,
            self.users_v() == prev.users_v(),
            1 <= which <= 3,
            which == 1 ==> self.states_v().len() == prev.states_v().len() && 0 <= at
                < prev.states_v().len() && (forall|i: int|
                0 <= i < prev.states_v().len() && i != at ==> #[trigger] self.states_v()[i]
                    == prev.states_v()[i]) && self.states_v()[at].id == prev.states_v()[at].id
                && self.snippets_v() == prev.snippets_v() && self.tags_v() == prev.tags_v(),
            which == 2 ==> self.snippets_v().len() == prev.snippets_v().len() && 0 <= at
                < prev.snippets_v().len() && (forall|i: int|
                0 <= i < prev.snippets_v().len() && i != at ==> #[trigger] self.snippets_v()[i]
                    == prev.snippets_v()[i]) && self.snippets_v()[at].id
                == prev.snippets_v()[at].id && self.states_v() == prev.states_v() && self.tags_v()
                == prev.tags_v(),
            which == 3 ==> self.tags_v().len() == prev.tags_v().len() && 0 <= at
                < prev.tags_v().len() && (forall|i: int|
                0 <= i < prev.tags_v().len() && i != at ==> #[trigger] self.tags_v()[i]
                    == prev.tags_v()[i]) && self.tags_v()[at].id == prev.tags_v()[at].id
                && self.states_v() == prev.states_v() && self.snippets_v() == prev.snippets_v(),
        ensures
            self.wf(),
    {
        let bound = self.next_id as nat;
        assert forall|i: int|
            0 <= i < self.states_v().len() implies minted(
            #[trigger] self.states_v()[i].id,
            bound,
        ) by {
            assert(self.states_v()[i].id == prev.states_v()[i].id);
        }
        assert forall|i: int|
            0 <= i < self.snippets_v().len() implies minted(
            #[trigger] self.snippets_v()[i].id,
            bound,
        ) by {
            assert(self.snippets_v()[i].id == prev.snippets_v()[i].id);
        }
        assert forall|i: int|
            0 <= i < self.tags_v().len() implies minted(#[trigger] self.tags_v()[i].id, bound) by {
            assert(self.tags_v()[i].id == prev.tags_v()[i].id);
        }
        assert forall|i: int, j: int|
            0 <= i < j < self.states_v().len() implies self.states_v()[i].id
            != self.states_v()[j].id by {
            assert(self.states_v()[i].id == prev.states_v()[i].id);
            assert(self.states_v()[j].id == prev.states_v()[j].id);
        }
        assert forall|i: int, j: int|
            0 <= i < j < self.snippets_v().len() implies self.snippets_v()[i].id
            != self.snippets_v()[j].id by {
            assert(self.snippets_v()[i].id == prev.snippets_v()[i].id);
            assert(self.snippets_v()[j].id == prev.snippets_v()[j].id);
        }
        assert forall|i: int, j: int|
            0 <= i < j < self.tags_v().len() implies self.tags_v()[i].id
            != self.tags_v()[j].id by {
            assert(self.tags_v()[i].id == prev.tags_v()[i].id);
            assert(self.tags_v()[j].id == prev.tags_v()[j].id);
        }
    }

    /// After removing the record at index `at` of the collection selected by
    /// `which` (2: snippets, 3: tags), the invariant still holds.
    proof fn lemma_wf_after_remove(&self, prev: Store, which: int, at: int)
        requires
            prev.wf(),
            self.next_id == prev.next_id,
            self.users_v() == prev.users_v(),
            which == 2 || which == 3,
            which == 2 ==> 0 <= at < prev.snippets_v().len() && self.snippets_v()
                == prev.snippets_v().remove(at) && self.states_v() == prev.states_v()
                && self.tags_v() == prev.tags_v(),
            which == 3 ==> 0 <= at < prev.tags_v().len() && self.tags_v() == prev.tags_v().remove(
                at,
            ) && self.states_v() == prev.states_v() && self.snippets_v() == prev.snippets_v(),
        ensures
            self.wf(),
    {
        let bound = self.next_id as nat;
        if which == 2 {
            prev.snippets_v().remove_ensures(at);
            assert forall|i: int|
                0 <= i < self.snippets_v().len() implies minted(
                #[trigger] self.snippets_v()[i].id,
                bound,
            ) by {
                if i < at {
                    assert(self.snippets_v()[i] == prev.snippets_v()[i]);
                } else {
                    assert(self.snippets_v()[i] == prev.snippets_v()[i + 1]);
                }
            }
            assert forall|i: int, j: int|
                0 <= i < j < self.snippets_v().len() implies self.snippets_v()[i].id
                != self.snippets_v()[j].id by {
                let i0 = if i < at {
                    i
                } else {
                    i + 1
                };
                let j0 = if j < at {
                    j
                } else {
                    j + 1
                };
                assert(self.snippets_v()[i] == prev.snippets_v()[i0]);
                assert(self.snippets_v()[j] == prev.snippets_v()[j0]);
            }
        } else {
            prev.tags_v().remove_ensures(at);
            assert forall|i: int|
                0 <= i < self.tags_v().len() implies minted(
                #[trigger] self.tags_v()[i].id,
                bound,
            ) by {
                if i < at {
                    assert(self.tags_v()[i] == prev.tags_v()[i]);
                } else {
                    assert(self.tags_v()[i] == prev.tags_v()[i + 1]);
                }
            }
            assert forall|i: int, j: int|
                0 <= i < j < self.tags_v().len() implies self.tags_v()[i].id
                != self.tags_v()[j].id by {
                let i0 = if i < at {
                    i
                } else {
                    i + 1
                };
                let j0 = if j < at {
                    j
                } else {
                    j + 1
                };
                assert(self.tags_v()[i] == prev.tags_v()[i0]);
                assert(self.tags_v()[j] == prev.tags_v()[j0]);
            }
        }
    }

    /// After pushing one record whose id is the decimal form of the previous
    /// counter value onto the collection selected by `which` (1: states,
    /// 2: snippets, 3: tags), the invariant still holds.
    proof fn lemma_wf_after_mint(&self, prev: Store, which: int)
        requires
            prev.wf(),
            self.next_id == prev.next_id + 1,
            self.users_v() == prev.users_v(),
            which == 1 ==> self.states_v().len() == prev.states_v().len() + 1 && (forall|i: int|
                0 <= i < prev.states_v().len() ==> #[trigger] self.states_v()[i]
                    == prev.states_v()[i]) && self.states_v().last().id == dec_of(
                prev.next_id as nat,
            ) && self.snippets_v() == prev.snippets_v() && self.tags_v() == prev.tags_v(),
            which == 2 ==> self.snippets_v().len() == prev.snippets_v().len() + 1 && (forall|i: int|
                0 <= i < prev.snippets_v().len() ==> #[trigger] self.snippets_v()[i]
                    == prev.snippets_v()[i]) && self.snippets_v().last().id == dec_of(
                prev.next_id as nat,
            ) && self.states_v() == prev.states_v() && self.tags_v() == prev.tags_v(),
            which == 3 ==> self.tags_v().len() == prev.tags_v().len() + 1 && (forall|i: int|
                0 <= i < prev.tags_v().len() ==> #[trigger] self.tags_v()[i] == prev.tags_v()[i])
                && self.tags_v().last().id == dec_of(prev.next_id as nat) && self.states_v()
                == prev.states_v() && self.snippets_v() == prev.snippets_v(),
            1 <= which <= 3,
        ensures
            self.wf(),
    {
        let old_bound = prev.next_id as nat;
        let new_bound = self.next_id as nat;
        assert forall|i: int|
            0 <= i < self.users_v().len() implies minted(
            #[trigger] self.users_v()[i].id,
            new_bound,
        ) by {
            lemma_minted_widen(self.users_v()[i].id, old_bound, new_bound);
        }
        assert forall|i: int|
            0 <= i < self.states_v().len() implies minted(
            #[trigger] self.states_v()[i].id,
            new_bound,
        ) by {
            if which == 1 && i == self.states_v().len() - 1 {
                assert(self.states_v()[i].id == dec_of(old_bound));
            } else {
                lemma_minted_widen(self.states_v()[i].id, old_bound, new_bound);
            }
        }
        assert forall|i: int|
            0 <= i < self.snippets_v().len() implies minted(
            #[trigger] self.snippets_v()[i].id,
            new_bound,
        ) by {
            if which == 2 && i == self.snippets_v().len() - 1 {
                assert(self.snippets_v()[i].id == dec_of(old_bound));
            } else {
                lemma_minted_widen(self.snippets_v()[i].id, old_bound, new_bound);
            }
        }
        assert forall|i: int|
            0 <= i < self.tags_v().len() implies minted(
            #[trigger] self.tags_v()[i].id,
            new_bound,
        ) by {
            if which == 3 && i == self.tags_v().len() - 1 {
                assert(self.tags_v()[i].id == dec_of(old_bound));
            } else {
                lemma_minted_widen(self.tags_v()[i].id, old_bound, new_bound);
            }
        }
        if which == 1 {
            assert forall|i: int, j: int|
                0 <= i < j < self.states_v().len() implies self.states_v()[i].id
                != self.states_v()[j].id by {
                if j == self.states_v().len() - 1 {
                    lemma_minted_is_not_next(self.states_v()[i].id, old_bound);
                }
            }
        }
        if which == 2 {
            assert forall|i: int, j: int|
                0 <= i < j < self.snippets_v().len() implies self.snippets_v()[i].id
                != self.snippets_v()[j].id by {
                if j == self.snippets_v().len() - 1 {
                    lemma_minted_is_not_next(self.snippets_v()[i].id, old_bound);
                }
            }
        }
        if which == 3 {
            assert forall|i: int, j: int|
                0 <= i < j < self.tags_v().len() implies self.tags_v()[i].id
                != self.tags_v()[j].id by {
                if j == self.tags_v().len() - 1 {
                    lemma_minted_is_not_next(self.tags_v()[i].id, old_bound);
                }
            }
        }
    }

    /// After pushing a user whose id is the decimal form of the previous
    /// counter value, the invariant still holds.
    proof fn lemma_wf_after_user_push(&self, prev: Store)
        requires
            prev.wf(),
            self.next_id == prev.next_id + 1,
            self.users_v().len() == prev.users_v().len() + 1,
            forall|i: int|
                0 <= i < prev.users_v().len() ==> #[trigger] self.users_v()[i]
                    == prev.users_v()[i],
            self.users_v().last().id == dec_of(prev.next_id as nat),
            forall|i: int|
                0 <= i < prev.users_v().len() ==> #[trigger] prev.users_v()[i].email
                    != self.users_v().last().email,
            self.states_v() == prev.states_v(),
            self.snippets_v() == prev.snippets_v(),
            self.tags_v() == prev.tags_v(),
        ensures
            self.wf(),
    {
        let old_bound = prev.next_id as nat;
        let new_bound = self.next_id as nat;
        let users = self.users_v();
        let n = prev.users_v().len() as int;
        assert forall|i: int| 0 <= i < users.len() implies minted(
            #[trigger] users[i].id,
            new_bound,
        ) by {
            if i < n {
                lemma_minted_widen(users[i].id, old_bound, new_bound);
            } else {
                assert(users[i].id == dec_of(old_bound));
            }
        }
        assert forall|i: int|
            0 <= i < self.states_v().len() implies minted(
            #[trigger] self.states_v()[i].id,
            new_bound,
        ) by {
            lemma_minted_widen(self.states_v()[i].id, old_bound, new_bound);
        }
        assert forall|i: int|
            0 <= i < self.snippets_v().len() implies minted(
            #[trigger] self.snippets_v()[i].id,
            new_bound,
        ) by {
            lemma_minted_widen(self.snippets_v()[i].id, old_bound, new_bound);
        }
        assert forall|i: int|
            0 <= i < self.tags_v().len() implies minted(
            #[trigger] self.tags_v()[i].id,
            new_bound,
        ) by {
            lemma_minted_widen(self.tags_v()[i].id, old_bound, new_bound);
        }
        assert forall|i: int, j: int| 0 <= i < j < users.len() implies users[i].id != users[j].id by {
            if j == n {
                lemma_minted_is_not_next(users[i].id, old_bound);
            }
        }
    }

    /// The users satisfying every clause, in stored order.
    pub fn list_users(&self, clauses: &Vec<crate::filters::UserClause>) -> (r: Vec<User>)
        ensures
            r.deep_view() == self.users_v().filter(
                |u: UserView| crate::filters::user_matches(u, clauses.deep_view()),
            ),
    {
        let ghost pred = |u: UserView| crate::filters::user_matches(u, clauses.deep_view());
        let mut r: Vec<User> = Vec::new();
        let mut i: usize = 0;
        proof {
            assert(self.users_v().take(0) =~= Seq::<UserView>::empty());
            assert(r.deep_view() =~= Seq::<UserView>::empty().filter(pred));
        }
        while i < self.users.len()
            invariant
                i <= self.users@.len(),
                pred == (|u: UserView| crate::filters::user_matches(u, clauses.deep_view())),
                r.deep_view() == self.users_v().take(i as int).filter(pred),
            decreases self.users@.len() - i,
        {
            let ghost prefix = self.users_v().take(i as int);
            let ghost x = self.users_v()[i as int];
            if crate::filters::user_matches_exec(&self.users[i], clauses) {
                let ghost old_rdv = r.deep_view();
                r.push(self.users[i].clone());
                proof {
                    assert(r.deep_view() =~= old_rdv.push(x));
                }
            }
            proof {
                prefix.lemma_filter_push(x, pred);
                assert(self.users_v().take(i + 1) =~= prefix.push(x));
            }
            i = i + 1;
        }
        proof {
            assert(self.users_v().take(self.users@.len() as int) =~= self.users_v());
        }
        r
    }

    /// The tags satisfying every clause, in stored order.
    pub fn list_tags(&self, clauses: &Vec<crate::filters::TagClause>) -> (r: Vec<Tag>)
        ensures
            r.deep_view() == self.tags_v().filter(
                |t: crate::models::TagView| crate::filters::tag_matches(t, clauses.deep_view()),
            ),
    {
        let ghost pred = |t: crate::models::TagView|
            crate::filters::tag_matches(t, clauses.deep_view());
        let mut r: Vec<Tag> = Vec::new();
        let mut i: usize = 0;
        proof {
            assert(self.tags_v().take(0) =~= Seq::<crate::models::TagView>::empty());
            assert(r.deep_view() =~= Seq::<crate::models::TagView>::empty().filter(pred));
        }
        while i < self.tags.len()
            invariant
                i <= self.tags@.len(),
                pred == (|t: crate::models::TagView|
                    crate::filters::tag_matches(t, clauses.deep_view())),
                r.deep_view() == self.tags_v().take(i as int).filter(pred),
            decreases self.tags@.len() - i,
        {
            let ghost prefix = self.tags_v().take(i as int);
            let ghost x = self.tags_v()[i as int];
            if crate::filters::tag_matches_exec(&self.tags[i], clauses) {
                let ghost old_rdv = r.deep_view();
                r.push(self.tags[i].clone());
                proof {
                    assert(r.deep_view() =~= old_rdv.push(x));
                }
            }
            proof {
                prefix.lemma_filter_push(x, pred);
                assert(self.tags_v().take(i + 1) =~= prefix.push(x));
            }
            i = i + 1;
        }
        proof {
            assert(self.tags_v().take(self.tags@.len() as int) =~= self.tags_v());
        }
        r
    }

    /// The snippets satisfying every clause, newest first (the reverse of
    /// stored order, which is creation order).
    pub fn list_snippets(&self, clauses: &Vec<crate::filters::SnippetClause>) -> (r: Vec<Snippet>)
        ensures
            r.deep_view() == self.snippets_v().filter(
                |s: crate::models::SnippetView|
                    crate::filters::snippet_matches(
                        self.states_v(),
                        self.tags_v(),
                        s,
                        clauses.deep_view(),
                    ),
            ).reverse(),
    {
        let ghost pred = |s: crate::models::SnippetView|
            crate::filters::snippet_matches(
                self.states_v(),
                self.tags_v(),
                s,
                clauses.deep_view(),
            );
        let mut r: Vec<Snippet> = Vec::new();
        let mut i: usize = self.snippets.len();
        proof {
            assert(self.snippets_v().skip(i as int) =~= Seq::<crate::models::SnippetView>::empty());
            assert(Seq::<crate::models::SnippetView>::empty().filter(pred).reverse() =~= Seq::<
                crate::models::SnippetView,
            >::empty());
            assert(r.deep_view() =~= Seq::<crate::models::SnippetView>::empty());
        }
        while i > 0
            invariant
                i <= self.snippets@.len(),
                pred == (|s: crate::models::SnippetView|
                    crate::filters::snippet_matches(
                        self.states_v(),
                        self.tags_v(),
                        s,
                        clauses.deep_view(),
                    )),
                r.deep_view() == self.snippets_v().skip(i as int).filter(pred).reverse(),
            decreases i,
        {
            i = i - 1;
            let ghost x = self.snippets_v()[i as int];
            let ghost f_old = self.snippets_v().skip(i + 1).filter(pred);
            proof {
                assert(self.snippets_v().skip(i as int) =~= seq![x] + self.snippets_v().skip(i + 1));
                Seq::<crate::models::SnippetView>::filter_distributes_over_add(
                    seq![x],
                    self.snippets_v().skip(i + 1),
                    pred,
                );
                crate::text::lemma_filter_singleton(x, pred);
            }
            if crate::filters::snippet_matches_exec(
                &self.snippet_states,
                &self.tags,
                &self.snippets[i],
                clauses,
            ) {
                let ghost old_rdv = r.deep_view();
                r.push(self.snippets[i].clone());
                proof {
                    assert(r.deep_view() =~= old_rdv.push(x));
                    let f_new = self.snippets_v().skip(i as int).filter(pred);
                    assert(f_new == seq![x] + f_old);
                    assert(f_new.reverse() =~= f_old.reverse().push(x));
                }
            } else {
                proof {
                    let f_new = self.snippets_v().skip(i as int).filter(pred);
                    assert(f_new =~= f_old);
                }
            }
        }
        proof {
            assert(self.snippets_v().skip(0) =~= self.snippets_v());
        }
        r
    }

    /// What it means for a detail record to be the relation expansion of a
    /// snippet against the stored states and tags: the referenced state when
    /// it exists, and exactly the referenced tags, in stored order.
    pub open spec fn is_snippet_expansion(&self, s: crate::models::SnippetView, d: crate::models::SnippetDetailView) -> bool {
        &&& d.snippet == s
        &&& (match d.state {
            Some(st) => st.id == s.snippet_state_id && exists|i: int|
                0 <= i < self.states_v().len() && #[trigger] self.states_v()[i] == st,
            None => forall|i: int|
                0 <= i < self.states_v().len() ==> #[trigger] self.states_v()[i].id
                    != s.snippet_state_id,
        })
        &&& d.tags == self.tags_v().filter(
            |t: crate::models::TagView| s.tag_ids.contains(t.id),
        )
    }

    /// Expands a snippet's relations: attaches the referenced display state
    /// (if stored) and the referenced tags, in stored order.
    pub fn expand_snippet(&self, s: &Snippet) -> (r: crate::models::SnippetDetail)
        ensures
            self.is_snippet_expansion(s@, r@),
    {
        let ghost sv = s@;
        let ghost pred = |t: crate::models::TagView| sv.tag_ids.contains(t.id);
        let state = self.get_state_by_id(&s.snippet_state_id);
        let mut rtags: Vec<Tag> = Vec::new();
        let mut i: usize = 0;
        proof {
            assert(self.tags_v().take(0) =~= Seq::<crate::models::TagView>::empty());
            assert(rtags.deep_view() =~= Seq::<crate::models::TagView>::empty().filter(pred));
        }
        while i < self.tags.len()
            invariant
                i <= self.tags@.len(),
                sv == s@,
                pred == (|t: crate::models::TagView| sv.tag_ids.contains(t.id)),
                rtags.deep_view() == self.tags_v().take(i as int).filter(pred),
            decreases self.tags@.len() - i,
        {
            let ghost prefix = self.tags_v().take(i as int);
            let ghost x = self.tags_v()[i as int];
            if crate::filters::vec_string_contains(&s.tag_ids, &self.tags[i].id) {
                let ghost old_rdv = rtags.deep_view();
                rtags.push(self.tags[i].clone());
                proof {
                    assert(s@.tag_ids == s.tag_ids.deep_view());
                    assert(rtags.deep_view() =~= old_rdv.push(x));
                }
            }
            proof {
                assert(s@.tag_ids == s.tag_ids.deep_view());
                assert(x.id == self.tags@[i as int].id@);
                prefix.lemma_filter_push(x, pred);
                assert(self.tags_v().take(i + 1) =~= prefix.push(x));
            }
            i = i + 1;
        }
        proof {
            assert(self.tags_v().take(self.tags@.len() as int) =~= self.tags_v());
        }
        crate::models::SnippetDetail { snippet: s.clone(), state, tags: rtags }
    }

    /// Expands every snippet of a listing, keeping the order.
    pub fn expand_snippets(&self, snips: &Vec<Snippet>) -> (r: Vec<crate::models::SnippetDetail>)
        ensures
            r.deep_view().len() == snips.deep_view().len(),
            forall|i: int|
                0 <= i < snips.deep_view().len() ==> self.is_snippet_expansion(
                    snips.deep_view()[i],
                    #[trigger] r.deep_view()[i],
                ),
    {
        let mut r: Vec<crate::models::SnippetDetail> = Vec::new();
        let mut i: usize = 0;
        while i < snips.len()
            invariant
                i <= snips@.len(),
                r.deep_view().len() == i,
                forall|k: int|
                    0 <= k < i ==> self.is_snippet_expansion(
                        snips.deep_view()[k],
                        #[trigger] r.deep_view()[k],
                    ),
            decreases snips@.len() - i,
        {
            let ghost old_r = r@;
            let ghost old_dv = r.deep_view();
            let d = self.expand_snippet(&snips[i]);
            let ghost dv = d@;
            r.push(d);
            proof {
                assert(snips.deep_view()[i as int] == snips@[i as int]@);
                assert(r.deep_view()[i as int] == dv);
                assert forall|k: int| 0 <= k < i implies #[trigger] r.deep_view()[k]
                    == old_dv[k] by {
                    assert(old_dv[k] == old_r[k]@);
                    assert(r@[k] == old_r[k]);
                }
            }
            i = i + 1;
        }
        r
    }

    /// Expands every tag of a listing, keeping the order.
    pub fn expand_tags(&self, listed: &Vec<Tag>) -> (r: Vec<crate::models::TagDetail>)
        ensures
            r.deep_view().len() == listed.deep_view().len(),
            forall|i: int|
                0 <= i < listed.deep_view().len() ==> self.is_tag_expansion(
                    listed.deep_view()[i],
                    #[trigger] r.deep_view()[i],
                ),
    {
        let mut r: Vec<crate::models::TagDetail> = Vec::new();
        let mut i: usize = 0;
        while i < listed.len()
            invariant
                i <= listed@.len(),
                r.deep_view().len() == i,
                forall|k: int|
                    0 <= k < i ==> self.is_tag_expansion(
                        listed.deep_view()[k],
                        #[trigger] r.deep_view()[k],
                    ),
            decreases listed@.len() - i,
        {
            let ghost old_r = r@;
            let ghost old_dv = r.deep_view();
            let d = self.expand_tag(&listed[i]);
            let ghost dv = d@;
            r.push(d);
            proof {
                assert(listed.deep_view()[i as int] == listed@[i as int]@);
                assert(r.deep_view()[i as int] == dv);
                assert forall|k: int| 0 <= k < i implies #[trigger] r.deep_view()[k]
                    == old_dv[k] by {
                    assert(old_dv[k] == old_r[k]@);
                    assert(r@[k] == old_r[k]);
                }
            }
            i = i + 1;
        }
        r
    }

    /// What it means for a detail record to be the relation expansion of a
    /// tag: exactly the snippets the tag references, in stored order.
    pub open spec fn is_tag_expansion(&self, t: crate::models::TagView, d: crate::models::TagDetailView) -> bool {
        &&& d.tag == t
        &&& d.snippets == self.snippets_v().filter(
            |s: crate::models::SnippetView| t.snippet_ids.contains(s.id),
        )
    }

    /// Expands a tag's relation: attaches the snippets it references, in
    /// stored order.
    pub fn expand_tag(&self, t: &Tag) -> (r: crate::models::TagDetail)
        ensures
            self.is_tag_expansion(t@, r@),
    {
        let ghost tv = t@;
        let ghost pred = |s: crate::models::SnippetView| tv.snippet_ids.contains(s.id);
        let mut rsnips: Vec<Snippet> = Vec::new();
        let mut i: usize = 0;
        proof {
            assert(self.snippets_v().take(0) =~= Seq::<crate::models::SnippetView>::empty());
            assert(rsnips.deep_view() =~= Seq::<crate::models::SnippetView>::empty().filter(pred));
        }
        while i < self.snippets.len()
            invariant
                i <= self.snippets@.len(),
                tv == t@,
                pred == (|s: crate::models::SnippetView| tv.snippet_ids.contains(s.id)),
                rsnips.deep_view() == self.snippets_v().take(i as int).filter(pred),
            decreases self.snippets@.len() - i,
        {
            let ghost prefix = self.snippets_v().take(i as int);
            let ghost x = self.snippets_v()[i as int];
            if crate::filters::vec_string_contains(&t.snippet_ids, &self.snippets[i].id) {
                let ghost old_rdv = rsnips.deep_view();
                rsnips.push(self.snippets[i].clone());
                proof {
                    assert(t@.snippet_ids == t.snippet_ids.deep_view());
                    assert(rsnips.deep_view() =~= old_rdv.push(x));
                }
            }
            proof {
                assert(t@.snippet_ids == t.snippet_ids.deep_view());
                assert(x.id == self.snippets@[i as int].id@);
                prefix.lemma_filter_push(x, pred);
                assert(self.snippets_v().take(i + 1) =~= prefix.push(x));
            }
            i = i + 1;
        }
        proof {
            assert(self.snippets_v().take(self.snippets@.len() as int) =~= self.snippets_v());
        }
        crate::models::TagDetail { tag: t.clone(), snippets: rsnips }
    }
}

} // verus!
