//! The user CRUD commands: thin compositions of the shared-handle broker,
//! the store operations and the response envelope.
use vstd::prelude::*;

use crate::error::AppError;
use crate::filters::UserClause;
use crate::filters::build_user_filters;
use crate::filters::user_clauses_spec;
use crate::filters::user_matches;
use crate::models::User;
use crate::models::UserData;
use crate::models::UserFilter;
use crate::params::GetParams;
use crate::params::ListParams;
use crate::params::PostParams;
use crate::params::PutParams;
use crate::response::IpcResponse;
use crate::state::AppState;
use crate::store::Store;

verus! {

/// What creating a user record guarantees: on success the email was free
/// and exactly the new record was appended; it fails exactly when the email
/// is already registered or the id counter is exhausted.
pub open spec fn create_user_post(
    s0: Store,
    s1: Store,
    r: Result<User, AppError>,
    email: Seq<char>,
    password_hash: Seq<char>,
) -> bool {
    &&& (r is Ok <==> !s0.has_user_email(email) && s0.next_id < u64::MAX)
    &&& (match r {
        Ok(u) => {
            &&& u@.email == email
            &&& u@.password_hash == password_hash
            &&& s1.users_v() == s0.users_v().push(u@)
            &&& s1.states_v() == s0.states_v()
            &&& s1.snippets_v() == s0.snippets_v()
            &&& s1.tags_v() == s0.tags_v()
        },
        Err(e) => {
            &&& s1.same_records(&s0)
            &&& (s0.has_user_email(email) ==> (e matches AppError::QueryError(m) && m@
                == "Email is already registered"@))
            &&& (!s0.has_user_email(email) ==> (e matches AppError::Other(m) && m@
                == "Identifier space exhausted"@))
        },
    })
}

/// Creates a user record directly from an email and an already-hashed
/// password.
pub fn create_user(state: &mut AppState, params: PostParams<UserData>) -> (r: IpcResponse<User>)
    requires
        old(state).wf(),
    ensures
        final(state).wf(),
        final(state).secret == old(state).secret,
        final(state).is_init() == old(state).is_init(),
        !old(state).is_init() ==> *final(state) == *old(state) && r.is_envelope_of(
            Err(AppError::ClientInitError),
        ),
        old(state).is_init() ==> exists|res: Result<User, AppError>|
            #[trigger] create_user_post(
                old(state).store(),
                final(state).store(),
                res,
                params.data.email@,
                params.data.password_hash@,
            ) && r.is_envelope_of(res),
{
    let data = params.data;
    let op = |store: Store| -> (out: (Store, Result<User, AppError>))
        requires
            store.wf(),
        ensures
            create_user_post(store, out.0, out.1, data.email@, data.password_hash@),
            out.0.wf(),
        {
            let mut store = store;
            let res = store.create_user(&data.email, &data.password_hash);
            (store, res)
        };
    state.handle_db_operation(op)
}

/// What a user point read guarantees: the store is untouched and the result
/// is the stored user with that id, or nothing when no user has it.
pub open spec fn get_user_post(
    s0: Store,
    s1: Store,
    r: Result<Option<User>, AppError>,
    id: Seq<char>,
) -> bool {
    &&& s1 == s0
    &&& (match r {
        Ok(opt) => match opt {
            Some(u) => u@.id == id && exists|i: int|
                0 <= i < s0.users_v().len() && #[trigger] s0.users_v()[i] == u@,
            None => !s0.has_user_id(id),
        },
        Err(_) => false,
    })
}

/// Reads one user by id.
pub fn get_user(state: &mut AppState, params: GetParams) -> (r: IpcResponse<Option<User>>)
    requires
        old(state).wf(),
    ensures
        final(state).wf(),
        final(state).secret == old(state).secret,
        final(state).is_init() == old(state).is_init(),
        !old(state).is_init() ==> *final(state) == *old(state) && r.is_envelope_of(
            Err(AppError::ClientInitError),
        ),
        old(state).is_init() ==> exists|res: Result<Option<User>, AppError>|
            #[trigger] get_user_post(old(state).store(), final(state).store(), res, params.id@)
                && r.is_envelope_of(res),
{
    let id = params.id;
    let op = |store: Store| -> (out: (Store, Result<Option<User>, AppError>))
        requires
            store.wf(),
        ensures
            get_user_post(store, out.0, out.1, id@),
            out.0.wf(),
        {
            let found = store.get_user_by_id(&id);
            (store, Ok(found))
        };
    state.handle_db_operation(op)
}

/// What a user listing guarantees: the store is untouched and the result is
/// exactly the stored users matching the lowered filter, in stored order.
pub open spec fn list_users_post(
    s0: Store,
    s1: Store,
    r: Result<Vec<User>, AppError>,
    filter: Option<UserFilter>,
) -> bool {
    &&& s1 == s0
    &&& (match r {
        Ok(us) => us.deep_view() == s0.users_v().filter(
            |u: crate::models::UserView| user_matches(u, user_clauses_spec(filter)),
        ),
        Err(_) => false,
    })
}

/// Lists the users matching an optional filter, in stored order.
pub fn list_users(state: &mut AppState, params: ListParams<UserFilter>) -> (r: IpcResponse<
    Vec<User>,
>)
    requires
        old(state).wf(),
    ensures
        final(state).wf(),
        final(state).secret == old(state).secret,
        final(state).is_init() == old(state).is_init(),
        !old(state).is_init() ==> *final(state) == *old(state) && r.is_envelope_of(
            Err(AppError::ClientInitError),
        ),
        old(state).is_init() ==> exists|res: Result<Vec<User>, AppError>|
            #[trigger] list_users_post(
                old(state).store(),
                final(state).store(),
                res,
                params.filter,
            ) && r.is_envelope_of(res),
{
    let ghost gfilter = params.filter;
    let clauses: Vec<UserClause> = build_user_filters(params.filter);
    let op = |store: Store| -> (out: (Store, Result<Vec<User>, AppError>))
        requires
            store.wf(),
        ensures
            list_users_post(store, out.0, out.1, gfilter),
            out.0.wf(),
        {
            let listed = store.list_users(&clauses);
            (store, Ok(listed))
        };
    state.handle_db_operation(op)
}

/// What a user update guarantees: on success the record with the id carries
/// the new email and hash (id kept); it fails exactly when no user has the
/// id or the new email belongs to a different user.
pub open spec fn update_user_post(
    s0: Store,
    s1: Store,
    r: Result<User, AppError>,
    id: Seq<char>,
    email: Seq<char>,
    password_hash: Seq<char>,
) -> bool {
    &&& (r is Ok <==> s0.has_user_id(id) && !s0.email_taken_by_other(email, id))
    &&& (match r {
        Ok(u) => {
            &&& u@.id == id
            &&& u@.email == email
            &&& u@.password_hash == password_hash
            &&& exists|i: int|
                0 <= i < s0.users_v().len() && #[trigger] s0.users_v()[i].id == id && s1.users_v()
                    == s0.users_v().update(i, u@)
            &&& s1.states_v() == s0.states_v()
            &&& s1.snippets_v() == s0.snippets_v()
            &&& s1.tags_v() == s0.tags_v()
        },
        Err(e) => {
            &&& s1.same_records(&s0)
            &&& (!s0.has_user_id(id) ==> (e matches AppError::NotFound(m) && m@
                == "User not found"@))
            &&& (s0.has_user_id(id) ==> (e matches AppError::QueryError(m) && m@
                == "Email is already registered"@))
        },
    })
}

/// Overwrites the email and password hash of the user with the given id.
pub fn update_user(state: &mut AppState, params: PutParams<UserData>) -> (r: IpcResponse<User>)
    requires
        old(state).wf(),
    ensures
        final(state).wf(),
        final(state).secret == old(state).secret,
        final(state).is_init() == old(state).is_init(),
        !old(state).is_init() ==> *final(state) == *old(state) && r.is_envelope_of(
            Err(AppError::ClientInitError),
        ),
        old(state).is_init() ==> exists|res: Result<User, AppError>|
            #[trigger] update_user_post(
                old(state).store(),
                final(state).store(),
                res,
                params.id@,
                params.data.email@,
                params.data.password_hash@,
            ) && r.is_envelope_of(res),
{
    let id = params.id;
    let data = params.data;
    let op = |store: Store| -> (out: (Store, Result<User, AppError>))
        requires
            store.wf(),
        ensures
            update_user_post(store, out.0, out.1, id@, data.email@, data.password_hash@),
            out.0.wf(),
        {
            let mut store = store;
            let res = store.update_user(&id, &data.email, &data.password_hash);
            (store, res)
        };
    state.handle_db_operation(op)
}

/// What a user deletion guarantees: on success exactly the record with the
/// id was removed and returned; it fails exactly when no user has the id.
pub open spec fn delete_user_post(
    s0: Store,
    s1: Store,
    r: Result<User, AppError>,
    id: Seq<char>,
) -> bool {
    &&& (r is Ok <==> s0.has_user_id(id))
    &&& (match r {
        Ok(u) => {
            &&& u@.id == id
            &&& exists|i: int|
                0 <= i < s0.users_v().len() && #[trigger] s0.users_v()[i] == u@ && s1.users_v()
                    == s0.users_v().remove(i)
            &&& s1.states_v() == s0.states_v()
            &&& s1.snippets_v() == s0.snippets_v()
            &&& s1.tags_v() == s0.tags_v()
        },
        Err(e) => s1.same_records(&s0) && (e matches AppError::NotFound(m) && m@
            == "User not found"@),
    })
}

/// Deletes the user with the given id and returns the deleted record.
pub fn delete_user(state: &mut AppState, user_id: String) -> (r: IpcResponse<User>)
    requires
        old(state).wf(),
    ensures
        final(state).wf(),
        final(state).secret == old(state).secret,
        final(state).is_init() == old(state).is_init(),
        !old(state).is_init() ==> *final(state) == *old(state) && r.is_envelope_of(
            Err(AppError::ClientInitError),
        ),
        old(state).is_init() ==> exists|res: Result<User, AppError>|
            #[trigger] delete_user_post(old(state).store(), final(state).store(), res, user_id@)
                && r.is_envelope_of(res),
{
    let op = |store: Store| -> (out: (Store, Result<User, AppError>))
        requires
            store.wf(),
        ensures
            delete_user_post(store, out.0, out.1, user_id@),
            out.0.wf(),
        {
            let mut store = store;
            let res = store.delete_user(&user_id);
            (store, res)
        };
    state.handle_db_operation(op)
}

} // verus!
