//! The snippet CRUD commands: thin compositions of the shared-handle
//! broker, the store operations, relation expansion and the response
//! envelope.
use vstd::prelude::*;

use crate::error::AppError;
use crate::filters::SnippetClause;
use crate::filters::build_snippet_filters;
use crate::filters::snippet_clauses_spec;
use crate::filters::snippet_matches;
use crate::models::Snippet;
use crate::models::SnippetDetail;
use crate::models::SnippetFilter;
use crate::models::SnippetForm;
use crate::models::SnippetState;
use crate::models::SnippetStateUpdate;
use crate::models::SnippetStateView;
use crate::models::SnippetView;
use crate::params::DeleteParams;
use crate::params::GetParams;
use crate::params::ListParams;
use crate::params::PostParams;
use crate::params::PutParams;
use crate::response::IpcResponse;
use crate::state::AppState;
use crate::store::Store;

verus! {

/// The snippet record a creation form lowers to, given the fresh ids picked
/// by the store.
pub open spec fn formed_snippet(form: SnippetForm, s: SnippetView, state_id: Seq<char>) -> bool {
    &&& s.title == form.title@
    &&& s.description == form.description@
    &&& s.language == form.language@
    &&& s.code == form.code@
    &&& s.tag_ids == form.tag_ids.deep_view()
    &&& s.snippet_state_id == state_id
}

/// What creating a snippet guarantees: two ids are minted, so creation
/// succeeds exactly when the counter has room for both. On success a fresh
/// display state with default flags and a snippet built from the form and
/// referencing it were appended, and the returned detail is the new
/// snippet's expansion. On failure the error names the exhausted counter
/// and, when the first id still fit, the already-created state record
/// stands without its snippet — per-operation atomicity only, no
/// cross-operation rollback.
pub open spec fn create_snippet_post(
    s0: Store,
    s1: Store,
    r: Result<SnippetDetail, AppError>,
    form: SnippetForm,
) -> bool {
    &&& (r is Ok <==> s0.next_id + 2 <= u64::MAX)
    &&& (match r {
        Ok(d) => {
            &&& exists|stv: SnippetStateView|
                #![all_triggers]
                {
                    &&& s1.states_v() == s0.states_v().push(stv)
                    &&& !stv.is_favorite
                    &&& !stv.is_dark
                    &&& formed_snippet(form, d@.snippet, stv.id)
                }
            &&& s1.snippets_v() == s0.snippets_v().push(d@.snippet)
            &&& s1.users_v() == s0.users_v()
            &&& s1.tags_v() == s0.tags_v()
            &&& s1.is_snippet_expansion(d@.snippet, d@)
        },
        Err(e) => {
            &&& s1.users_v() == s0.users_v()
            &&& s1.tags_v() == s0.tags_v()
            &&& s1.snippets_v() == s0.snippets_v()
            &&& (if s0.next_id == u64::MAX {
                s1.states_v() == s0.states_v()
            } else {
                exists|stv: SnippetStateView|
                    #![all_triggers]
                    {
                        &&& s1.states_v() == s0.states_v().push(stv)
                        &&& !stv.is_favorite
                        &&& !stv.is_dark
                    }
            })
            &&& (e matches AppError::Other(m) && m@ == "Identifier space exhausted"@)
        },
    })
}

/// Creates a snippet: first a fresh display state with default flags, then
/// the snippet itself built from the form and referencing that state, and
/// returns the new snippet with its relations expanded.
pub fn create_snippet(state: &mut AppState, params: PostParams<SnippetForm>) -> (r: IpcResponse<
    SnippetDetail,
>)
    requires
        old(state).wf(),
    ensures
        final(state).wf(),
        final(state).secret == old(state).secret,
        final(state).is_init() == old(state).is_init(),
        !old(state).is_init() ==> *final(state) == *old(state) && r.is_envelope_of(
            Err(AppError::ClientInitError),
        ),
        old(state).is_init() ==> exists|res: Result<SnippetDetail, AppError>|
            #[trigger] create_snippet_post(
                old(state).store(),
                final(state).store(),
                res,
                params.data,
            ) && r.is_envelope_of(res),
{
    let data = params.data;
    let op = |store: Store| -> (out: (Store, Result<SnippetDetail, AppError>))
        requires
            store.wf(),
        ensures
            create_snippet_post(store, out.0, out.1, data),
            out.0.wf(),
        {
            let mut store = store;
            let fresh_state = match store.create_snippet_state() {
                Ok(st) => st,
                Err(e) => {
                    return (store, Err(e));
                },
            };
            let snippet = match store.create_snippet(
                &data.title,
                &data.description,
                &data.language,
                &data.code,
                &data.tag_ids,
                &fresh_state.id,
            ) {
                Ok(s) => s,
                Err(e) => {
                    return (store, Err(e));
                },
            };
            let detail = store.expand_snippet(&snippet);
            (store, Ok(detail))
        };
    state.handle_db_operation(op)
}

/// What a snippet point read guarantees: the store is untouched and the
/// result is the expanded stored snippet with that id, or nothing when no
/// snippet has it.
pub open spec fn get_snippet_post(
    s0: Store,
    s1: Store,
    r: Result<Option<SnippetDetail>, AppError>,
    id: Seq<char>,
) -> bool {
    &&& s1 == s0
    &&& (match r {
        Ok(opt) => match opt {
            Some(d) => {
                &&& d@.snippet.id == id
                &&& exists|i: int|
                    0 <= i < s0.snippets_v().len() && #[trigger] s0.snippets_v()[i] == d@.snippet
                &&& s0.is_snippet_expansion(d@.snippet, d@)
            },
            None => !s0.has_snippet_id(id),
        },
        Err(_) => false,
    })
}

/// Reads one snippet by id, with its display state and tags expanded.
pub fn get_snippet(state: &mut AppState, params: GetParams) -> (r: IpcResponse<
    Option<SnippetDetail>,
>)
    requires
        old(state).wf(),
    ensures
        final(state).wf(),
        final(state).secret == old(state).secret,
        final(state).is_init() == old(state).is_init(),
        !old(state).is_init() ==> *final(state) == *old(state) && r.is_envelope_of(
            Err(AppError::ClientInitError),
        ),
        old(state).is_init() ==> exists|res: Result<Option<SnippetDetail>, AppError>|
            #[trigger] get_snippet_post(old(state).store(), final(state).store(), res, params.id@)
                && r.is_envelope_of(res),
{
    let id = params.id;
    let op = |store: Store| -> (out: (Store, Result<Option<SnippetDetail>, AppError>))
        requires
            store.wf(),
        ensures
            get_snippet_post(store, out.0, out.1, id@),
            out.0.wf(),
        {
            let found = match store.get_snippet_by_id(&id) {
                Some(s) => Some(store.expand_snippet(&s)),
                None => None,
            };
            (store, Ok(found))
        };
    state.handle_db_operation(op)
}

/// What a snippet listing guarantees: the store is untouched and the result
/// is the expansion of exactly the stored snippets matching the lowered
/// filter, newest first.
pub open spec fn list_snippets_post(
    s0: Store,
    s1: Store,
    r: Result<Vec<SnippetDetail>, AppError>,
    filter: Option<SnippetFilter>,
) -> bool {
    let listed = s0.snippets_v().filter(
        |s: SnippetView|
            snippet_matches(s0.states_v(), s0.tags_v(), s, snippet_clauses_spec(filter)),
    ).reverse();
    &&& s1 == s0
    &&& (match r {
        Ok(ds) => {
            &&& ds.deep_view().len() == listed.len()
            &&& forall|i: int|
                0 <= i < listed.len() ==> (#[trigger] ds.deep_view()[i]).snippet == listed[i]
                    && s0.is_snippet_expansion(listed[i], ds.deep_view()[i])
        },
        Err(_) => false,
    })
}

/// Lists the snippets matching an optional filter, newest first, each with
/// its display state and tags expanded.
pub fn list_snippets(state: &mut AppState, params: ListParams<SnippetFilter>) -> (r: IpcResponse<
    Vec<SnippetDetail>,
>)
    requires
        old(state).wf(),
    ensures
        final(state).wf(),
        final(state).secret == old(state).secret,
        final(state).is_init() == old(state).is_init(),
        !old(state).is_init() ==> *final(state) == *old(state) && r.is_envelope_of(
            Err(AppError::ClientInitError),
        ),
        old(state).is_init() ==> exists|res: Result<Vec<SnippetDetail>, AppError>|
            #[trigger] list_snippets_post(
                old(state).store(),
                final(state).store(),
                res,
                params.filter,
            ) && r.is_envelope_of(res),
{
    let ghost gfilter = params.filter;
    let clauses: Vec<SnippetClause> = build_snippet_filters(params.filter);
    let op = |store: Store| -> (out: (Store, Result<Vec<SnippetDetail>, AppError>))
        requires
            store.wf(),
        ensures
            list_snippets_post(store, out.0, out.1, gfilter),
            out.0.wf(),
        {
            let listed = store.list_snippets(&clauses);
            let details = store.expand_snippets(&listed);
            (store, Ok(details))
        };
    state.handle_db_operation(op)
}

/// What a snippet update guarantees: on success the record with the id was
/// overwritten from the form (id kept) and the returned detail is its
/// expansion against the updated store; it fails exactly when no snippet
/// has the id.
pub open spec fn update_snippet_post(
    s0: Store,
    s1: Store,
    r: Result<SnippetDetail, AppError>,
    id: Seq<char>,
    form: SnippetForm,
) -> bool {
    &&& (r is Ok <==> s0.has_snippet_id(id))
    &&& (match r {
        Ok(d) => {
            &&& d@.snippet.id == id
            &&& formed_snippet(form, d@.snippet, form.snippet_state_id@)
            &&& exists|i: int|
                0 <= i < s0.snippets_v().len() && #[trigger] s0.snippets_v()[i].id == id
                    && s1.snippets_v() == s0.snippets_v().update(i, d@.snippet)
            &&& s1.users_v() == s0.users_v()
            &&& s1.states_v() == s0.states_v()
            &&& s1.tags_v() == s0.tags_v()
            &&& s1.is_snippet_expansion(d@.snippet, d@)
        },
        Err(e) => s1.same_records(&s0) && (e matches AppError::NotFound(m) && m@
            == "Snippet not found"@),
    })
}

/// Overwrites the snippet with the given id from the submitted form and
/// returns it with its relations expanded.
pub fn update_snippet(state: &mut AppState, params: PutParams<SnippetForm>) -> (r: IpcResponse<
    SnippetDetail,
>)
    requires
        old(state).wf(),
    ensures
        final(state).wf(),
        final(state).secret == old(state).secret,
        final(state).is_init() == old(state).is_init(),
        !old(state).is_init() ==> *final(state) == *old(state) && r.is_envelope_of(
            Err(AppError::ClientInitError),
        ),
        old(state).is_init() ==> exists|res: Result<SnippetDetail, AppError>|
            #[trigger] update_snippet_post(
                old(state).store(),
                final(state).store(),
                res,
                params.id@,
                params.data,
            ) && r.is_envelope_of(res),
{
    let id = params.id;
    let data = params.data;
    let op = |store: Store| -> (out: (Store, Result<SnippetDetail, AppError>))
        requires
            store.wf(),
        ensures
            update_snippet_post(store, out.0, out.1, id@, data),
            out.0.wf(),
        {
            let mut store = store;
            let updated = match store.update_snippet(&id, &data) {
                Ok(s) => s,
                Err(e) => {
                    return (store, Err(e));
                },
            };
            let detail = store.expand_snippet(&updated);
            (store, Ok(detail))
        };
    state.handle_db_operation(op)
}

/// What a snippet deletion guarantees: on success exactly the record with
/// the id was removed and returned; it fails exactly when no snippet has
/// the id.
pub open spec fn delete_snippet_post(
    s0: Store,
    s1: Store,
    r: Result<Snippet, AppError>,
    id: Seq<char>,
) -> bool {
    &&& (r is Ok <==> s0.has_snippet_id(id))
    &&& (match r {
        Ok(s) => {
            &&& s@.id == id
            &&& exists|i: int|
                0 <= i < s0.snippets_v().len() && #[trigger] s0.snippets_v()[i] == s@
                    && s1.snippets_v() == s0.snippets_v().remove(i)
            &&& s1.users_v() == s0.users_v()
            &&& s1.states_v() == s0.states_v()
            &&& s1.tags_v() == s0.tags_v()
        },
        Err(e) => s1.same_records(&s0) && (e matches AppError::NotFound(m) && m@
            == "Snippet not found"@),
    })
}

/// Deletes the snippet with the given id and returns the deleted record.
pub fn delete_snippet(state: &mut AppState, params: DeleteParams) -> (r: IpcResponse<Snippet>)
    requires
        old(state).wf(),
    ensures
        final(state).wf(),
        final(state).secret == old(state).secret,
        final(state).is_init() == old(state).is_init(),
        !old(state).is_init() ==> *final(state) == *old(state) && r.is_envelope_of(
            Err(AppError::ClientInitError),
        ),
        old(state).is_init() ==> exists|res: Result<Snippet, AppError>|
            #[trigger] delete_snippet_post(
                old(state).store(),
                final(state).store(),
                res,
                params.id@,
            ) && r.is_envelope_of(res),
{
    let id = params.id;
    let op = |store: Store| -> (out: (Store, Result<Snippet, AppError>))
        requires
            store.wf(),
        ensures
            delete_snippet_post(store, out.0, out.1, id@),
            out.0.wf(),
        {
            let mut store = store;
            let res = store.delete_snippet(&id);
            (store, res)
        };
    state.handle_db_operation(op)
}

/// What a display-state update guarantees: on success the state with the id
/// carries the overwritten flags (absent fields kept, id kept); it fails
/// exactly when no state has the id.
pub open spec fn update_snippet_state_post(
    s0: Store,
    s1: Store,
    r: Result<SnippetState, AppError>,
    id: Seq<char>,
    update: SnippetStateUpdate,
) -> bool {
    &&& (r is Ok <==> s0.has_state_id(id))
    &&& (match r {
        Ok(st) => {
            &&& st@.id == id
            &&& exists|i: int|
                0 <= i < s0.states_v().len() && #[trigger] s0.states_v()[i].id == id && st@.is_favorite
                    == (match update.is_favorite {
                    Some(b) => b,
                    None => s0.states_v()[i].is_favorite,
                }) && st@.is_dark == (match update.is_dark {
                    Some(b) => b,
                    None => s0.states_v()[i].is_dark,
                }) && s1.states_v() == s0.states_v().update(i, st@)
            &&& s1.users_v() == s0.users_v()
            &&& s1.snippets_v() == s0.snippets_v()
            &&& s1.tags_v() == s0.tags_v()
        },
        Err(e) => s1.same_records(&s0) && (e matches AppError::NotFound(m) && m@
            == "Snippet state not found"@),
    })
}

/// Applies a partial update to the display state with the given id and
/// returns the updated state.
pub fn update_snippet_state(state: &mut AppState, params: PutParams<SnippetStateUpdate>) -> (r:
    IpcResponse<SnippetState>)
    requires
        old(state).wf(),
    ensures
        final(state).wf(),
        final(state).secret == old(state).secret,
        final(state).is_init() == old(state).is_init(),
        !old(state).is_init() ==> *final(state) == *old(state) && r.is_envelope_of(
            Err(AppError::ClientInitError),
        ),
        old(state).is_init() ==> exists|res: Result<SnippetState, AppError>|
            #[trigger] update_snippet_state_post(
                old(state).store(),
                final(state).store(),
                res,
                params.id@,
                params.data,
            ) && r.is_envelope_of(res),
{
    let id = params.id;
    let data = params.data;
    let op = |store: Store| -> (out: (Store, Result<SnippetState, AppError>))
        requires
            store.wf(),
        ensures
            update_snippet_state_post(store, out.0, out.1, id@, data),
            out.0.wf(),
        {
            let mut store = store;
            let res = store.update_snippet_state(&id, data.is_favorite, data.is_dark);
            (store, res)
        };
    state.handle_db_operation(op)
}

} // verus!
