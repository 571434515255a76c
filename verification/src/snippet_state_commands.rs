//! The display-state update command that hands back the owning snippet.
//!
//! This variant first applies the partial state update, then re-reads the
//! snippet under the same id and returns it with relations expanded; it is
//! used by callers that key a snippet and its display state by one id.
use vstd::prelude::*;

use crate::error::AppError;
use crate::models::SnippetDetail;
use crate::models::SnippetStateUpdate;
use crate::params::PutParams;
use crate::response::IpcResponse;
use crate::state::AppState;
use crate::store::Store;

verus! {

/// What the combined update guarantees: the state with the id was updated
/// as in the plain state update; then, when a snippet with the same id
/// exists, the result is that snippet's expansion against the updated
/// store, and otherwise the update stands but the command reports the
/// snippet missing.
pub open spec fn update_snippet_state_full_post(
    s0: Store,
    s1: Store,
    r: Result<SnippetDetail, AppError>,
    id: Seq<char>,
    update: SnippetStateUpdate,
) -> bool {
    &&& (r is Ok <==> s0.has_state_id(id) && s0.has_snippet_id(id))
    &&& s1.users_v() == s0.users_v()
    &&& s1.snippets_v() == s0.snippets_v()
    &&& s1.tags_v() == s0.tags_v()
    &&& (!s0.has_state_id(id) ==> s1.same_records(&s0))
    &&& (s0.has_state_id(id) ==> exists|i: int|
        0 <= i < s0.states_v().len() && #[trigger] s0.states_v()[i].id == id && s1.states_v()
            == s0.states_v().update(
            i,
            crate::models::SnippetStateView {
                id: s0.states_v()[i].id,
                is_favorite: (match update.is_favorite {
                    Some(b) => b,
                    None => s0.states_v()[i].is_favorite,
                }),
                is_dark: (match update.is_dark {
                    Some(b) => b,
                    None => s0.states_v()[i].is_dark,
                }),
            },
        ))
    &&& (match r {
        Ok(d) => {
            &&& d@.snippet.id == id
            &&& exists|i: int|
                0 <= i < s1.snippets_v().len() && #[trigger] s1.snippets_v()[i] == d@.snippet
            &&& s1.is_snippet_expansion(d@.snippet, d@)
        },
        Err(e) => {
            &&& (!s0.has_state_id(id) ==> (e matches AppError::NotFound(m) && m@
                == "Snippet state not found"@))
            &&& (s0.has_state_id(id) ==> (e matches AppError::NotFound(m) && m@
                == "Updated snippet not found"@))
        },
    })
}

/// Applies a partial update to the display state with the given id, then
/// returns the snippet stored under the same id with relations expanded.
pub fn update_snippet_state(state: &mut AppState, params: PutParams<SnippetStateUpdate>) -> (r:
    IpcResponse<SnippetDetail>)
    requires
        old(state).wf(),
    ensures
        final(state).wf(),
        final(state).secret == old(state).secret,
        final(state).is_init() == old(state).is_init(),
        !old(state).is_init() ==> *final(state) == *old(state) && r.is_envelope_of(
            Err(AppError::ClientInitError),
        ),
        old(state).is_init() ==> exists|res: Result<SnippetDetail, AppError>|
            #[trigger] update_snippet_state_full_post(
                old(state).store(),
                final(state).store(),
                res,
                params.id@,
                params.data,
            ) && r.is_envelope_of(res),
{
    let id = params.id;
    let data = params.data;
    let op = |store: Store| -> (out: (Store, Result<SnippetDetail, AppError>))
        requires
            store.wf(),
        ensures
            update_snippet_state_full_post(store, out.0, out.1, id@, data),
            out.0.wf(),
        {
            let mut store = store;
            let updated_state = match store.update_snippet_state(
                &id,
                data.is_favorite,
                data.is_dark,
            ) {
                Ok(st) => st,
                Err(e) => {
                    return (store, Err(e));
                },
            };
            let snippet = match store.get_snippet_by_id(&id) {
                Some(s) => s,
                None => {
                    return (store, Err(AppError::NotFound("Updated snippet not found".to_owned())));
                },
            };
            let detail = store.expand_snippet(&snippet);
            (store, Ok(detail))
        };
    state.handle_db_operation(op)
}

} // verus!
