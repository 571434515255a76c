//! The tag CRUD commands: thin compositions of the shared-handle broker,
//! the store operations and the response envelope.
use vstd::prelude::*;

use crate::error::AppError;
use crate::filters::TagClause;
use crate::filters::build_tag_filters;
use crate::filters::tag_clauses_spec;
use crate::filters::tag_matches;
use crate::models::Tag;
use crate::models::TagDetail;
use crate::models::TagFilter;
use crate::models::TagForm;
use crate::params::DeleteParams;
use crate::params::GetParams;
use crate::params::ListParams;
use crate::params::PostParams;
use crate::params::PutParams;
use crate::response::IpcResponse;
use crate::state::AppState;
use crate::store::Store;

verus! {

/// What creating a tag guarantees: on success exactly the new record, built
/// from the form, was appended; only id-counter exhaustion fails.
pub open spec fn create_tag_post(
    s0: Store,
    s1: Store,
    r: Result<Tag, AppError>,
    form: TagForm,
) -> bool {
    &&& (r is Ok <==> s0.next_id < u64::MAX)
    &&& (match r {
        Ok(t) => {
            &&& t@.name == form.name@
            &&& t@.color == form.color.deep_view()
            &&& t@.snippet_ids == form.snippet_ids.deep_view()
            &&& s1.tags_v() == s0.tags_v().push(t@)
            &&& s1.users_v() == s0.users_v()
            &&& s1.states_v() == s0.states_v()
            &&& s1.snippets_v() == s0.snippets_v()
        },
        Err(e) => s1.same_records(&s0) && (e matches AppError::Other(m) && m@
            == "Identifier space exhausted"@),
    })
}

/// Creates a tag from the submitted form.
pub fn create_tag(state: &mut AppState, params: PostParams<TagForm>) -> (r: IpcResponse<Tag>)
    requires
        old(state).wf(),
    ensures
        final(state).wf(),
        final(state).secret == old(state).secret,
        final(state).is_init() == old(state).is_init(),
        !old(state).is_init() ==> *final(state) == *old(state) && r.is_envelope_of(
            Err(AppError::ClientInitError),
        ),
        old(state).is_init() ==> exists|res: Result<Tag, AppError>|
            #[trigger] create_tag_post(old(state).store(), final(state).store(), res, params.data)
                && r.is_envelope_of(res),
{
    let data = params.data;
    let op = |store: Store| -> (out: (Store, Result<Tag, AppError>))
        requires
            store.wf(),
        ensures
            create_tag_post(store, out.0, out.1, data),
            out.0.wf(),
        {
            let mut store = store;
            let res = store.create_tag(&data.name, &data.color, &data.snippet_ids);
            (store, res)
        };
    state.handle_db_operation(op)
}

/// What a tag point read guarantees: the store is untouched and the result
/// is the expanded stored tag with that id, or nothing when no tag has it.
pub open spec fn get_tag_post(
    s0: Store,
    s1: Store,
    r: Result<Option<TagDetail>, AppError>,
    id: Seq<char>,
) -> bool {
    &&& s1 == s0
    &&& (match r {
        Ok(opt) => match opt {
            Some(d) => {
                &&& d@.tag.id == id
                &&& exists|i: int|
                    0 <= i < s0.tags_v().len() && #[trigger] s0.tags_v()[i] == d@.tag
                &&& s0.is_tag_expansion(d@.tag, d@)
            },
            None => !s0.has_tag_id(id),
        },
        Err(_) => false,
    })
}

/// Reads one tag by id, with its referenced snippets expanded.
pub fn get_tag(state: &mut AppState, params: GetParams) -> (r: IpcResponse<Option<TagDetail>>)
    requires
        old(state).wf(),
    ensures
        final(state).wf(),
        final(state).secret == old(state).secret,
        final(state).is_init() == old(state).is_init(),
        !old(state).is_init() ==> *final(state) == *old(state) && r.is_envelope_of(
            Err(AppError::ClientInitError),
        ),
        old(state).is_init() ==> exists|res: Result<Option<TagDetail>, AppError>|
            #[trigger] get_tag_post(old(state).store(), final(state).store(), res, params.id@)
                && r.is_envelope_of(res),
{
    let id = params.id;
    let op = |store: Store| -> (out: (Store, Result<Option<TagDetail>, AppError>))
        requires
            store.wf(),
        ensures
            get_tag_post(store, out.0, out.1, id@),
            out.0.wf(),
        {
            let found = match store.get_tag_by_id(&id) {
                Some(t) => Some(store.expand_tag(&t)),
                None => None,
            };
            (store, Ok(found))
        };
    state.handle_db_operation(op)
}

/// What a tag listing guarantees: the store is untouched and the result is
/// the expansion of exactly the stored tags matching the lowered filter, in
/// stored order.
pub open spec fn list_tags_post(
    s0: Store,
    s1: Store,
    r: Result<Vec<TagDetail>, AppError>,
    filter: Option<TagFilter>,
) -> bool {
    let listed = s0.tags_v().filter(
        |t: crate::models::TagView| tag_matches(t, tag_clauses_spec(filter)),
    );
    &&& s1 == s0
    &&& (match r {
        Ok(ds) => {
            &&& ds.deep_view().len() == listed.len()
            &&& forall|i: int|
                0 <= i < listed.len() ==> (#[trigger] ds.deep_view()[i]).tag == listed[i]
                    && s0.is_tag_expansion(listed[i], ds.deep_view()[i])
        },
        Err(_) => false,
    })
}

/// Lists the tags matching an optional filter, each with its referenced
/// snippets expanded, in stored order.
pub fn list_tags(state: &mut AppState, params: ListParams<TagFilter>) -> (r: IpcResponse<
    Vec<TagDetail>,
>)
    requires
        old(state).wf(),
    ensures
        final(state).wf(),
        final(state).secret == old(state).secret,
        final(state).is_init() == old(state).is_init(),
        !old(state).is_init() ==> *final(state) == *old(state) && r.is_envelope_of(
            Err(AppError::ClientInitError),
        ),
        old(state).is_init() ==> exists|res: Result<Vec<TagDetail>, AppError>|
            #[trigger] list_tags_post(old(state).store(), final(state).store(), res, params.filter)
                && r.is_envelope_of(res),
{
    let ghost gfilter = params.filter;
    let clauses: Vec<TagClause> = build_tag_filters(params.filter);
    let op = |store: Store| -> (out: (Store, Result<Vec<TagDetail>, AppError>))
        requires
            store.wf(),
        ensures
            list_tags_post(store, out.0, out.1, gfilter),
            out.0.wf(),
        {
            let listed = store.list_tags(&clauses);
            let details = store.expand_tags(&listed);
            (store, Ok(details))
        };
    state.handle_db_operation(op)
}

/// What a tag update guarantees: on success the record with the id was
/// overwritten from the form (id kept); it fails exactly when no tag has
/// the id, leaving everything unchanged.
pub open spec fn update_tag_post(
    s0: Store,
    s1: Store,
    r: Result<Tag, AppError>,
    id: Seq<char>,
    form: TagForm,
) -> bool {
    &&& (r is Ok <==> s0.has_tag_id(id))
    &&& (match r {
        Ok(t) => {
            &&& t@.id == id
            &&& t@.name == form.name@
            &&& t@.color == form.color.deep_view()
            &&& t@.snippet_ids == form.snippet_ids.deep_view()
            &&& exists|i: int|
                0 <= i < s0.tags_v().len() && #[trigger] s0.tags_v()[i].id == id && s1.tags_v()
                    == s0.tags_v().update(i, t@)
            &&& s1.users_v() == s0.users_v()
            &&& s1.states_v() == s0.states_v()
            &&& s1.snippets_v() == s0.snippets_v()
        },
        Err(e) => s1.same_records(&s0) && (e matches AppError::NotFound(m) && m@
            == "Tag not found"@),
    })
}

/// Overwrites the tag with the given id from the submitted form.
pub fn update_tag(state: &mut AppState, params: PutParams<TagForm>) -> (r: IpcResponse<Tag>)
    requires
        old(state).wf(),
    ensures
        final(state).wf(),
        final(state).secret == old(state).secret,
        final(state).is_init() == old(state).is_init(),
        !old(state).is_init() ==> *final(state) == *old(state) && r.is_envelope_of(
            Err(AppError::ClientInitError),
        ),
        old(state).is_init() ==> exists|res: Result<Tag, AppError>|
            #[trigger] update_tag_post(
                old(state).store(),
                final(state).store(),
                res,
                params.id@,
                params.data,
            ) && r.is_envelope_of(res),
{
    let id = params.id;
    let data = params.data;
    let op = |store: Store| -> (out: (Store, Result<Tag, AppError>))
        requires
            store.wf(),
        ensures
            update_tag_post(store, out.0, out.1, id@, data),
            out.0.wf(),
        {
            let mut store = store;
            let res = store.update_tag(&id, &data);
            (store, res)
        };
    state.handle_db_operation(op)
}

/// What a tag deletion guarantees: on success exactly the record with the
/// id was removed and returned; it fails exactly when no tag has the id.
pub open spec fn delete_tag_post(
    s0: Store,
    s1: Store,
    r: Result<Tag, AppError>,
    id: Seq<char>,
) -> bool {
    &&& (r is Ok <==> s0.has_tag_id(id))
    &&& (match r {
        Ok(t) => {
            &&& t@.id == id
            &&& exists|i: int|
                0 <= i < s0.tags_v().len() && #[trigger] s0.tags_v()[i] == t@ && s1.tags_v()
                    == s0.tags_v().remove(i)
            &&& s1.users_v() == s0.users_v()
            &&& s1.states_v() == s0.states_v()
            &&& s1.snippets_v() == s0.snippets_v()
        },
        Err(e) => s1.same_records(&s0) && (e matches AppError::NotFound(m) && m@
            == "Tag not found"@),
    })
}

/// Deletes the tag with the given id and returns the deleted record.
pub fn delete_tag(state: &mut AppState, params: DeleteParams) -> (r: IpcResponse<Tag>)
    requires
        old(state).wf(),
    ensures
        final(state).wf(),
        final(state).secret == old(state).secret,
        final(state).is_init() == old(state).is_init(),
        !old(state).is_init() ==> *final(state) == *old(state) && r.is_envelope_of(
            Err(AppError::ClientInitError),
        ),
        old(state).is_init() ==> exists|res: Result<Tag, AppError>|
            #[trigger] delete_tag_post(old(state).store(), final(state).store(), res, params.id@)
                && r.is_envelope_of(res),
{
    let id = params.id;
    let op = |store: Store| -> (out: (Store, Result<Tag, AppError>))
        requires
            store.wf(),
        ensures
            delete_tag_post(store, out.0, out.1, id@),
            out.0.wf(),
        {
            let mut store = store;
            let res = store.delete_tag(&id);
            (store, res)
        };
    state.handle_db_operation(op)
}

} // verus!
