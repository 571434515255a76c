use snippet_vault::error::AppError;
use snippet_vault::models::SnippetFilter;
use snippet_vault::models::SnippetForm;
use snippet_vault::models::SnippetStateUpdate;
use snippet_vault::models::TagFilter;
use snippet_vault::models::TagForm;
use snippet_vault::models::UserData;
use snippet_vault::models::UserFilter;
use snippet_vault::params::DeleteParams;
use snippet_vault::params::GetParams;
use snippet_vault::params::ListParams;
use snippet_vault::params::PostParams;
use snippet_vault::params::PutParams;
use snippet_vault::response::IpcResponse;
use snippet_vault::response::IpcStatus;
use snippet_vault::response::Response;
use snippet_vault::snippet_commands::create_snippet;
use snippet_vault::snippet_commands::delete_snippet;
use snippet_vault::snippet_commands::get_snippet;
use snippet_vault::snippet_commands::list_snippets;
use snippet_vault::snippet_commands::update_snippet;
use snippet_vault::snippet_commands::update_snippet_state;
use snippet_vault::state::AppState;
use snippet_vault::store::Store;
use snippet_vault::tag_commands::create_tag;
use snippet_vault::tag_commands::delete_tag;
use snippet_vault::tag_commands::get_tag;
use snippet_vault::tag_commands::list_tags;
use snippet_vault::tag_commands::update_tag;
use snippet_vault::user_commands::create_user;
use snippet_vault::user_commands::delete_user;
use snippet_vault::user_commands::get_user;
use snippet_vault::user_commands::list_users;
use snippet_vault::user_commands::update_user;

fn fresh_state() -> AppState {
    AppState::new(Store::new(), b"test-signing-secret".to_vec())
}

fn ok<T>(r: IpcResponse<T>) -> T {
    assert!(matches!(r.status, IpcStatus::Success));
    match r.response {
        Response::Success { result } => result.data,
        Response::Error { error } => panic!("expected success, got error: {}", error.message),
    }
}

fn err<T>(r: IpcResponse<T>) -> String {
    assert!(matches!(r.status, IpcStatus::Error));
    match r.response {
        Response::Success { .. } => panic!("expected an error envelope"),
        Response::Error { error } => error.message,
    }
}

fn snippet_form(title: &str, language: &str, code: &str) -> SnippetForm {
    SnippetForm {
        title: title.to_owned(),
        description: format!("about {}", title),
        language: language.to_owned(),
        code: code.to_owned(),
        tag_ids: vec![],
        snippet_state_id: String::new(),
    }
}

#[test]
fn command_before_bootstrap_fails_fast_with_client_init_error() {
    let mut state = AppState::uninitialized(b"test-signing-secret".to_vec());
    let msg = err(get_user(&mut state, GetParams { id: "0".to_owned() }));
    assert_eq!(msg, "Database client is not initialized");
    let msg2 = err(create_tag(
        &mut state,
        PostParams {
            data: TagForm { name: "t".to_owned(), color: None, snippet_ids: vec![] },
        },
    ));
    assert_eq!(msg2, "Database client is not initialized");
}

#[test]
fn user_crud_round_trip() {
    let mut state = fresh_state();
    let created = ok(create_user(
        &mut state,
        PostParams {
            data: UserData { email: "u@x.com".to_owned(), password_hash: "h1".to_owned() },
        },
    ));
    assert_eq!(created.email, "u@x.com");

    let fetched = ok(get_user(&mut state, GetParams { id: created.id.clone() }));
    assert_eq!(fetched.unwrap().email, "u@x.com");

    let updated = ok(update_user(
        &mut state,
        PutParams {
            id: created.id.clone(),
            data: UserData { email: "u2@x.com".to_owned(), password_hash: "h2".to_owned() },
        },
    ));
    assert_eq!(updated.email, "u2@x.com");
    assert_eq!(updated.id, created.id);

    let listed = ok(list_users(
        &mut state,
        ListParams {
            filter: Some(UserFilter { email: Some("u2".to_owned()) }),
            page: None,
            page_size: None,
        },
    ));
    assert_eq!(listed.len(), 1);
    assert_eq!(listed[0].email, "u2@x.com");

    let removed = ok(delete_user(&mut state, created.id.clone()));
    assert_eq!(removed.id, created.id);
    let gone = ok(get_user(&mut state, GetParams { id: created.id }));
    assert!(gone.is_none());
}

#[test]
fn duplicate_user_email_is_a_query_error() {
    let mut state = fresh_state();
    ok(create_user(
        &mut state,
        PostParams {
            data: UserData { email: "u@x.com".to_owned(), password_hash: "h1".to_owned() },
        },
    ));
    let msg = err(create_user(
        &mut state,
        PostParams {
            data: UserData { email: "u@x.com".to_owned(), password_hash: "h2".to_owned() },
        },
    ));
    assert_eq!(msg, "Email is already registered");
}

#[test]
fn missing_user_update_and_delete_are_not_found() {
    let mut state = fresh_state();
    let msg = err(update_user(
        &mut state,
        PutParams {
            id: "999".to_owned(),
            data: UserData { email: "u@x.com".to_owned(), password_hash: "h".to_owned() },
        },
    ));
    assert_eq!(msg, "User not found");
    let msg2 = err(delete_user(&mut state, "999".to_owned()));
    assert_eq!(msg2, "User not found");
}

#[test]
fn snippet_create_attaches_fresh_default_state() {
    let mut state = fresh_state();
    let detail = ok(create_snippet(
        &mut state,
        PostParams { data: snippet_form("hello", "rust", "fn main() {}") },
    ));
    assert_eq!(detail.snippet.title, "hello");
    let st = detail.state.expect("a fresh snippet carries its display state");
    assert_eq!(st.id, detail.snippet.snippet_state_id);
    assert!(!st.is_favorite);
    assert!(!st.is_dark);
    assert!(detail.tags.is_empty());
}

#[test]
fn snippet_listing_is_newest_first_and_honors_the_filter() {
    let mut state = fresh_state();
    ok(create_snippet(&mut state, PostParams { data: snippet_form("alpha", "rust", "a") }));
    ok(create_snippet(&mut state, PostParams { data: snippet_form("beta", "python", "b") }));
    ok(create_snippet(&mut state, PostParams { data: snippet_form("gamma", "rust", "c") }));

    let all = ok(list_snippets(
        &mut state,
        ListParams { filter: None, page: None, page_size: None },
    ));
    let titles: Vec<String> = all.iter().map(|d| d.snippet.title.clone()).collect();
    assert_eq!(titles, vec!["gamma".to_owned(), "beta".to_owned(), "alpha".to_owned()]);

    let rust_only = ok(list_snippets(
        &mut state,
        ListParams {
            filter: Some(SnippetFilter {
                search: None,
                title: None,
                description: None,
                language: Some("rust".to_owned()),
                code: None,
                state: None,
                tags: None,
            }),
            page: None,
            page_size: None,
        },
    ));
    let rust_titles: Vec<String> = rust_only.iter().map(|d| d.snippet.title.clone()).collect();
    assert_eq!(rust_titles, vec!["gamma".to_owned(), "alpha".to_owned()]);
}

#[test]
fn snippet_free_text_search_scans_all_text_fields() {
    let mut state = fresh_state();
    ok(create_snippet(&mut state, PostParams { data: snippet_form("sorting", "rust", "quick") }));
    ok(create_snippet(&mut state, PostParams { data: snippet_form("parsing", "rust", "nom") }));

    let hits = ok(list_snippets(
        &mut state,
        ListParams {
            filter: Some(SnippetFilter {
                search: Some("quick".to_owned()),
                title: None,
                description: None,
                language: None,
                code: None,
                state: None,
                tags: None,
            }),
            page: None,
            page_size: None,
        },
    ));
    assert_eq!(hits.len(), 1);
    assert_eq!(hits[0].snippet.title, "sorting");
}

#[test]
fn snippet_update_and_delete_round_trip() {
    let mut state = fresh_state();
    let created = ok(create_snippet(
        &mut state,
        PostParams { data: snippet_form("draft", "rust", "x") },
    ));
    let id = created.snippet.id.clone();

    let mut form = snippet_form("final", "rust", "y");
    form.snippet_state_id = created.snippet.snippet_state_id.clone();
    let updated = ok(update_snippet(&mut state, PutParams { id: id.clone(), data: form }));
    assert_eq!(updated.snippet.title, "final");
    assert_eq!(updated.snippet.id, id);

    let removed = ok(delete_snippet(&mut state, DeleteParams { id: id.clone() }));
    assert_eq!(removed.id, id);
    let gone = ok(get_snippet(&mut state, GetParams { id: id.clone() }));
    assert!(gone.is_none());
    let msg = err(delete_snippet(&mut state, DeleteParams { id }));
    assert_eq!(msg, "Snippet not found");
}

#[test]
fn display_state_partial_update_keeps_absent_flags() {
    let mut state = fresh_state();
    let created = ok(create_snippet(
        &mut state,
        PostParams { data: snippet_form("styled", "rust", "z") },
    ));
    let state_id = created.snippet.snippet_state_id.clone();

    let st = ok(update_snippet_state(
        &mut state,
        PutParams {
            id: state_id.clone(),
            data: SnippetStateUpdate { is_favorite: Some(true), is_dark: None },
        },
    ));
    assert!(st.is_favorite);
    assert!(!st.is_dark);

    let st2 = ok(update_snippet_state(
        &mut state,
        PutParams {
            id: state_id,
            data: SnippetStateUpdate { is_favorite: None, is_dark: Some(true) },
        },
    ));
    assert!(st2.is_favorite);
    assert!(st2.is_dark);
}

#[test]
fn tag_crud_and_listing_round_trip() {
    let mut state = fresh_state();
    let created = ok(create_tag(
        &mut state,
        PostParams {
            data: TagForm {
                name: "algorithms".to_owned(),
                color: Some("#ff0000".to_owned()),
                snippet_ids: vec![],
            },
        },
    ));
    assert_eq!(created.name, "algorithms");

    let fetched = ok(get_tag(&mut state, GetParams { id: created.id.clone() }));
    let detail = fetched.expect("the created tag is readable");
    assert_eq!(detail.tag.name, "algorithms");
    assert!(detail.snippets.is_empty());

    let listed = ok(list_tags(
        &mut state,
        ListParams {
            filter: Some(TagFilter { name: Some("algo".to_owned()) }),
            page: None,
            page_size: None,
        },
    ));
    assert_eq!(listed.len(), 1);

    let updated = ok(update_tag(
        &mut state,
        PutParams {
            id: created.id.clone(),
            data: TagForm { name: "data-structures".to_owned(), color: None, snippet_ids: vec![] },
        },
    ));
    assert_eq!(updated.name, "data-structures");

    let removed = ok(delete_tag(&mut state, DeleteParams { id: created.id.clone() }));
    assert_eq!(removed.id, created.id);
    let msg = err(update_tag(
        &mut state,
        PutParams {
            id: created.id,
            data: TagForm { name: "x".to_owned(), color: None, snippet_ids: vec![] },
        },
    ));
    assert_eq!(msg, "Tag not found");
}

#[test]
fn tag_relation_expansion_attaches_referenced_snippets() {
    let mut state = fresh_state();
    let s1 = ok(create_snippet(&mut state, PostParams { data: snippet_form("one", "rust", "1") }));
    ok(create_snippet(&mut state, PostParams { data: snippet_form("two", "rust", "2") }));
    let tag = ok(create_tag(
        &mut state,
        PostParams {
            data: TagForm {
                name: "picked".to_owned(),
                color: None,
                snippet_ids: vec![s1.snippet.id.clone()],
            },
        },
    ));
    let detail = ok(get_tag(&mut state, GetParams { id: tag.id })).unwrap();
    assert_eq!(detail.snippets.len(), 1);
    assert_eq!(detail.snippets[0].title, "one");
}

#[test]
fn snippet_filter_on_display_state_flags() {
    let mut state = fresh_state();
    let first = ok(create_snippet(&mut state, PostParams { data: snippet_form("fav", "rust", "1") }));
    ok(create_snippet(&mut state, PostParams { data: snippet_form("plain", "rust", "2") }));
    ok(update_snippet_state(
        &mut state,
        PutParams {
            id: first.snippet.snippet_state_id.clone(),
            data: SnippetStateUpdate { is_favorite: Some(true), is_dark: None },
        },
    ));

    let favorites = ok(list_snippets(
        &mut state,
        ListParams {
            filter: Some(SnippetFilter {
                search: None,
                title: None,
                description: None,
                language: None,
                code: None,
                state: Some(SnippetStateUpdate { is_favorite: Some(true), is_dark: None }),
                tags: None,
            }),
            page: None,
            page_size: None,
        },
    ));
    assert_eq!(favorites.len(), 1);
    assert_eq!(favorites[0].snippet.title, "fav");
}

#[test]
fn snippet_filter_on_tag_names() {
    let mut state = fresh_state();
    let tagged = ok(create_snippet(
        &mut state,
        PostParams { data: snippet_form("tagged", "rust", "1") },
    ));
    ok(create_snippet(&mut state, PostParams { data: snippet_form("untagged", "rust", "2") }));
    let tag = ok(create_tag(
        &mut state,
        PostParams {
            data: TagForm { name: "handy".to_owned(), color: None, snippet_ids: vec![] },
        },
    ));

    let mut form = snippet_form("tagged", "rust", "1");
    form.tag_ids = vec![tag.id.clone()];
    form.snippet_state_id = tagged.snippet.snippet_state_id.clone();
    ok(update_snippet(&mut state, PutParams { id: tagged.snippet.id.clone(), data: form }));

    let hits = ok(list_snippets(
        &mut state,
        ListParams {
            filter: Some(SnippetFilter {
                search: None,
                title: None,
                description: None,
                language: None,
                code: None,
                state: None,
                tags: Some(vec!["handy".to_owned()]),
            }),
            page: None,
            page_size: None,
        },
    ));
    assert_eq!(hits.len(), 1);
    assert_eq!(hits[0].snippet.title, "tagged");
    assert_eq!(hits[0].tags.len(), 1);
    assert_eq!(hits[0].tags[0].name, "handy");
}

#[test]
fn user_update_cannot_steal_an_email() {
    let mut state = fresh_state();
    let first = ok(create_user(
        &mut state,
        PostParams {
            data: UserData { email: "one@x.com".to_owned(), password_hash: "h1".to_owned() },
        },
    ));
    ok(create_user(
        &mut state,
        PostParams {
            data: UserData { email: "two@x.com".to_owned(), password_hash: "h2".to_owned() },
        },
    ));
    let msg = err(update_user(
        &mut state,
        PutParams {
            id: first.id,
            data: UserData { email: "two@x.com".to_owned(), password_hash: "h3".to_owned() },
        },
    ));
    assert_eq!(msg, "Email is already registered");
}

#[test]
fn interleaved_reads_and_an_update_leave_the_handle_usable() {
    let mut state = fresh_state();
    let created = ok(create_snippet(
        &mut state,
        PostParams { data: snippet_form("shared", "rust", "s") },
    ));
    let id = created.snippet.id.clone();

    for round in 0..8 {
        let read = ok(get_snippet(&mut state, GetParams { id: id.clone() }));
        assert!(read.is_some());
        if round == 3 {
            let mut form = snippet_form("shared-updated", "rust", "s2");
            form.snippet_state_id = created.snippet.snippet_state_id.clone();
            ok(update_snippet(&mut state, PutParams { id: id.clone(), data: form }));
        }
    }
    let after = ok(get_snippet(&mut state, GetParams { id })).unwrap();
    assert_eq!(after.snippet.title, "shared-updated");
    let still_listed = ok(list_snippets(
        &mut state,
        ListParams { filter: None, page: None, page_size: None },
    ));
    assert_eq!(still_listed.len(), 1);
}

#[test]
fn unknown_error_kind_never_escapes_the_envelope() {
    let r: IpcResponse<u8> = IpcResponse::from_result(Err(AppError::Other("boom".to_owned())));
    assert!(matches!(r.status, IpcStatus::Error));
}
