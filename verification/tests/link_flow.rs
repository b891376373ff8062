use url_shortener::config::Secrets;
use url_shortener::create_url::{create_url_handler, ApiError as CreateError, CreateLinkInput};
use url_shortener::delete_url::{delete_url_handler, ApiError as DeleteError};
use url_shortener::get_url::{get_url_handler, ApiError as GetError};
use url_shortener::get_url_list::{get_url_list_handler, Pagination};
use url_shortener::me::me_handler;
use url_shortener::register::{register_handler, RegisterUserInput};
use url_shortener::response::{ApiResponseData, ApiResponseError};
use url_shortener::store::Store;
use url_shortener::update_url::{update_url_handler, ApiError as UpdateError, UpdateLinkInput};

const NOW: i64 = 1_700_000_000;

fn secrets() -> Secrets {
    Secrets {
        hash_secret: String::from("hash_secret"),
        jwt_secret: String::from("jwt_secret"),
    }
}

fn store_with_two_accounts() -> Store {
    let mut store = Store::new();
    let s = secrets();
    let alice = RegisterUserInput {
        username: String::from("alice_01"),
        email: String::from("alice@example.com"),
        password: String::from("secret123"),
    };
    let bob = RegisterUserInput {
        username: String::from("bob_0123"),
        email: String::from("bob@example.com"),
        password: String::from("secret456"),
    };
    register_handler(&mut store, &s, &alice, NOW).unwrap();
    register_handler(&mut store, &s, &bob, NOW).unwrap();
    store
}

fn link_input(name: &str, slug: &str, redirect_to: &str) -> CreateLinkInput {
    CreateLinkInput {
        name: String::from(name),
        slug: String::from(slug),
        redirect_to: String::from(redirect_to),
    }
}

#[test]
fn create_link_handler_with_success() {
    let mut store = store_with_two_accounts();
    let input = link_input("link_name", "link_slug", "http://google.com");
    let resp = create_url_handler(&mut store, 1, &input, NOW).unwrap();
    assert_eq!(resp.link.owner_id, 1);
    assert_eq!(resp.link.name, "link_name");
    assert_eq!(resp.link.slug, "link_slug");
    assert_eq!(resp.link.redirect_to, "http://google.com");
    assert_eq!(resp.link.created_at, NOW);
    assert_eq!(resp.link.updated_at, None);
    assert_eq!(resp.link.deleted_at, None);
}

#[test]
fn create_link_strips_spaces_from_slug() {
    let mut store = store_with_two_accounts();
    let input = link_input("link_name", "a b c d e", "http://google.com");
    let resp = create_url_handler(&mut store, 1, &input, NOW).unwrap();
    assert_eq!(resp.link.slug, "abcde");
}

#[test]
fn create_link_handler_with_bad_client_data() {
    let mut store = store_with_two_accounts();
    let input = link_input("link_name", "link_slug", "bad url");
    let err = create_url_handler(&mut store, 1, &input, NOW).unwrap_err();
    match err {
        CreateError::BadClientData(e) => {
            let fields = e.fields.unwrap();
            assert_eq!(fields.len(), 1);
            assert_eq!(fields[0].field, "redirect_to");
            assert_eq!(fields[0].message, "invalid url");
        },
        _ => panic!("expected BadClientData"),
    }
    // And the envelope it maps to: 400, message, structured detail.
    let input2 = link_input("abc", "ab", "bad url");
    let err2 = create_url_handler(&mut store, 1, &input2, NOW).unwrap_err();
    match err2.into_api_response() {
        ApiResponseData::Error { error, status } => {
            assert_eq!(status, 400);
            match error {
                ApiResponseError::Complicated { message, error } => {
                    assert_eq!(message, "invalid data from client");
                    let fields = error.fields.unwrap();
                    assert_eq!(fields.len(), 3);
                    assert_eq!(fields[0].field, "name");
                    assert_eq!(fields[0].message, "invalid length");
                    assert_eq!(fields[1].field, "slug");
                    assert_eq!(fields[1].message, "invalid length");
                    assert_eq!(fields[2].field, "redirect_to");
                    assert_eq!(fields[2].message, "invalid url");
                },
                _ => panic!("expected structured detail"),
            }
        },
        _ => panic!("expected an error response"),
    }
}

#[test]
fn create_duplicate_slug_then_reuse_after_soft_delete() {
    let mut store = store_with_two_accounts();
    let first = link_input("link_name", "link_slug", "http://google.com");
    let created = create_url_handler(&mut store, 1, &first, NOW).unwrap();

    // A second link under the same slug (and another name) is refused.
    let second = link_input("other_name", "link_slug", "http://google.com");
    let err = create_url_handler(&mut store, 1, &second, NOW + 1).unwrap_err();
    assert!(matches!(err, CreateError::LinkExist));
    match err.into_api_response() {
        ApiResponseData::Error { error, status } => {
            assert_eq!(status, 400);
            match error {
                ApiResponseError::Simple(m) => {
                    assert_eq!(m, "link with the name or slug provided already exists")
                },
                _ => panic!("expected a simple error"),
            }
        },
        _ => panic!("expected an error response"),
    }

    // Soft-deleting the first frees its name and slug for reuse.
    delete_url_handler(&mut store, 1, created.link.id, NOW + 2).unwrap();
    let again = create_url_handler(&mut store, 1, &second, NOW + 3).unwrap();
    assert_eq!(again.link.slug, "link_slug");
    let reuse_name = link_input("link_name", "fresh_slug", "http://google.com");
    create_url_handler(&mut store, 1, &reuse_name, NOW + 4).unwrap();
}

#[test]
fn delete_link_handler_with_success_and_idempotence() {
    let mut store = store_with_two_accounts();
    let input = link_input("link_name", "link_slug", "http://google.com");
    let created = create_url_handler(&mut store, 1, &input, NOW).unwrap();
    let id = created.link.id;

    delete_url_handler(&mut store, 1, id, NOW + 10).unwrap();
    assert_eq!(store.links[0].deleted_at, Some(NOW + 10));

    // Deleting again succeeds and refreshes the deletion stamp.
    delete_url_handler(&mut store, 1, id, NOW + 20).unwrap();
    assert_eq!(store.links[0].deleted_at, Some(NOW + 20));
}

#[test]
fn get_one_link_handler_with_success() {
    let mut store = store_with_two_accounts();
    let input = link_input("link_name", "link_slug", "http://google.com");
    let created = create_url_handler(&mut store, 1, &input, NOW).unwrap();
    let got = get_url_handler(&store, 1, created.link.id).unwrap();
    assert_eq!(got.link.id, created.link.id);
    assert_eq!(got.link.name, "link_name");
    assert_eq!(got.link.owner_id, 1);
}

#[test]
fn get_deleted_link_is_not_found() {
    let mut store = store_with_two_accounts();
    let input = link_input("link_name", "link_slug", "http://google.com");
    let created = create_url_handler(&mut store, 1, &input, NOW).unwrap();
    delete_url_handler(&mut store, 1, created.link.id, NOW + 1).unwrap();
    let err = get_url_handler(&store, 1, created.link.id).unwrap_err();
    assert_eq!(err, GetError::LinkNotFound);
    match err.into_response_data() {
        ApiResponseData::Error { error, status } => {
            assert_eq!(status, 404);
            match error {
                ApiResponseError::Simple(m) => assert_eq!(m, "link not found"),
                _ => panic!("expected a simple error"),
            }
        },
        _ => panic!("expected an error response"),
    }
}

#[test]
fn non_owner_always_sees_forbidden_never_not_found() {
    let mut store = store_with_two_accounts();
    let input = link_input("link_name", "link_slug", "http://google.com");
    let created = create_url_handler(&mut store, 1, &input, NOW).unwrap();
    let id = created.link.id;

    // Bob (account 2) does not own the link: every access path answers
    // Forbidden, never NotFound.
    assert_eq!(get_url_handler(&store, 2, id).unwrap_err(), GetError::ForbiddenRequest);
    let update = UpdateLinkInput { name: None, slug: None, redirect_to: None };
    assert!(matches!(
        update_url_handler(&mut store, 2, id, &update, NOW + 1).unwrap_err(),
        UpdateError::ForbiddenUpdate
    ));
    assert_eq!(
        delete_url_handler(&mut store, 2, id, NOW + 1).unwrap_err(),
        DeleteError::ForbiddenDelete
    );
    // The link is untouched.
    assert_eq!(store.links[0].deleted_at, None);
    assert_eq!(store.links[0].name, "link_name");
}

#[test]
fn update_link_handler_with_success() {
    let mut store = store_with_two_accounts();
    let input = link_input("link_name", "link_slug", "http://google.com");
    let created = create_url_handler(&mut store, 1, &input, NOW).unwrap();
    let update = UpdateLinkInput {
        name: Some(String::from("updated_name")),
        slug: Some(String::from("updated_slug")),
        redirect_to: Some(String::from("https://google.com")),
    };
    let resp = update_url_handler(&mut store, 1, created.link.id, &update, NOW + 5).unwrap();
    assert_eq!(resp.link.owner_id, 1);
    assert_eq!(resp.link.name, "updated_name");
    assert_eq!(resp.link.slug, "updated_slug");
    assert_eq!(resp.link.redirect_to, "https://google.com");
    assert_eq!(resp.link.updated_at, Some(NOW + 5));
    assert_eq!(resp.link.created_at, NOW);
}

#[test]
fn update_applies_only_present_fields() {
    let mut store = store_with_two_accounts();
    let input = link_input("link_name", "link_slug", "http://google.com");
    let created = create_url_handler(&mut store, 1, &input, NOW).unwrap();
    let update = UpdateLinkInput {
        name: Some(String::from("new_name")),
        slug: None,
        redirect_to: None,
    };
    let resp = update_url_handler(&mut store, 1, created.link.id, &update, NOW + 5).unwrap();
    assert_eq!(resp.link.name, "new_name");
    assert_eq!(resp.link.slug, "link_slug");
    assert_eq!(resp.link.redirect_to, "http://google.com");
}

#[test]
fn update_validates_present_fields() {
    let mut store = store_with_two_accounts();
    let input = link_input("link_name", "link_slug", "http://google.com");
    let created = create_url_handler(&mut store, 1, &input, NOW).unwrap();
    let update = UpdateLinkInput {
        name: None,
        slug: Some(String::from("ab")),
        redirect_to: None,
    };
    let err = update_url_handler(&mut store, 1, created.link.id, &update, NOW).unwrap_err();
    match err {
        UpdateError::BadClientData(e) => {
            let fields = e.fields.unwrap();
            assert_eq!(fields.len(), 1);
            assert_eq!(fields[0].field, "slug");
            assert_eq!(fields[0].message, "invalid length");
        },
        _ => panic!("expected BadClientData"),
    }
}

#[test]
fn update_into_anothers_slug_hits_the_unique_index() {
    let mut store = store_with_two_accounts();
    let a = link_input("first_name", "first_slug", "http://google.com");
    let b = link_input("other_name", "other_slug", "http://google.com");
    create_url_handler(&mut store, 1, &a, NOW).unwrap();
    let second = create_url_handler(&mut store, 1, &b, NOW + 1).unwrap();
    let update = UpdateLinkInput {
        name: None,
        slug: Some(String::from("first_slug")),
        redirect_to: None,
    };
    let err = update_url_handler(&mut store, 1, second.link.id, &update, NOW + 2).unwrap_err();
    assert!(matches!(err, UpdateError::DBInternalError));
}

#[test]
fn update_deleted_link_is_not_found() {
    let mut store = store_with_two_accounts();
    let input = link_input("link_name", "link_slug", "http://google.com");
    let created = create_url_handler(&mut store, 1, &input, NOW).unwrap();
    delete_url_handler(&mut store, 1, created.link.id, NOW + 1).unwrap();
    let update = UpdateLinkInput { name: None, slug: None, redirect_to: None };
    assert!(matches!(
        update_url_handler(&mut store, 1, created.link.id, &update, NOW + 2).unwrap_err(),
        UpdateError::LinkNotFound
    ));
}

#[test]
fn get_links_handler_with_success() {
    let mut store = store_with_two_accounts();
    for (i, (name, slug)) in [
        ("name_one", "slug_one"),
        ("name_two", "slug_two"),
        ("name_three", "slug_three"),
    ]
    .iter()
    .enumerate()
    {
        let input = link_input(name, slug, "http://google.com");
        create_url_handler(&mut store, 1, &input, NOW + i as i64).unwrap();
    }
    // Newest first.
    let all = get_url_list_handler(&store, 1, None).unwrap();
    assert_eq!(all.links.len(), 3);
    assert_eq!(all.links[0].name, "name_three");
    assert_eq!(all.links[1].name, "name_two");
    assert_eq!(all.links[2].name, "name_one");

    // Windowed by offset and limit.
    let page = get_url_list_handler(
        &store,
        1,
        Some(Pagination { offset: Some(1), limit: Some(1) }),
    )
    .unwrap();
    assert_eq!(page.links.len(), 1);
    assert_eq!(page.links[0].name, "name_two");

    // An offset past the end yields an empty page.
    let empty = get_url_list_handler(
        &store,
        1,
        Some(Pagination { offset: Some(10), limit: Some(5) }),
    )
    .unwrap();
    assert_eq!(empty.links.len(), 0);
}

#[test]
fn list_excludes_deleted_and_other_owners() {
    let mut store = store_with_two_accounts();
    let mine = link_input("name_one", "slug_one", "http://google.com");
    let gone = link_input("name_two", "slug_two", "http://google.com");
    let bobs = link_input("name_three", "slug_three", "http://google.com");
    create_url_handler(&mut store, 1, &mine, NOW).unwrap();
    let deleted = create_url_handler(&mut store, 1, &gone, NOW + 1).unwrap();
    create_url_handler(&mut store, 2, &bobs, NOW + 2).unwrap();
    delete_url_handler(&mut store, 1, deleted.link.id, NOW + 3).unwrap();

    let listed = get_url_list_handler(&store, 1, None).unwrap();
    assert_eq!(listed.links.len(), 1);
    assert_eq!(listed.links[0].name, "name_one");
}

#[test]
fn stripping_collision_hits_the_unique_index() {
    let mut store = store_with_two_accounts();
    let first = link_input("first_name", "abcde", "http://google.com");
    create_url_handler(&mut store, 1, &first, NOW).unwrap();
    // "ab cde" passes the duplicate pre-check (it differs from "abcde"),
    // but stripping makes it collide: the store's unique index rejects it.
    let second = link_input("other_name", "ab cde", "http://google.com");
    let err = create_url_handler(&mut store, 1, &second, NOW + 1).unwrap_err();
    assert!(matches!(err, CreateError::DBInternalError));
    assert_eq!(store.links.len(), 1);
}

#[test]
fn delete_missing_link_is_not_found() {
    let mut store = store_with_two_accounts();
    assert_eq!(
        delete_url_handler(&mut store, 1, 99, NOW).unwrap_err(),
        DeleteError::LinkNotFound
    );
    assert_eq!(get_url_handler(&store, 1, 99).unwrap_err(), GetError::LinkNotFound);
}

#[test]
fn scenario_register_me_create_list() {
    let mut store = Store::new();
    let s = secrets();
    let alice = RegisterUserInput {
        username: String::from("alice_account"),
        email: String::from("a@x.com"),
        password: String::from("secret123"),
    };
    let token = register_handler(&mut store, &s, &alice, NOW).unwrap().token;
    let header = format!("Bearer {}", token);

    let me = me_handler(&store, &s, Some(header.as_str()), NOW).unwrap();
    assert_eq!(me.user.username, "alice_account");

    let input = link_input("link_name", "link_slug", "http://x.com");
    let created = create_url_handler(&mut store, me.user.id, &input, NOW + 1).unwrap();
    assert_eq!(created.link.owner_id, me.user.id);

    let listed = get_url_list_handler(
        &store,
        me.user.id,
        Some(Pagination { offset: Some(0), limit: Some(1) }),
    )
    .unwrap();
    assert_eq!(listed.links.len(), 1);
    assert_eq!(listed.links[0].slug, "link_slug");
}

#[test]
fn pagination_default_is_first_ten() {
    let p = Pagination::default();
    assert_eq!(p.offset, Some(0));
    assert_eq!(p.limit, Some(10));
}
