use todo_service::error::TodoError;
use todo_service::form::{form_value, identifier, parse_id, parse_name};
use todo_service::handlers::{
    add_todo_handler, commit_add, commit_remove, commit_toggle, dispatch, four_oh_four, image,
    index, redirect_home, remove_todo_handler, stylesheet, toggle_todo_handler,
};
use todo_service::repository::Repository;
use todo_service::response::{Asset, ContentType, Response, ViewModel};
use todo_service::route::{find_image, router, Access, Method, Route};
use todo_service::todo::Todo;
use uuid::Uuid;

fn id_body(id: u128) -> Vec<u8> {
    format!("id={}", Uuid::from_u128(id)).into_bytes()
}

fn page(repo: &mut Repository) -> ViewModel {
    match dispatch(repo, Method::Get, "/", b"") {
        Response::Page(model) => model,
        other => panic!("no page: {:?}", other),
    }
}

#[test]
fn post_root_adds_and_redirects() {
    let mut repo = Repository::new();
    let response = dispatch(&mut repo, Method::Post, "/", b"name=Buy milk");
    assert_eq!(response.status(), 303);
    assert_eq!(response.location(), Some("/"));
    assert!(matches!(response, Response::Redirect));
    let model = page(&mut repo);
    assert_eq!(model.todos_len(), 1);
    assert_eq!(model.todos().len(), 1);
    assert_eq!(model.todos()[0].name(), "Buy milk");
    assert!(!model.todos()[0].done());
}

#[test]
fn post_done_and_not_done_toggle() {
    let mut repo = Repository::new();
    dispatch(&mut repo, Method::Post, "/", b"name=Buy milk");
    let id = page(&mut repo).todos()[0].id();
    let response = dispatch(&mut repo, Method::Post, "/done", &id_body(id));
    assert_eq!(response.status(), 303);
    assert_eq!(response.location(), Some("/"));
    assert!(page(&mut repo).todos()[0].done());
    let response = dispatch(&mut repo, Method::Post, "/not-done", &id_body(id));
    assert_eq!(response.status(), 303);
    assert!(!page(&mut repo).todos()[0].done());
}

#[test]
fn done_and_not_done_both_toggle() {
    let mut repo = Repository::new();
    dispatch(&mut repo, Method::Post, "/", b"name=a");
    let id = page(&mut repo).todos()[0].id();
    dispatch(&mut repo, Method::Post, "/not-done", &id_body(id));
    assert!(page(&mut repo).todos()[0].done());
    dispatch(&mut repo, Method::Post, "/done", &id_body(id));
    assert!(!page(&mut repo).todos()[0].done());
}

#[test]
fn post_delete_removes() {
    let mut repo = Repository::new();
    dispatch(&mut repo, Method::Post, "/", b"name=a");
    dispatch(&mut repo, Method::Post, "/", b"name=b");
    let before = page(&mut repo);
    assert_eq!(before.todos_len(), 2);
    let id = before.todos()[0].id();
    let response = dispatch(&mut repo, Method::Post, "/delete", &id_body(id));
    assert_eq!(response.status(), 303);
    assert_eq!(response.location(), Some("/"));
    let after = page(&mut repo);
    assert_eq!(after.todos_len(), 1);
    assert_eq!(after.todos()[0].name(), "b");
    assert!(!repo.contains(id));
}

#[test]
fn malformed_body_is_a_bad_request() {
    let mut repo = Repository::new();
    repo.insert(Todo::with_id(1, "a")).unwrap();
    let response = dispatch(&mut repo, Method::Post, "/done", b"garbage");
    assert_eq!(response.status(), 400);
    assert!(matches!(response, Response::Failure(TodoError::BadRequest)));
    let listed = repo.list();
    assert_eq!(listed.len(), 1);
    assert_eq!(listed[0].id(), 1);
    assert!(!listed[0].done());
    for path in ["/", "/not-done", "/delete"] {
        let response = dispatch(&mut repo, Method::Post, path, b"garbage");
        assert_eq!(response.status(), 400);
        assert_eq!(repo.len(), 1);
    }
}

#[test]
fn unknown_route_is_not_found() {
    let mut repo = Repository::new();
    let response = dispatch(&mut repo, Method::Get, "/nonexistent", b"");
    assert_eq!(response.status(), 404);
    match response {
        Response::Failure(reason) => {
            assert_eq!(reason, TodoError::NotFound);
            assert_eq!(reason.message(), "Oops! Not Found");
        }
        other => panic!("no failure: {:?}", other),
    }
}

#[test]
fn malformed_identifier_is_a_bad_request() {
    let mut repo = Repository::new();
    repo.insert(Todo::with_id(1, "a")).unwrap();
    let response = toggle_todo_handler(&mut repo, b"id=not-an-identifier");
    assert!(matches!(response, Response::Failure(TodoError::BadRequest)));
    let response = remove_todo_handler(&mut repo, b"id=1234");
    assert!(matches!(response, Response::Failure(TodoError::BadRequest)));
    assert_eq!(repo.len(), 1);
    assert!(!repo.list()[0].done());
}

#[test]
fn empty_field_is_a_validation_error() {
    let mut repo = Repository::new();
    repo.insert(Todo::with_id(1, "a")).unwrap();
    let response = add_todo_handler(&mut repo, b"name=");
    assert!(matches!(response, Response::Failure(TodoError::Validation)));
    assert_eq!(response.status(), 400);
    let response = toggle_todo_handler(&mut repo, b"id=");
    assert!(matches!(response, Response::Failure(TodoError::Validation)));
    let response = remove_todo_handler(&mut repo, b"id=");
    assert!(matches!(response, Response::Failure(TodoError::Validation)));
    assert_eq!(repo.len(), 1);
}

#[test]
fn body_that_is_not_utf8_is_a_bad_request() {
    let mut repo = Repository::new();
    let response = add_todo_handler(&mut repo, &[0xff, b'=', b'a']);
    assert!(matches!(response, Response::Failure(TodoError::BadRequest)));
    let response = add_todo_handler(&mut repo, &[b'n', b'=', 0xc3]);
    assert!(matches!(response, Response::Failure(TodoError::BadRequest)));
    assert_eq!(repo.len(), 0);
}

#[test]
fn toggle_handler_reads_every_identifier_format() {
    let mut repo = Repository::new();
    let id: u128 = 0x936da01f_9abd_4d9d_80c7_02af85c822a8;
    repo.insert(Todo::with_id(id, "a")).unwrap();
    let response = toggle_todo_handler(&mut repo, b"id=936da01f-9abd-4d9d-80c7-02af85c822a8");
    assert!(matches!(response, Response::Redirect));
    assert!(repo.list()[0].done());
    toggle_todo_handler(&mut repo, b"id=936da01f9abd4d9d80c702af85c822a8");
    assert!(!repo.list()[0].done());
    toggle_todo_handler(&mut repo, b"id=936DA01F-9ABD-4D9D-80C7-02AF85C822A8");
    assert!(repo.list()[0].done());
}

#[test]
fn handlers_tolerate_an_unknown_identifier() {
    let mut repo = Repository::new();
    repo.insert(Todo::with_id(1, "a")).unwrap();
    let response = toggle_todo_handler(&mut repo, &id_body(77));
    assert!(matches!(response, Response::Redirect));
    let response = remove_todo_handler(&mut repo, &id_body(77));
    assert!(matches!(response, Response::Redirect));
    assert_eq!(repo.len(), 1);
    assert!(!repo.list()[0].done());
}

#[test]
fn remove_handler_removes_the_named_item() {
    let mut repo = Repository::new();
    repo.insert(Todo::with_id(1, "a")).unwrap();
    repo.insert(Todo::with_id(2, "b")).unwrap();
    let response = remove_todo_handler(&mut repo, &id_body(1));
    assert!(matches!(response, Response::Redirect));
    assert_eq!(repo.len(), 1);
    assert_eq!(repo.list()[0].id(), 2);
}

#[test]
fn add_handler_takes_the_name_as_it_stands() {
    let mut repo = Repository::new();
    add_todo_handler(&mut repo, "name=Grüße, 世界".as_bytes());
    add_todo_handler(&mut repo, b"name=a+b%20c");
    add_todo_handler(&mut repo, b"anything=first=second");
    let listed = repo.list();
    assert_eq!(listed[0].name(), "Grüße, 世界");
    assert_eq!(listed[1].name(), "a+b%20c");
    assert_eq!(listed[2].name(), "first");
}

#[test]
fn form_value_is_what_follows_the_first_equals() {
    assert_eq!(form_value(b"name=Buy milk"), Ok("Buy milk".to_string()));
    assert_eq!(form_value(b"a=b=c"), Ok("b".to_string()));
    assert_eq!(form_value(b"a=b="), Ok("b".to_string()));
    assert_eq!(form_value(b"=x"), Ok("x".to_string()));
    assert_eq!(form_value(b"name="), Ok(String::new()));
    assert_eq!(form_value(b"="), Ok(String::new()));
    assert_eq!(form_value(b"a==b"), Ok(String::new()));
    assert_eq!(form_value("k=é".as_bytes()), Ok("é".to_string()));
    assert_eq!(form_value("é=ü=ö".as_bytes()), Ok("ü".to_string()));
}

#[test]
fn form_value_refuses_what_is_no_field() {
    assert_eq!(form_value(b""), Err(TodoError::BadRequest));
    assert_eq!(form_value(b"garbage"), Err(TodoError::BadRequest));
    assert_eq!(form_value(&[0xff, b'=', b'a']), Err(TodoError::BadRequest));
    assert_eq!(form_value(&[b'a', b'=', 0x80]), Err(TodoError::BadRequest));
    assert_eq!(
        form_value(&[b'a', b'=', b'b', b'=', 0xff]),
        Err(TodoError::BadRequest)
    );
}

#[test]
fn parse_name_wants_a_name() {
    assert_eq!(parse_name(b"name=Buy milk"), Ok("Buy milk".to_string()));
    assert_eq!(parse_name(b"name="), Err(TodoError::Validation));
    assert_eq!(parse_name(b"name"), Err(TodoError::BadRequest));
}

#[test]
fn parse_id_wants_an_identifier() {
    assert_eq!(
        parse_id(b"id=a1a2a3a4-b1b2-c1c2-d1d2-d3d4d5d6d7d8"),
        Ok(0xa1a2a3a4b1b2c1c2d1d2d3d4d5d6d7d8)
    );
    assert_eq!(
        parse_id(b"id=urn:uuid:a1a2a3a4-b1b2-c1c2-d1d2-d3d4d5d6d7d8"),
        Ok(0xa1a2a3a4b1b2c1c2d1d2d3d4d5d6d7d8)
    );
    assert_eq!(
        parse_id(b"id={a1a2a3a4-b1b2-c1c2-d1d2-d3d4d5d6d7d8}"),
        Ok(0xa1a2a3a4b1b2c1c2d1d2d3d4d5d6d7d8)
    );
    assert_eq!(
        parse_id(b"id=00000000000000000000000000000001"),
        Ok(1)
    );
    assert_eq!(parse_id(b"id="), Err(TodoError::Validation));
    assert_eq!(parse_id(b"id=xyz"), Err(TodoError::BadRequest));
    assert_eq!(
        parse_id(b"id=a1a2a3a4-b1b2-c1c2-d1d2-d3d4d5d6d7dg"),
        Err(TodoError::BadRequest)
    );
    assert_eq!(parse_id(b"no field"), Err(TodoError::BadRequest));
}

#[test]
fn identifier_sorts_the_parser_outcomes() {
    assert_eq!(identifier("", None), Err(TodoError::Validation));
    assert_eq!(identifier("", Some(3)), Err(TodoError::Validation));
    assert_eq!(identifier("x", None), Err(TodoError::BadRequest));
    assert_eq!(identifier("x", Some(3)), Ok(3));
}

#[test]
fn commit_add_carries_out_or_reports() {
    let mut repo = Repository::new();
    let response = commit_add(&mut repo, Ok("a".to_string()));
    assert!(matches!(response, Response::Redirect));
    assert_eq!(repo.len(), 1);
    let response = commit_add(&mut repo, Ok(String::new()));
    assert!(matches!(response, Response::Failure(TodoError::Validation)));
    let response = commit_add(&mut repo, Err(TodoError::BadRequest));
    assert!(matches!(response, Response::Failure(TodoError::BadRequest)));
    assert_eq!(repo.len(), 1);
}

#[test]
fn commit_toggle_and_remove_carry_out_or_report() {
    let mut repo = Repository::new();
    repo.insert(Todo::with_id(1, "a")).unwrap();
    let response = commit_toggle(&mut repo, Err(TodoError::Validation));
    assert!(matches!(response, Response::Failure(TodoError::Validation)));
    assert!(!repo.list()[0].done());
    let response = commit_toggle(&mut repo, Ok(1));
    assert!(matches!(response, Response::Redirect));
    assert!(repo.list()[0].done());
    let response = commit_remove(&mut repo, Err(TodoError::BadRequest));
    assert!(matches!(response, Response::Failure(TodoError::BadRequest)));
    assert_eq!(repo.len(), 1);
    let response = commit_remove(&mut repo, Ok(1));
    assert!(matches!(response, Response::Redirect));
    assert_eq!(repo.len(), 0);
}

#[test]
fn index_shows_a_copy_of_all_items() {
    let mut repo = Repository::new();
    repo.insert(Todo::with_id(1, "a")).unwrap();
    repo.insert(Todo::with_id(2, "b")).unwrap();
    repo.toggle_todo(2);
    let response = index(&repo);
    assert_eq!(response.status(), 200);
    assert_eq!(response.content_type(), Some(ContentType::Html));
    assert_eq!(response.location(), None);
    match response {
        Response::Page(model) => {
            assert_eq!(model.todos_len(), 2);
            assert_eq!(model.todos()[0].id(), 1);
            assert_eq!(model.todos()[0].name(), "a");
            assert!(!model.todos()[0].done());
            assert_eq!(model.todos()[1].id(), 2);
            assert!(model.todos()[1].done());
        }
        other => panic!("no page: {:?}", other),
    }
}

#[test]
fn view_model_counts_its_items() {
    let model = ViewModel::new(vec![Todo::with_id(1, "a"), Todo::with_id(2, "b")]);
    assert_eq!(model.todos_len(), 2);
    assert_eq!(model.todos().len(), 2);
    assert_eq!(ViewModel::new(Vec::new()).todos_len(), 0);
}

#[test]
fn route_table() {
    assert_eq!(router(Method::Get, "/"), Route::Index);
    assert_eq!(router(Method::Post, "/"), Route::Add);
    assert_eq!(router(Method::Post, "/done"), Route::Toggle);
    assert_eq!(router(Method::Post, "/not-done"), Route::Toggle);
    assert_eq!(router(Method::Post, "/delete"), Route::Remove);
    assert_eq!(router(Method::Get, "/static/todo.css"), Route::Stylesheet);
    assert_eq!(router(Method::Get, "/static/check.svg"), Route::Image);
    assert_eq!(router(Method::Get, "/nonexistent"), Route::Image);
    assert_eq!(router(Method::Get, "/done"), Route::Image);
    assert_eq!(router(Method::Post, "/static/todo.css"), Route::NotFound);
    assert_eq!(router(Method::Post, "/nonexistent"), Route::NotFound);
    assert_eq!(router(Method::Post, "/done/"), Route::NotFound);
    assert_eq!(router(Method::Post, "/Done"), Route::NotFound);
    assert_eq!(router(Method::Post, ""), Route::NotFound);
    assert_eq!(router(Method::Other, "/"), Route::NotFound);
    assert_eq!(router(Method::Other, "/delete"), Route::NotFound);
}

#[test]
fn locking_discipline() {
    assert_eq!(Route::Index.access(), Access::Shared);
    assert_eq!(Route::Add.access(), Access::Exclusive);
    assert_eq!(Route::Toggle.access(), Access::Exclusive);
    assert_eq!(Route::Remove.access(), Access::Exclusive);
    assert_eq!(Route::Stylesheet.access(), Access::Free);
    assert_eq!(Route::Image.access(), Access::Free);
    assert_eq!(Route::NotFound.access(), Access::Free);
}

#[test]
fn images_are_found_by_their_path() {
    assert_eq!(find_image("/static/check.svg"), Some(Asset::Check));
    assert_eq!(find_image("/static/plus.svg"), Some(Asset::Plus));
    assert_eq!(find_image("/static/trashcan.svg"), Some(Asset::Trashcan));
    assert_eq!(find_image("/static/x.svg"), Some(Asset::Cross));
    assert_eq!(find_image("/static/todo.css"), None);
    assert_eq!(find_image("/static/other.svg"), None);
    assert_eq!(find_image("/static/check.png"), None);
    assert_eq!(find_image("/static/"), None);
    assert_eq!(find_image("/check.svg"), None);
    assert_eq!(find_image("check.svg"), None);
    assert_eq!(find_image("/static/check.svg/"), None);
}

#[test]
fn static_assets_are_served_with_their_media_type() {
    let mut repo = Repository::new();
    let response = dispatch(&mut repo, Method::Get, "/static/todo.css", b"");
    assert_eq!(response.status(), 200);
    assert_eq!(response.content_type(), Some(ContentType::Css));
    assert!(matches!(response, Response::Asset(Asset::Stylesheet)));
    let response = dispatch(&mut repo, Method::Get, "/static/trashcan.svg", b"");
    assert_eq!(response.status(), 200);
    assert_eq!(response.content_type(), Some(ContentType::Svg));
    assert!(matches!(response, Response::Asset(Asset::Trashcan)));
    let response = dispatch(&mut repo, Method::Get, "/static/unknown.svg", b"");
    assert_eq!(response.status(), 404);
    let response = dispatch(&mut repo, Method::Get, "/static/todo.txt", b"");
    assert_eq!(response.status(), 404);
    assert!(matches!(image("/static/todo.css"), Response::Failure(TodoError::NotFound)));
    assert!(matches!(image("/static/x.svg"), Response::Asset(Asset::Cross)));
    assert!(matches!(stylesheet(), Response::Asset(Asset::Stylesheet)));
}

#[test]
fn assets_have_file_names_and_media_types() {
    assert_eq!(Asset::Stylesheet.file_name(), "todo.css");
    assert_eq!(Asset::Check.file_name(), "check.svg");
    assert_eq!(Asset::Plus.file_name(), "plus.svg");
    assert_eq!(Asset::Trashcan.file_name(), "trashcan.svg");
    assert_eq!(Asset::Cross.file_name(), "x.svg");
    assert_eq!(Asset::Stylesheet.content_type(), ContentType::Css);
    assert_eq!(Asset::Check.content_type(), ContentType::Svg);
    assert_eq!(Asset::Plus.content_type(), ContentType::Svg);
    assert_eq!(Asset::Trashcan.content_type(), ContentType::Svg);
    assert_eq!(Asset::Cross.content_type(), ContentType::Svg);
    assert_eq!(ContentType::Html.as_str(), "text/html");
    assert_eq!(ContentType::Css.as_str(), "text/css");
    assert_eq!(ContentType::Svg.as_str(), "image/svg+xml");
    assert_eq!(ContentType::Plain.as_str(), "text/plain");
}

#[test]
fn errors_have_status_codes_and_fixed_texts() {
    assert_eq!(TodoError::Validation.status(), 400);
    assert_eq!(TodoError::BadRequest.status(), 400);
    assert_eq!(TodoError::NotFound.status(), 404);
    assert_eq!(TodoError::Internal.status(), 500);
    assert_eq!(TodoError::Validation.message(), "Missing form field");
    assert_eq!(TodoError::BadRequest.message(), "Bad Request");
    assert_eq!(TodoError::NotFound.message(), "Oops! Not Found");
    assert_eq!(TodoError::Internal.message(), "Internal Server Error");
    assert_eq!(Response::Failure(TodoError::Internal).status(), 500);
    assert_eq!(
        Response::Failure(TodoError::Internal).content_type(),
        Some(ContentType::Plain)
    );
}

#[test]
fn fixed_responses() {
    let response = four_oh_four();
    assert_eq!(response.status(), 404);
    assert_eq!(response.location(), None);
    assert!(matches!(response, Response::Failure(TodoError::NotFound)));
    let response = redirect_home();
    assert_eq!(response.status(), 303);
    assert_eq!(response.location(), Some("/"));
    assert_eq!(response.content_type(), None);
}

#[test]
fn requests_with_other_methods_change_nothing() {
    let mut repo = Repository::new();
    repo.insert(Todo::with_id(1, "a")).unwrap();
    let response = dispatch(&mut repo, Method::Other, "/delete", &id_body(1));
    assert_eq!(response.status(), 404);
    let response = dispatch(&mut repo, Method::Get, "/delete", &id_body(1));
    assert_eq!(response.status(), 404);
    assert_eq!(repo.len(), 1);
}
