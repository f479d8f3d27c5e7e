//! The handlers: each answers one kind of request, and the mutating ones
//! change the repository on the way.

use crate::error::TodoError;
use crate::form::{
    id_request, lemma_body_without_equals_is_refused, name_request, parse_id, parse_name, EQUALS,
};
use crate::laws::{is_step, lemma_step_keeps_taken, lemma_step_keeps_well_formed, Step};
use crate::repository::{is_addition, Repository, RepositoryView};
use crate::response::{Asset, Response, ResponseView, ViewModel};
use crate::route::{find_image, image_at, route_of, router, Access, Method, Route};
use vstd::prelude::*;

verus! {

/// Not Found, with its fixed text.
pub fn four_oh_four() -> (response: Response)
    ensures
        response@ == ResponseView::Failure(TodoError::NotFound),
{
    Response::Failure(TodoError::NotFound)
}

/// The redirect to the index page that answers every request that changed
/// the repository, so that reloading the page sends no form again.
pub fn redirect_home() -> (response: Response)
    ensures
        response@ == ResponseView::Redirect,
{
    Response::Redirect
}

/// The stylesheet.
pub fn stylesheet() -> (response: Response)
    ensures
        response@ == ResponseView::Asset(Asset::Stylesheet),
{
    Response::Asset(Asset::Stylesheet)
}

/// What a request for the image at `path` is answered with.
pub open spec fn image_response(path: Seq<char>) -> ResponseView {
    match image_at(path) {
        Some(image) => ResponseView::Asset(image),
        None => ResponseView::Failure(TodoError::NotFound),
    }
}

/// The image that `path` names, or Not Found where it names none.
pub fn image(path: &str) -> (response: Response)
    ensures
        response@ == image_response(path@),
{
    match find_image(path) {
        Some(image) => Response::Asset(image),
        None => four_oh_four(),
    }
}

/// The index page: a copy of all items, in the order in which they were
/// added, and their number.
pub fn index(repo: &Repository) -> (response: Response)
    ensures
        response@ == ResponseView::Page(repo@.todos),
{
    Response::Page(ViewModel::new(repo.list()))
}

/// Whether an add request that goes from `before` to `after` and is
/// answered with `response` was handled as `request` asks: a name is added
/// as a new item and answered with a redirect, a refusal changes nothing and
/// is answered with its reason.
pub open spec fn is_add_outcome(
    before: RepositoryView,
    after: RepositoryView,
    request: Result<Seq<char>, TodoError>,
    response: ResponseView,
) -> bool {
    match request {
        Ok(name) => if name.len() == 0 {
            after == before && response == ResponseView::Failure(TodoError::Validation)
        } else {
            response == ResponseView::Redirect && exists|id: u128|
                is_addition(before, after, id, name)
        },
        Err(reason) => after == before && response == ResponseView::Failure(reason),
    }
}

/// The repository after a toggle request, handled as `request` asks.
pub open spec fn toggle_state(
    before: RepositoryView,
    request: Result<u128, TodoError>,
) -> RepositoryView {
    match request {
        Ok(id) => before.with_toggled(id),
        Err(_) => before,
    }
}

/// The repository after a remove request, handled as `request` asks.
pub open spec fn remove_state(
    before: RepositoryView,
    request: Result<u128, TodoError>,
) -> RepositoryView {
    match request {
        Ok(id) => before.without(id),
        Err(_) => before,
    }
}

/// What a toggle or remove request is answered with: a redirect where it
/// gave an identifier, whether or not an item bears it, else the reason of
/// the refusal.
pub open spec fn id_response(request: Result<u128, TodoError>) -> ResponseView {
    match request {
        Ok(_) => ResponseView::Redirect,
        Err(reason) => ResponseView::Failure(reason),
    }
}

/// Carries out an add request whose body was parsed to `name`.
pub fn commit_add(repo: &mut Repository, name: Result<String, TodoError>) -> (response: Response)
    ensures
        is_add_outcome(
            old(repo)@,
            final(repo)@,
            match name {
                Ok(text) => Ok(text@),
                Err(reason) => Err(reason),
            },
            response@,
        ),
{
    match name {
        Ok(text) => match repo.add_todo(text.as_str()) {
            Ok(_) => redirect_home(),
            Err(reason) => Response::Failure(reason),
        },
        Err(reason) => Response::Failure(reason),
    }
}

/// Carries out a toggle request whose body was parsed to `id`.
pub fn commit_toggle(repo: &mut Repository, id: Result<u128, TodoError>) -> (response: Response)
    ensures
        final(repo)@ == toggle_state(old(repo)@, id),
        response@ == id_response(id),
{
    match id {
        Ok(id) => {
            repo.toggle_todo(id);
            redirect_home()
        },
        Err(reason) => Response::Failure(reason),
    }
}

/// Carries out a remove request whose body was parsed to `id`.
pub fn commit_remove(repo: &mut Repository, id: Result<u128, TodoError>) -> (response: Response)
    ensures
        final(repo)@ == remove_state(old(repo)@, id),
        response@ == id_response(id),
{
    match id {
        Ok(id) => {
            repo.remove_todo(id);
            redirect_home()
        },
        Err(reason) => Response::Failure(reason),
    }
}

/// Adds the item that the form field in `body` names, and redirects to the
/// index page. A body that is no form field is a bad request, an empty
/// name a validation error; neither changes the repository.
pub fn add_todo_handler(repo: &mut Repository, body: &[u8]) -> (response: Response)
    ensures
        is_add_outcome(old(repo)@, final(repo)@, name_request(body@), response@),
{
    commit_add(repo, parse_name(body))
}

/// Toggles the item whose identifier the form field in `body` gives, and
/// redirects to the index page. A body that is no form field or gives no
/// well-formed identifier is refused and changes nothing.
pub fn toggle_todo_handler(repo: &mut Repository, body: &[u8]) -> (response: Response)
    ensures
        final(repo)@ == toggle_state(old(repo)@, id_request(body@)),
        response@ == id_response(id_request(body@)),
{
    commit_toggle(repo, parse_id(body))
}

/// Removes the item whose identifier the form field in `body` gives, and
/// redirects to the index page. A body that is no form field or gives no
/// well-formed identifier is refused and changes nothing.
pub fn remove_todo_handler(repo: &mut Repository, body: &[u8]) -> (response: Response)
    ensures
        final(repo)@ == remove_state(old(repo)@, id_request(body@)),
        response@ == id_response(id_request(body@)),
{
    commit_remove(repo, parse_id(body))
}

/// Whether a request that goes from `before` to `after` and is answered
/// with `response` was served as the route table and the handlers say.
pub open spec fn is_served(
    before: RepositoryView,
    after: RepositoryView,
    method: Method,
    path: Seq<char>,
    body: Seq<u8>,
    response: ResponseView,
) -> bool {
    match route_of(method, path) {
        Route::Index => after == before && response == ResponseView::Page(before.todos),
        Route::Add => is_add_outcome(before, after, name_request(body), response),
        Route::Toggle => after == toggle_state(before, id_request(body)) && response
            == id_response(id_request(body)),
        Route::Remove => after == remove_state(before, id_request(body)) && response
            == id_response(id_request(body)),
        Route::Stylesheet => after == before && response == ResponseView::Asset(
            Asset::Stylesheet,
        ),
        Route::Image => after == before && response == image_response(path),
        Route::NotFound => after == before && response == ResponseView::Failure(
            TodoError::NotFound,
        ),
    }
}

/// Serves one request: selects the handler by method and path, and lets it
/// answer.
pub fn dispatch(repo: &mut Repository, method: Method, path: &str, body: &[u8]) -> (response:
    Response)
    ensures
        is_served(old(repo)@, final(repo)@, method, path@, body@, response@),
{
    match router(method, path) {
        Route::Index => index(repo),
        Route::Add => add_todo_handler(repo, body),
        Route::Toggle => toggle_todo_handler(repo, body),
        Route::Remove => remove_todo_handler(repo, body),
        Route::Stylesheet => stylesheet(),
        Route::Image => image(path),
        Route::NotFound => four_oh_four(),
    }
}

/// A request that is answered with a failure leaves the repository as it
/// was.
pub proof fn lemma_refused_request_changes_nothing(
    before: RepositoryView,
    after: RepositoryView,
    method: Method,
    path: Seq<char>,
    body: Seq<u8>,
    response: ResponseView,
)
    requires
        is_served(before, after, method, path, body, response),
        response is Failure,
    ensures
        after == before,
{
}

/// A request whose body holds no `=` is never carried out: it is answered
/// with a failure, Bad Request on the routes that read a body, and the
/// repository stays as it was.
pub proof fn lemma_malformed_body_changes_nothing(
    before: RepositoryView,
    after: RepositoryView,
    method: Method,
    path: Seq<char>,
    body: Seq<u8>,
    response: ResponseView,
)
    requires
        is_served(before, after, method, path, body, response),
        route_of(method, path).access_needed() == Access::Exclusive,
        forall|i: int| 0 <= i < body.len() ==> body[i] != EQUALS,
    ensures
        after == before,
        response == ResponseView::Failure(TodoError::BadRequest),
        response.status_code() == 400,
{
    lemma_body_without_equals_is_refused(body);
}

/// Every request keeps the repository well formed, and frees no
/// identifier.
pub proof fn lemma_served_keeps_well_formed(
    before: RepositoryView,
    after: RepositoryView,
    method: Method,
    path: Seq<char>,
    body: Seq<u8>,
    response: ResponseView,
)
    requires
        is_served(before, after, method, path, body, response),
        before.well_formed(),
    ensures
        after.well_formed(),
        forall|id: u128| before.is_taken(id) ==> after.is_taken(id),
{
    let step = match route_of(method, path) {
        Route::Add => match name_request(body) {
            Ok(name) => Some(
                Step::Add { id: choose|id: u128| is_addition(before, after, id, name), name },
            ),
            Err(_) => None,
        },
        Route::Toggle => match id_request(body) {
            Ok(id) => Some(Step::Toggle { id }),
            Err(_) => None,
        },
        Route::Remove => match id_request(body) {
            Ok(id) => Some(Step::Remove { id }),
            Err(_) => None,
        },
        _ => None,
    };
    if let Some(step) = step {
        assert(is_step(before, after, step));
        lemma_step_keeps_well_formed(before, after, step);
        assert forall|id: u128| before.is_taken(id) implies after.is_taken(id) by {
            lemma_step_keeps_taken(before, after, step, id);
        }
    }
}

} // verus!
