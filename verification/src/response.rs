//! What a request is answered with.

use crate::error::TodoError;
use crate::repository::views;
use crate::todo::{Todo, TodoView};
use vstd::prelude::*;

verus! {

/// A static asset of the service.
#[derive(Debug, Clone, Copy, PartialEq, Eq, Structural)]
pub enum Asset {
    /// The stylesheet of the index page.
    Stylesheet,
    /// The icon of a completed item.
    Check,
    /// The icon of the add button.
    Plus,
    /// The icon of the delete button.
    Trashcan,
    /// The icon of an item that is not completed.
    Cross,
}

/// The media type of a response's payload.
#[derive(Debug, Clone, Copy, PartialEq, Eq, Structural)]
pub enum ContentType {
    /// `text/html`
    Html,
    /// `text/css`
    Css,
    /// `image/svg+xml`
    Svg,
    /// `text/plain`
    Plain,
}

impl ContentType {
    /// The media type as it stands in a header.
    pub open spec fn text(self) -> Seq<char> {
        match self {
            ContentType::Html => "text/html"@,
            ContentType::Css => "text/css"@,
            ContentType::Svg => "image/svg+xml"@,
            ContentType::Plain => "text/plain"@,
        }
    }

    /// The media type as it stands in a header.
    pub fn as_str(&self) -> (text: &'static str)
        ensures
            text@ == self.text(),
    {
        match self {
            ContentType::Html => "text/html",
            ContentType::Css => "text/css",
            ContentType::Svg => "image/svg+xml",
            ContentType::Plain => "text/plain",
        }
    }
}

impl Asset {
    /// The file name under which the asset is stored and served.
    pub open spec fn file_name_text(self) -> Seq<char> {
        match self {
            Asset::Stylesheet => "todo.css"@,
            Asset::Check => "check.svg"@,
            Asset::Plus => "plus.svg"@,
            Asset::Trashcan => "trashcan.svg"@,
            Asset::Cross => "x.svg"@,
        }
    }

    /// The media type of the asset, which goes by the extension of its file
    /// name: `.css` is a stylesheet, `.svg` an image.
    pub open spec fn media(self) -> ContentType {
        match self {
            Asset::Stylesheet => ContentType::Css,
            _ => ContentType::Svg,
        }
    }

    /// The file name under which the asset is stored and served.
    pub fn file_name(&self) -> (name: &'static str)
        ensures
            name@ == self.file_name_text(),
    {
        match self {
            Asset::Stylesheet => "todo.css",
            Asset::Check => "check.svg",
            Asset::Plus => "plus.svg",
            Asset::Trashcan => "trashcan.svg",
            Asset::Cross => "x.svg",
        }
    }

    /// The media type of the asset.
    pub fn content_type(&self) -> (media: ContentType)
        ensures
            media == self.media(),
    {
        match self {
            Asset::Stylesheet => ContentType::Css,
            _ => ContentType::Svg,
        }
    }
}

/// What the index page is rendered from: the items in the order in which
/// they were added, and their number.
#[derive(Debug)]
pub struct ViewModel {
    todos: Vec<Todo>,
    todos_len: usize,
}

impl View for ViewModel {
    type V = Seq<TodoView>;

    closed spec fn view(&self) -> Seq<TodoView> {
        views(self.todos@)
    }
}

impl ViewModel {
    #[verifier::type_invariant]
    spec fn counted(self) -> bool {
        self.todos_len == self.todos@.len()
    }

    /// The view-model of the items `todos`.
    pub fn new(todos: Vec<Todo>) -> (model: ViewModel)
        ensures
            model@ == views(todos@),
    {
        let todos_len = todos.len();
        ViewModel { todos, todos_len }
    }

    /// The items.
    pub fn todos(&self) -> (todos: &Vec<Todo>)
        ensures
            views(todos@) == self@,
    {
        &self.todos
    }

    /// The number of items.
    pub fn todos_len(&self) -> (n: usize)
        ensures
            n == self@.len(),
    {
        proof {
            use_type_invariant(self);
        }
        self.todos_len
    }
}

/// The mathematical value of a response.
pub enum ResponseView {
    Page(Seq<TodoView>),
    Redirect,
    Asset(Asset),
    Failure(TodoError),
}

/// The outcome of a request.
#[derive(Debug)]
pub enum Response {
    /// The index page, to be rendered from the view-model.
    Page(ViewModel),
    /// A redirect to the index page.
    Redirect,
    /// A static asset.
    Asset(Asset),
    /// An error.
    Failure(TodoError),
}

impl View for Response {
    type V = ResponseView;

    open spec fn view(&self) -> ResponseView {
        match self {
            Response::Page(model) => ResponseView::Page(model@),
            Response::Redirect => ResponseView::Redirect,
            Response::Asset(asset) => ResponseView::Asset(*asset),
            Response::Failure(reason) => ResponseView::Failure(*reason),
        }
    }
}

impl ResponseView {
    /// The status code of the response.
    pub open spec fn status_code(self) -> u16 {
        match self {
            ResponseView::Page(_) => 200,
            ResponseView::Redirect => 303,
            ResponseView::Asset(_) => 200,
            ResponseView::Failure(reason) => reason.status_code(),
        }
    }

    /// Where the response sends the client: a redirect sends it to the index
    /// page.
    pub open spec fn location(self) -> Option<Seq<char>> {
        match self {
            ResponseView::Redirect => Some("/"@),
            _ => None,
        }
    }

    /// The media type of the payload; a redirect has no payload.
    pub open spec fn media(self) -> Option<ContentType> {
        match self {
            ResponseView::Page(_) => Some(ContentType::Html),
            ResponseView::Redirect => None,
            ResponseView::Asset(asset) => Some(asset.media()),
            ResponseView::Failure(_) => Some(ContentType::Plain),
        }
    }
}

impl Response {
    /// The status code: 200 for a page or an asset, 303 for a redirect, and
    /// the error's own code for a failure.
    pub fn status(&self) -> (code: u16)
        ensures
            code == self@.status_code(),
    {
        match self {
            Response::Page(_) => 200,
            Response::Redirect => 303,
            Response::Asset(_) => 200,
            Response::Failure(reason) => reason.status(),
        }
    }

    /// The value of the `Location` header, where the response has one.
    pub fn location(&self) -> (target: Option<&'static str>)
        ensures
            match self@.location() {
                Some(text) => target is Some && target->Some_0@ == text,
                None => target is None,
            },
    {
        match self {
            Response::Redirect => Some("/"),
            _ => None,
        }
    }

    /// The media type of the payload, where the response has one.
    pub fn content_type(&self) -> (media: Option<ContentType>)
        ensures
            media == self@.media(),
    {
        match self {
            Response::Page(_) => Some(ContentType::Html),
            Response::Redirect => None,
            Response::Asset(asset) => Some(asset.content_type()),
            Response::Failure(_) => Some(ContentType::Plain),
        }
    }
}

} // verus!
