//! Routing: from a method and a path to the handler that answers.

use crate::response::Asset;
use vstd::prelude::*;
use vstd::string::StringSliceAdditionalSpecFns;
use vstd::utf8::encode_utf8_decode_utf8;

verus! {

/// The method of a request.
#[derive(Debug, Clone, Copy, PartialEq, Eq, Structural)]
pub enum Method {
    Get,
    Post,
    /// Any method but GET and POST.
    Other,
}

/// The handler that a request goes to.
#[derive(Debug, Clone, Copy, PartialEq, Eq, Structural)]
pub enum Route {
    /// Show the index page.
    Index,
    /// Add an item.
    Add,
    /// Toggle an item.
    Toggle,
    /// Remove an item.
    Remove,
    /// Serve the stylesheet.
    Stylesheet,
    /// Serve the image that the path names, if there is one.
    Image,
    /// Nothing answers.
    NotFound,
}

/// How a handler needs the repository while it runs.
#[derive(Debug, Clone, Copy, PartialEq, Eq, Structural)]
pub enum Access {
    /// Not at all.
    Free,
    /// For reading, together with other readers.
    Shared,
    /// For writing, alone.
    Exclusive,
}

/// The path under which `asset` is served.
pub open spec fn static_path(asset: Asset) -> Seq<char> {
    "/static/"@ + asset.file_name_text()
}

/// The image that is served under `path`, if there is one.
pub open spec fn image_at(path: Seq<char>) -> Option<Asset> {
    if path == static_path(Asset::Check) {
        Some(Asset::Check)
    } else if path == static_path(Asset::Plus) {
        Some(Asset::Plus)
    } else if path == static_path(Asset::Trashcan) {
        Some(Asset::Trashcan)
    } else if path == static_path(Asset::Cross) {
        Some(Asset::Cross)
    } else {
        None
    }
}

/// The route table. Method and path are matched exactly.
pub open spec fn route_of(method: Method, path: Seq<char>) -> Route {
    match method {
        Method::Get => if path == "/"@ {
            Route::Index
        } else if path == static_path(Asset::Stylesheet) {
            Route::Stylesheet
        } else {
            Route::Image
        },
        Method::Post => if path == "/done"@ || path == "/not-done"@ {
            Route::Toggle
        } else if path == "/delete"@ {
            Route::Remove
        } else if path == "/"@ {
            Route::Add
        } else {
            Route::NotFound
        },
        Method::Other => Route::NotFound,
    }
}

impl Route {
    /// The locking discipline: the index page reads the repository, which
    /// any number of requests may do at once; adding, toggling and removing
    /// write to it, one request at a time; the other routes leave it alone.
    pub open spec fn access_needed(self) -> Access {
        match self {
            Route::Index => Access::Shared,
            Route::Add | Route::Toggle | Route::Remove => Access::Exclusive,
            Route::Stylesheet | Route::Image | Route::NotFound => Access::Free,
        }
    }

    /// How the handler of this route needs the repository while it runs.
    pub fn access(&self) -> (access: Access)
        ensures
            access == self.access_needed(),
    {
        match self {
            Route::Index => Access::Shared,
            Route::Add | Route::Toggle | Route::Remove => Access::Exclusive,
            Route::Stylesheet | Route::Image | Route::NotFound => Access::Free,
        }
    }
}

/// Whether two texts are the same.
pub(crate) fn same_text(a: &str, b: &str) -> (same: bool)
    ensures
        same == (a@ == b@),
{
    let left = a.as_bytes();
    let right = b.as_bytes();
    proof {
        encode_utf8_decode_utf8(a@);
        encode_utf8_decode_utf8(b@);
    }
    if left.len() != right.len() {
        return false;
    }
    let mut i: usize = 0;
    while i < left.len()
        invariant
            i <= left@.len() == right@.len(),
            forall|j: int| 0 <= j < i ==> left@[j] == right@[j],
            left@ == a.spec_bytes(),
            right@ == b.spec_bytes(),
        decreases left.len() - i,
    {
        if left[i] != right[i] {
            return false;
        }
        i += 1;
    }
    assert(left@ =~= right@);
    true
}

/// The image that is served under `path`, if there is one.
pub fn find_image(path: &str) -> (image: Option<Asset>)
    ensures
        image == image_at(path@),
{
    proof {
        lemma_static_paths();
    }
    if same_text(path, "/static/check.svg") {
        Some(Asset::Check)
    } else if same_text(path, "/static/plus.svg") {
        Some(Asset::Plus)
    } else if same_text(path, "/static/trashcan.svg") {
        Some(Asset::Trashcan)
    } else if same_text(path, "/static/x.svg") {
        Some(Asset::Cross)
    } else {
        None
    }
}

/// The path of each asset, written out.
proof fn lemma_static_paths()
    ensures
        static_path(Asset::Stylesheet) == "/static/todo.css"@,
        static_path(Asset::Check) == "/static/check.svg"@,
        static_path(Asset::Plus) == "/static/plus.svg"@,
        static_path(Asset::Trashcan) == "/static/trashcan.svg"@,
        static_path(Asset::Cross) == "/static/x.svg"@,
{
    reveal_strlit("/static/");
    reveal_strlit("todo.css");
    reveal_strlit("check.svg");
    reveal_strlit("plus.svg");
    reveal_strlit("trashcan.svg");
    reveal_strlit("x.svg");
    reveal_strlit("/static/todo.css");
    reveal_strlit("/static/check.svg");
    reveal_strlit("/static/plus.svg");
    reveal_strlit("/static/trashcan.svg");
    reveal_strlit("/static/x.svg");
    assert(static_path(Asset::Stylesheet) =~= "/static/todo.css"@);
    assert(static_path(Asset::Check) =~= "/static/check.svg"@);
    assert(static_path(Asset::Plus) =~= "/static/plus.svg"@);
    assert(static_path(Asset::Trashcan) =~= "/static/trashcan.svg"@);
    assert(static_path(Asset::Cross) =~= "/static/x.svg"@);
}

/// Selects the handler for a request by its method and path. Whatever
/// matches nothing in the route table goes to `Route::NotFound`; a GET for
/// anything but the index page and the stylesheet goes to `Route::Image`,
/// which answers Not Found where the path names no image.
pub fn router(method: Method, path: &str) -> (route: Route)
    ensures
        route == route_of(method, path@),
{
    proof {
        lemma_static_paths();
    }
    match method {
        Method::Get => if same_text(path, "/") {
            Route::Index
        } else if same_text(path, "/static/todo.css") {
            Route::Stylesheet
        } else {
            Route::Image
        },
        Method::Post => if same_text(path, "/done") || same_text(path, "/not-done") {
            Route::Toggle
        } else if same_text(path, "/delete") {
            Route::Remove
        } else if same_text(path, "/") {
            Route::Add
        } else {
            Route::NotFound
        },
        Method::Other => Route::NotFound,
    }
}

} // verus!
