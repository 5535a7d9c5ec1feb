//! The paths and methods under which the handlers are served.
//!
//! | path            | method   | handler            |
//! |-----------------|----------|--------------------|
//! | `/`             | `GET`    | the listing        |
//! | `/`             | `POST`   | create a post      |
//! | `/new`          | `GET`    | form for a post    |
//! | `/{id}`         | `GET`    | form to edit it    |
//! | `/{id}`         | `POST`   | update it          |
//! | `/{id}`         | `DELETE` | remove it          |
//! | `/{id}/delete`  | `POST`   | remove it          |
//!
//! An `id` is written in decimal digits and fits in 32 bits. Nothing else is
//! served.

use vstd::prelude::*;
use crate::handlers::{Request, RequestView};
use crate::pagination::{decimal_value, is_numeral, parse_digits};
use crate::post::PostForm;
use crate::text::{chars_of, field_view, same_text};

verus! {

/// The method of a request.
#[derive(Debug, Clone, Copy, PartialEq, Eq)]
pub enum Method {
    Get,
    Post,
    Delete,
    /// Any other method.
    Other,
}

impl Method {
    /// The method that a name stands for: `GET`, `POST` and `DELETE`,
    /// in capitals, are themselves, and every other name is `Other`.
    pub open spec fn of_name(name: Seq<char>) -> Method {
        if name == "GET"@ {
            Method::Get
        } else if name == "POST"@ {
            Method::Post
        } else if name == "DELETE"@ {
            Method::Delete
        } else {
            Method::Other
        }
    }

    /// The method that `name` stands for.
    pub fn from_name(name: &str) -> (method: Method)
        ensures
            method == Method::of_name(name@),
    {
        if same_text(name, "GET") {
            Method::Get
        } else if same_text(name, "POST") {
            Method::Post
        } else if same_text(name, "DELETE") {
            Method::Delete
        } else {
            Method::Other
        }
    }
}

/// The handler that a request goes to.
#[derive(Debug, Clone, Copy, PartialEq, Eq)]
pub enum Route {
    List,
    NewForm,
    Create,
    EditForm { id: i32 },
    Update { id: i32 },
    Delete { id: i32 },
}

/// The `id` that a path segment writes, if it is a numeral that fits.
pub open spec fn id_of(segment: Seq<char>) -> Option<int> {
    if is_numeral(segment) && decimal_value(segment) <= i32::MAX {
        Some(decimal_value(segment) as int)
    } else {
        None
    }
}

/// Whether `path` is a slash, a segment of one character or more, and
/// `/delete`.
pub open spec fn ends_in_delete(path: Seq<char>) -> bool {
    path.len() >= 9 && path.subrange(path.len() - 7, path.len() as int) == "/delete"@
}

/// The handler for a method and a path, if the pair is served.
pub open spec fn route_of(method: Method, path: Seq<char>) -> Option<Route> {
    if path == "/"@ {
        match method {
            Method::Get => Some(Route::List),
            Method::Post => Some(Route::Create),
            _ => None,
        }
    } else if path == "/new"@ {
        match method {
            Method::Get => Some(Route::NewForm),
            _ => None,
        }
    } else if path.len() > 0 && path[0] == '/' {
        if let Some(id) = id_of(path.subrange(1, path.len() as int)) {
            match method {
                Method::Get => Some(Route::EditForm { id: id as i32 }),
                Method::Post => Some(Route::Update { id: id as i32 }),
                Method::Delete => Some(Route::Delete { id: id as i32 }),
                Method::Other => None,
            }
        } else if ends_in_delete(path) {
            match (id_of(path.subrange(1, path.len() - 7)), method) {
                (Some(id), Method::Post) => Some(Route::Delete { id: id as i32 }),
                _ => None,
            }
        } else {
            None
        }
    } else {
        None
    }
}

/// Reads the characters of `chars` from `from` up to `to` as an `id`.
fn parse_id(chars: &Vec<char>, from: usize, to: usize) -> (id: Option<i32>)
    requires
        from <= to <= chars.len(),
    ensures
        match id_of(chars@.subrange(from as int, to as int)) {
            Some(n) => id == Some(n as i32) && 0 <= n <= i32::MAX,
            None => id is None,
        },
{
    match parse_digits(chars, from, to) {
        Some(n) => if n <= 0x7fff_ffff {
            Some(n as i32)
        } else {
            None
        },
        None => None,
    }
}

/// The handler that serves `path` under `method`, if any does.
pub fn route(method: Method, path: &str) -> (r: Option<Route>)
    ensures
        r == route_of(method, path@),
{
    let chars = chars_of(path);
    let n: usize = chars.len();
    proof {
        reveal_strlit("/");
        reveal_strlit("/new");
        reveal_strlit("/delete");
    }
    if n == 0 || chars[0] != '/' {
        return None;
    }
    if n == 1 {
        assert(path@ =~= "/"@);
        return match method {
            Method::Get => Some(Route::List),
            Method::Post => Some(Route::Create),
            _ => None,
        };
    }
    if n == 4 && chars[1] == 'n' && chars[2] == 'e' && chars[3] == 'w' {
        assert(path@ =~= "/new"@);
        return match method {
            Method::Get => Some(Route::NewForm),
            _ => None,
        };
    }
    assert(path@ != "/new"@) by {
        if path@ == "/new"@ {
            assert(path@[1] == 'n' && path@[2] == 'e' && path@[3] == 'w');
        }
    }
    match parse_id(&chars, 1, n) {
        Some(id) => {
            return match method {
                Method::Get => Some(Route::EditForm { id }),
                Method::Post => Some(Route::Update { id }),
                Method::Delete => Some(Route::Delete { id }),
                Method::Other => None,
            };
        },
        None => {},
    }
    if n >= 9 && chars[n - 7] == '/' && chars[n - 6] == 'd' && chars[n - 5] == 'e' && chars[n - 4]
        == 'l' && chars[n - 3] == 'e' && chars[n - 2] == 't' && chars[n - 1] == 'e' {
        assert(path@.subrange(n - 7, n as int) =~= "/delete"@);
        match (parse_id(&chars, 1, n - 7), method) {
            (Some(id), Method::Post) => Some(Route::Delete { id }),
            _ => None,
        }
    } else {
        assert(!ends_in_delete(path@)) by {
            if ends_in_delete(path@) {
                let tail = path@.subrange(n - 7, n as int);
                assert(tail[0] == '/' && tail[1] == 'd' && tail[2] == 'e' && tail[3] == 'l');
                assert(tail[4] == 'e' && tail[5] == 't' && tail[6] == 'e');
            }
        }
        None
    }
}

/// The value of the first pair of a query whose name is `name`.
pub open spec fn first_value(pairs: Seq<(String, String)>, name: Seq<char>) -> Option<Seq<char>>
    decreases pairs.len(),
{
    if pairs.len() == 0 {
        None
    } else if pairs[0].0@ == name {
        Some(pairs[0].1@)
    } else {
        first_value(pairs.drop_first(), name)
    }
}

/// The value of the first pair of a query whose name is `name`.
pub fn query_value(pairs: &Vec<(String, String)>, name: &str) -> (value: Option<String>)
    ensures
        field_view(value) == first_value(pairs@, name@),
{
    let mut i: usize = 0;
    assert(pairs@.subrange(0, pairs@.len() as int) == pairs@);
    while i < pairs.len()
        invariant
            i <= pairs.len(),
            first_value(pairs@, name@) == first_value(
                pairs@.subrange(i as int, pairs@.len() as int),
                name@,
            ),
        decreases pairs.len() - i,
    {
        let ghost rest = pairs@.subrange(i as int, pairs@.len() as int);
        assert(rest[0] == pairs@[i as int]);
        if same_text(pairs[i].0.as_str(), name) {
            return Some(pairs[i].1.clone());
        }
        assert(rest.drop_first() == pairs@.subrange(i + 1, pairs@.len() as int));
        i += 1;
    }
    assert(pairs@.subrange(i as int, pairs@.len() as int).len() == 0);
    None
}

/// The page size that a query asks for: the value named `postsPerPage`, or
/// else the value named `posts_per_page`.
pub open spec fn size_value(query: Seq<(String, String)>) -> Option<Seq<char>> {
    match first_value(query, "postsPerPage"@) {
        Some(value) => Some(value),
        None => first_value(query, "posts_per_page"@),
    }
}

/// The request that a route makes of a query and a submitted form. The
/// listing reads its page number from the query value `page` and its page
/// size from `postsPerPage` or `posts_per_page`; creation and update read
/// the form.
pub open spec fn request_of(
    route: Route,
    query: Seq<(String, String)>,
    title: Option<Seq<char>>,
    text: Option<Seq<char>>,
) -> RequestView {
    match route {
        Route::List => RequestView::List {
            page: first_value(query, "page"@),
            posts_per_page: size_value(query),
        },
        Route::NewForm => RequestView::NewForm,
        Route::Create => RequestView::Create { title, text },
        Route::EditForm { id } => RequestView::EditForm { id: id as int },
        Route::Update { id } => RequestView::Update { id: id as int, title, text },
        Route::Delete { id } => RequestView::Delete { id: id as int },
    }
}

/// The request that `route` makes of the pairs of the query and of the
/// submitted form. A request without a form hands in a form without fields.
pub fn request_for(
    route: Route,
    query: &Vec<(String, String)>,
    form: PostForm,
) -> (request: Request)
    ensures
        request@ == request_of(route, query@, field_view(form.title), field_view(form.text)),
{
    match route {
        Route::List => Request::List {
            page: query_value(query, "page"),
            posts_per_page: match query_value(query, "postsPerPage") {
                Some(value) => Some(value),
                None => query_value(query, "posts_per_page"),
            },
        },
        Route::NewForm => Request::NewForm,
        Route::Create => Request::Create { form },
        Route::EditForm { id } => Request::EditForm { id },
        Route::Update { id } => Request::Update { id, form },
        Route::Delete { id } => Request::Delete { id },
    }
}

} // verus!
