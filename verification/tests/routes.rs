use blog_posts::handlers::Request;
use blog_posts::post::PostForm;
use blog_posts::routes::{query_value, request_for, route, Method, Route};

fn pairs(items: &[(&str, &str)]) -> Vec<(String, String)> {
    items.iter().map(|(k, v)| (k.to_string(), v.to_string())).collect()
}

fn no_form() -> PostForm {
    PostForm { title: None, text: None }
}

#[test]
fn root_lists_and_creates() {
    assert_eq!(route(Method::Get, "/"), Some(Route::List));
    assert_eq!(route(Method::Post, "/"), Some(Route::Create));
    assert_eq!(route(Method::Delete, "/"), None);
    assert_eq!(route(Method::Other, "/"), None);
}

#[test]
fn new_shows_the_form() {
    assert_eq!(route(Method::Get, "/new"), Some(Route::NewForm));
    assert_eq!(route(Method::Post, "/new"), None);
    assert_eq!(route(Method::Delete, "/new"), None);
    assert_eq!(route(Method::Get, "/new/"), None);
    assert_eq!(route(Method::Get, "/news"), None);
}

#[test]
fn id_edits_updates_and_deletes() {
    assert_eq!(route(Method::Get, "/42"), Some(Route::EditForm { id: 42 }));
    assert_eq!(route(Method::Post, "/42"), Some(Route::Update { id: 42 }));
    assert_eq!(route(Method::Delete, "/42"), Some(Route::Delete { id: 42 }));
    assert_eq!(route(Method::Other, "/42"), None);
    assert_eq!(route(Method::Get, "/999999"), Some(Route::EditForm { id: 999999 }));
    assert_eq!(route(Method::Get, "/0"), Some(Route::EditForm { id: 0 }));
    assert_eq!(route(Method::Get, "/007"), Some(Route::EditForm { id: 7 }));
    assert_eq!(route(Method::Get, "/2147483647"), Some(Route::EditForm { id: i32::MAX }));
}

#[test]
fn id_delete_deletes_on_post() {
    assert_eq!(route(Method::Post, "/42/delete"), Some(Route::Delete { id: 42 }));
    assert_eq!(route(Method::Post, "/1/delete"), Some(Route::Delete { id: 1 }));
    assert_eq!(route(Method::Get, "/42/delete"), None);
    assert_eq!(route(Method::Delete, "/42/delete"), None);
    assert_eq!(route(Method::Post, "/delete"), None);
    assert_eq!(route(Method::Post, "//delete"), None);
    assert_eq!(route(Method::Post, "/x/delete"), None);
    assert_eq!(route(Method::Post, "/42/delete/"), None);
    assert_eq!(route(Method::Post, "/42/Delete"), None);
}

#[test]
fn other_paths_are_not_served() {
    for path in ["", "42", "/abc", "/-1", "/+1", "/1.5", "/4 2", "/42/", "/42/edit", "/2147483648",
        "/99999999999999999999", "//", "/static/x.css"]
    {
        for method in [Method::Get, Method::Post, Method::Delete, Method::Other] {
            assert_eq!(route(method, path), None, "{:?} {:?}", method, path);
        }
    }
}

#[test]
fn first_value_of_a_name_is_taken() {
    let query = pairs(&[("a", "1"), ("page", "2"), ("page", "3"), ("", "x")]);
    assert_eq!(query_value(&query, "page"), Some("2".to_owned()));
    assert_eq!(query_value(&query, "a"), Some("1".to_owned()));
    assert_eq!(query_value(&query, ""), Some("x".to_owned()));
    assert_eq!(query_value(&query, "pag"), None);
    assert_eq!(query_value(&vec![], "page"), None);
}

#[test]
fn listing_reads_page_and_size_from_the_query() {
    let query = pairs(&[("postsPerPage", "10"), ("page", "3"), ("posts_per_page", "7")]);
    assert_eq!(
        request_for(Route::List, &query, no_form()),
        Request::List { page: Some("3".to_owned()), posts_per_page: Some("10".to_owned()) },
    );
    let query = pairs(&[("posts_per_page", "7"), ("page", "x")]);
    assert_eq!(
        request_for(Route::List, &query, no_form()),
        Request::List { page: Some("x".to_owned()), posts_per_page: Some("7".to_owned()) },
    );
    assert_eq!(
        request_for(Route::List, &vec![], no_form()),
        Request::List { page: None, posts_per_page: None },
    );
}

#[test]
fn other_routes_read_the_form() {
    let form = || PostForm { title: Some("T".to_owned()), text: Some("B".to_owned()) };
    let query = pairs(&[("page", "3")]);
    assert_eq!(request_for(Route::NewForm, &query, form()), Request::NewForm);
    assert_eq!(request_for(Route::Create, &query, form()), Request::Create { form: form() });
    assert_eq!(request_for(Route::EditForm { id: 4 }, &query, form()), Request::EditForm { id: 4 });
    assert_eq!(
        request_for(Route::Update { id: 4 }, &query, form()),
        Request::Update { id: 4, form: form() },
    );
    assert_eq!(request_for(Route::Delete { id: 4 }, &query, form()), Request::Delete { id: 4 });
}

#[test]
fn methods_are_read_from_their_names() {
    assert_eq!(Method::from_name("GET"), Method::Get);
    assert_eq!(Method::from_name("POST"), Method::Post);
    assert_eq!(Method::from_name("DELETE"), Method::Delete);
    assert_eq!(Method::from_name("PUT"), Method::Other);
    assert_eq!(Method::from_name("get"), Method::Other);
    assert_eq!(Method::from_name(""), Method::Other);
}
