//! What the pages are rendered from.
//!
//! A page is the name of a template and the context it is rendered against.
//! The context is a `tera::Context`, and what is bound in it are JSON values
//! as the template engine takes them. This module states what such a value
//! and such a context hold, as a `Datum` and as a map from names to data,
//! and builds the contexts of the three pages. Rendering itself is left to
//! the caller, who owns the compiled templates.

use vstd::prelude::*;
use crate::flash::{flash_view, FlashMessage, FlashView};
use crate::pagination::{pages_needed, PageRequest};
use crate::post::{Post, PostView};
use crate::store::views_of;

verus! {

/// What a JSON value holds, as far as the pages use JSON: whole numbers,
/// texts, lists, and records with named fields. `Other` stands for every
/// value of another kind.
pub enum Datum {
    Number(int),
    Text(Seq<char>),
    List(Seq<Datum>),
    Record(Map<Seq<char>, Datum>),
    Other,
}

/// A JSON value: `serde_json::Value`, which `tera` hands on as `tera::Value`.
/// Nothing inside it is seen here; `value_datum` says what it holds.
#[verifier::external_type_specification]
#[verifier::external_body]
pub struct ExValue(tera::Value);

/// The fields of a JSON object: `serde_json::Map`, which `tera` hands on as
/// `tera::Map`. `record_fields` says what it holds.
#[verifier::external_type_specification]
#[verifier::external_body]
#[verifier::reject_recursive_types(K)]
#[verifier::reject_recursive_types(V)]
pub struct ExFields<K, V>(tera::Map<K, V>);

/// The context that a template is rendered against: `tera::Context`.
/// `context_bindings` says what it holds.
#[verifier::external_type_specification]
#[verifier::external_body]
pub struct ExContext(tera::Context);

/// What a JSON value holds: a whole number for `Value::Number` of an
/// integer, a text for `Value::String`, a list for `Value::Array`, a record
/// for `Value::Object`, and `Other` for the rest.
pub uninterp spec fn value_datum(value: tera::Value) -> Datum;

/// The fields that a JSON object holds, each with what its value holds.
pub uninterp spec fn record_fields(fields: tera::Map<String, tera::Value>) -> Map<Seq<char>, Datum>;

/// The names bound in a context, each with what its value holds.
pub uninterp spec fn context_bindings(context: tera::Context) -> Map<Seq<char>, Datum>;

/// `tera::Value::from` on an `i64`: gives the JSON number `n`.
#[verifier::external_body]
fn integer_value(n: i64) -> (value: tera::Value)
    ensures
        value_datum(value) == Datum::Number(n as int),
{
    tera::Value::from(n)
}

/// `tera::Value::from` on a `u64`: gives the JSON number `n`.
#[verifier::external_body]
fn count_value(n: u64) -> (value: tera::Value)
    ensures
        value_datum(value) == Datum::Number(n as int),
{
    tera::Value::from(n)
}

/// `tera::Value::from` on a `&str`: gives the JSON string with the
/// characters of `s`.
#[verifier::external_body]
fn text_value(s: &str) -> (value: tera::Value)
    ensures
        value_datum(value) == Datum::Text(s@),
{
    tera::Value::from(s)
}

/// `tera::Value::Array`: gives the JSON array of `items`, in their order.
#[verifier::external_body]
fn list_value(items: Vec<tera::Value>) -> (value: tera::Value)
    ensures
        value_datum(value) == Datum::List(items@.map_values(|item: tera::Value| value_datum(item))),
{
    tera::Value::Array(items)
}

/// `tera::Map::new`: gives the fields of a JSON object, none yet.
#[verifier::external_body]
fn empty_fields() -> (fields: tera::Map<String, tera::Value>)
    ensures
        record_fields(fields) == (Map::<Seq<char>, Datum>::empty()),
{
    tera::Map::new()
}

/// `tera::Map::insert`: sets the field `name` to `value`, in place of the
/// value it had if it was there, and leaves the other fields as they are.
#[verifier::external_body]
fn put_field(fields: &mut tera::Map<String, tera::Value>, name: &str, value: tera::Value)
    ensures
        record_fields(*final(fields)) == record_fields(*old(fields)).insert(
            name@,
            value_datum(value),
        ),
{
    fields.insert(name.to_owned(), value);
}

/// `tera::Value::Object`: gives the JSON object with these fields.
#[verifier::external_body]
fn record_value(fields: tera::Map<String, tera::Value>) -> (value: tera::Value)
    ensures
        value_datum(value) == Datum::Record(record_fields(fields)),
{
    tera::Value::Object(fields)
}

/// `tera::Context::new`: gives a context in which nothing is bound.
#[verifier::external_body]
fn empty_context() -> (context: tera::Context)
    ensures
        context_bindings(context) == (Map::<Seq<char>, Datum>::empty()),
{
    tera::Context::new()
}

/// `tera::Context::insert` on a JSON value: binds `name` to `value`, in
/// place of what it was bound to if it was, and leaves the other names as
/// they are. `insert` serialises what it is given into a JSON value, which
/// for a JSON value gives that value and does not fail.
#[verifier::external_body]
fn bind(context: &mut tera::Context, name: &str, value: &tera::Value)
    ensures
        context_bindings(*final(context)) == context_bindings(*old(context)).insert(
            name@,
            value_datum(*value),
        ),
{
    context.insert(name, value);
}

/// The record that a template sees for a post: its `id`, `title` and `text`.
pub open spec fn post_datum(post: PostView) -> Datum {
    Datum::Record(
        Map::<Seq<char>, Datum>::empty().insert("id"@, Datum::Number(post.id)).insert(
            "title"@,
            Datum::Text(post.title),
        ).insert("text"@, Datum::Text(post.text)),
    )
}

/// The list that a template sees for a sequence of posts.
pub open spec fn posts_datum(posts: Seq<PostView>) -> Datum {
    Datum::List(posts.map_values(|post: PostView| post_datum(post)))
}

/// The record that a template sees for a notification: the word for its
/// `kind`, and its `message`.
pub open spec fn flash_datum(flash: FlashView) -> Datum {
    Datum::Record(
        Map::<Seq<char>, Datum>::empty().insert("kind"@, Datum::Text(flash.kind.word())).insert(
            "message"@,
            Datum::Text(flash.message),
        ),
    )
}

/// The JSON object for a post.
pub fn post_value(post: &Post) -> (value: tera::Value)
    ensures
        value_datum(value) == post_datum(post@),
{
    let mut fields = empty_fields();
    put_field(&mut fields, "id", integer_value(post.id as i64));
    put_field(&mut fields, "title", text_value(post.title.as_str()));
    put_field(&mut fields, "text", text_value(post.text.as_str()));
    record_value(fields)
}

/// The JSON array for a sequence of posts, in their order.
pub fn posts_value(posts: &Vec<Post>) -> (value: tera::Value)
    ensures
        value_datum(value) == posts_datum(views_of(posts@)),
{
    let mut items: Vec<tera::Value> = Vec::new();
    let mut i: usize = 0;
    while i < posts.len()
        invariant
            i <= posts.len(),
            items@.len() == i,
            forall|j: int|
                0 <= j < i ==> value_datum(#[trigger] items@[j]) == post_datum(posts@[j]@),
        decreases posts.len() - i,
    {
        items.push(post_value(&posts[i]));
        i += 1;
    }
    assert(items@.map_values(|item: tera::Value| value_datum(item)) =~= views_of(posts@).map_values(
        |post: PostView| post_datum(post),
    ));
    list_value(items)
}

/// The JSON object for a notification.
pub fn flash_value(flash: &FlashMessage) -> (value: tera::Value)
    ensures
        value_datum(value) == flash_datum(flash@),
{
    let mut fields = empty_fields();
    put_field(&mut fields, "kind", text_value(flash.kind.name()));
    put_field(&mut fields, "message", text_value(flash.message.as_str()));
    record_value(fields)
}

/// A page to render: the name of its template, and the context to render it
/// against.
#[derive(Debug)]
pub struct Page {
    pub template: String,
    pub context: tera::Context,
}

/// The template of the post listing.
pub open spec fn list_template() -> Seq<char> {
    "index.html.tera"@
}

/// The template of the form for a new post.
pub open spec fn new_template() -> Seq<char> {
    "new.html.tera"@
}

/// The template of the form that edits a post.
pub open spec fn edit_template() -> Seq<char> {
    "edit.html.tera"@
}

/// `bindings`, and under `flash` the notification to show, if there is one.
pub open spec fn with_flash(bindings: Map<Seq<char>, Datum>, flash: Option<FlashView>) -> Map<
    Seq<char>,
    Datum,
> {
    match flash {
        Some(f) => bindings.insert("flash"@, flash_datum(f)),
        None => bindings,
    }
}

/// What the listing is rendered against: the posts of the window under
/// `posts`, the window's page number under `page` and its size under
/// `posts_per_page`, the number of pages that all posts fill under
/// `num_pages`, and the notification, if there is one, under `flash`.
pub open spec fn list_bindings(
    posts: Seq<PostView>,
    page: int,
    size: int,
    total: int,
    flash: Option<FlashView>,
) -> Map<Seq<char>, Datum> {
    with_flash(
        Map::<Seq<char>, Datum>::empty().insert("posts"@, posts_datum(posts)).insert(
            "page"@,
            Datum::Number(page),
        ).insert("posts_per_page"@, Datum::Number(size)).insert(
            "num_pages"@,
            Datum::Number(pages_needed(total, size)),
        ),
        flash,
    )
}

/// What the form for a new post is rendered against: the notification, if
/// there is one, under `flash`.
pub open spec fn new_bindings(flash: Option<FlashView>) -> Map<Seq<char>, Datum> {
    with_flash(Map::<Seq<char>, Datum>::empty(), flash)
}

/// What the form that edits a post is rendered against: the post under
/// `post`, and the notification, if there is one, under `flash`.
pub open spec fn edit_bindings(post: PostView, flash: Option<FlashView>) -> Map<Seq<char>, Datum> {
    with_flash(Map::<Seq<char>, Datum>::empty().insert("post"@, post_datum(post)), flash)
}

impl Page {
    /// What the context of this page binds.
    pub open spec fn bindings(self) -> Map<Seq<char>, Datum> {
        context_bindings(self.context)
    }

    /// Binds the notification, if there is one, under `flash`.
    fn bind_flash(context: &mut tera::Context, flash: &Option<FlashMessage>)
        ensures
            context_bindings(*final(context)) == with_flash(
                context_bindings(*old(context)),
                flash_view(*flash),
            ),
    {
        match flash {
            Some(f) => {
                let value = flash_value(f);
                bind(context, "flash", &value);
            },
            None => {},
        }
    }

    /// The listing of the posts of one window, out of `total` posts in all.
    pub fn list(
        posts: &Vec<Post>,
        window: &PageRequest,
        total: u64,
        flash: &Option<FlashMessage>,
    ) -> (page: Page)
        requires
            window.wf(),
        ensures
            page.template@ == list_template(),
            page.bindings() == list_bindings(
                views_of(posts@),
                window.page_number(),
                window.size(),
                total as int,
                flash_view(*flash),
            ),
    {
        let mut context = empty_context();
        let listed = posts_value(posts);
        bind(&mut context, "posts", &listed);
        let number = count_value(window.page());
        bind(&mut context, "page", &number);
        let size = count_value(window.posts_per_page());
        bind(&mut context, "posts_per_page", &size);
        let pages = count_value(window.page_count(total));
        bind(&mut context, "num_pages", &pages);
        Page::bind_flash(&mut context, flash);
        Page { template: "index.html.tera".to_owned(), context }
    }

    /// The form for a new post.
    pub fn new_form(flash: &Option<FlashMessage>) -> (page: Page)
        ensures
            page.template@ == new_template(),
            page.bindings() == new_bindings(flash_view(*flash)),
    {
        let mut context = empty_context();
        Page::bind_flash(&mut context, flash);
        Page { template: "new.html.tera".to_owned(), context }
    }

    /// The form that edits `post`.
    pub fn edit_form(post: &Post, flash: &Option<FlashMessage>) -> (page: Page)
        ensures
            page.template@ == edit_template(),
            page.bindings() == edit_bindings(post@, flash_view(*flash)),
    {
        let mut context = empty_context();
        let value = post_value(post);
        bind(&mut context, "post", &value);
        Page::bind_flash(&mut context, flash);
        Page { template: "edit.html.tera".to_owned(), context }
    }
}

} // verus!
