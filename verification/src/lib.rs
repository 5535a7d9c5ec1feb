//! The core of a small server-rendered blog.
//!
//! Posts have a title and a text and live in a table that hands out their
//! `id`. Five pages and actions work on them: the listing, the form for a
//! new post and its creation, the form that edits a post and its update, and
//! the removal. After an action the browser is redirected and the next page
//! shows a notification, once.
//!
//! - `post`: the post, and the validation of a submitted form.
//! - `pagination`: the window of the listing, from raw query values.
//! - `store`: the post table as a mathematical value, its operations, and a
//!   table held in memory.
//! - `flash`: the notification and the slot in which it waits.
//! - `template`: the pages and what their templates are rendered against.
//! - `handlers`: the handlers, as steps between the request, the table and
//!   the templates.
//! - `routes`: the paths and methods under which the handlers are served.
//! - `site`: a whole blog in memory.
//! - `text`: helpers on strings.
//!
//! Every function is verified against its contract, but for the few in
//! `template` that call the template engine's own functions and state what
//! those do. The contracts speak of mathematical values: a `String` is its
//! sequence of characters, a `Post` its `PostView`, the table a `Table`.

pub mod flash;
pub mod handlers;
pub mod pagination;
pub mod post;
pub mod routes;
pub mod site;
pub mod store;
pub mod template;
pub mod text;
