//! The request handlers.
//!
//! A handler never touches the table or the templates itself. It is a
//! function from what is known so far to the next `Step`: a command for the
//! table, a page to render, or the finished response. Whoever runs it
//! performs the step and comes back with the outcome: `begin` looks at the
//! request, `resume` at the table's reply, and `finish` at what rendering
//! gave.

use vstd::prelude::*;
use crate::flash::{flash_view, FlashKind, FlashMessage, FlashView};
use crate::pagination::{requested, resolve, resolved_page, resolved_size, PageLimits};
use crate::post::{judged, PostForm, ValidationError};
use crate::text::{field_view, text_view};
use crate::store::{CommandView, ReplyView, StoreCommand, StoreReply};
use crate::template::{
    edit_bindings,
    edit_template,
    list_bindings,
    list_template,
    new_bindings,
    new_template,
    Datum,
    Page,
};

verus! {

/// A request, as far as the handlers look at it.
#[derive(Debug, PartialEq, Eq)]
pub enum Request {
    /// The listing, with the raw page number and page size of the query.
    List { page: Option<String>, posts_per_page: Option<String> },
    /// The form for a new post.
    NewForm,
    /// The creation of a post from a submitted form.
    Create { form: PostForm },
    /// The form that edits the post with this `id`.
    EditForm { id: i32 },
    /// The update of the post with this `id` from a submitted form.
    Update { id: i32, form: PostForm },
    /// The removal of the post with this `id`.
    Delete { id: i32 },
}

/// A request as a mathematical value.
pub enum RequestView {
    List { page: Option<Seq<char>>, posts_per_page: Option<Seq<char>> },
    NewForm,
    Create { title: Option<Seq<char>>, text: Option<Seq<char>> },
    EditForm { id: int },
    Update { id: int, title: Option<Seq<char>>, text: Option<Seq<char>> },
    Delete { id: int },
}

impl View for Request {
    type V = RequestView;

    open spec fn view(&self) -> RequestView {
        match *self {
            Request::List { page, posts_per_page } => RequestView::List {
                page: field_view(page),
                posts_per_page: field_view(posts_per_page),
            },
            Request::NewForm => RequestView::NewForm,
            Request::Create { form } => RequestView::Create {
                title: field_view(form.title),
                text: field_view(form.text),
            },
            Request::EditForm { id } => RequestView::EditForm { id: id as int },
            Request::Update { id, form } => RequestView::Update {
                id: id as int,
                title: field_view(form.title),
                text: field_view(form.text),
            },
            Request::Delete { id } => RequestView::Delete { id: id as int },
        }
    }
}

/// A finished response.
#[derive(Debug, PartialEq, Eq)]
pub enum Response {
    /// A rendered page: status 200, content type `text/html`.
    Html { body: String },
    /// A redirect that carries a notification: status 303.
    Redirect { location: String, flash: FlashMessage },
    /// No such post: status 404.
    NotFound,
    /// The table or the templates failed: status 500.
    ServerError { message: String },
}

/// A response as a mathematical value.
pub enum ResponseView {
    Html { body: Seq<char> },
    Redirect { location: Seq<char>, flash: FlashView },
    NotFound,
    ServerError { message: Seq<char> },
}

impl ResponseView {
    /// The content type of the response: `text/html` for a page, none for
    /// the rest.
    pub open spec fn content_type(self) -> Option<Seq<char>> {
        match self {
            ResponseView::Html { .. } => Some("text/html"@),
            _ => None,
        }
    }

    /// The HTTP status of the response.
    pub open spec fn status(self) -> int {
        match self {
            ResponseView::Html { .. } => 200,
            ResponseView::Redirect { .. } => 303,
            ResponseView::NotFound => 404,
            ResponseView::ServerError { .. } => 500,
        }
    }
}

impl View for Response {
    type V = ResponseView;

    open spec fn view(&self) -> ResponseView {
        match *self {
            Response::Html { body } => ResponseView::Html { body: body@ },
            Response::Redirect { location, flash } => ResponseView::Redirect {
                location: location@,
                flash: flash@,
            },
            Response::NotFound => ResponseView::NotFound,
            Response::ServerError { message } => ResponseView::ServerError { message: message@ },
        }
    }
}

impl Response {
    /// The content type of the response: `text/html` for a page, none for
    /// the rest.
    pub fn content_type(&self) -> (kind: Option<&'static str>)
        ensures
            text_view(kind) == self@.content_type(),
    {
        match self {
            Response::Html { .. } => Some("text/html"),
            _ => None,
        }
    }

    /// The HTTP status of the response.
    pub fn status(&self) -> (code: u16)
        ensures
            code == self@.status(),
    {
        match self {
            Response::Html { .. } => 200,
            Response::Redirect { .. } => 303,
            Response::NotFound => 404,
            Response::ServerError { .. } => 500,
        }
    }
}

/// What is to be done next for a request.
#[derive(Debug)]
pub enum Step {
    /// Ask the table, and come back with its reply.
    Query(StoreCommand),
    /// Render the page, and come back with the text or without.
    Render(Page),
    /// Send the response.
    Respond(Response),
}

/// A step as a mathematical value.
pub enum StepView {
    Query(CommandView),
    Render { template: Seq<char>, bindings: Map<Seq<char>, Datum> },
    Respond(ResponseView),
}

impl View for Step {
    type V = StepView;

    open spec fn view(&self) -> StepView {
        match *self {
            Step::Query(command) => StepView::Query(command@),
            Step::Render(page) => StepView::Render {
                template: page.template@,
                bindings: page.bindings(),
            },
            Step::Respond(response) => StepView::Respond(response@),
        }
    }
}

/// A redirect to `location` that carries a notification of success.
pub open spec fn success_redirect(location: Seq<char>, message: Seq<char>) -> StepView {
    StepView::Respond(
        ResponseView::Redirect {
            location,
            flash: FlashView { kind: FlashKind::Success, message },
        },
    )
}

/// A redirect to `location` that carries a notification of an error.
pub open spec fn error_redirect(location: Seq<char>, message: Seq<char>) -> StepView {
    StepView::Respond(
        ResponseView::Redirect { location, flash: FlashView { kind: FlashKind::Error, message } },
    )
}

/// The notification that a step hands to the client: the one that a
/// redirect carries, and none with any other step.
pub open spec fn left_by(step: StepView) -> Option<FlashView> {
    match step {
        StepView::Respond(ResponseView::Redirect { flash, .. }) => Some(flash),
        _ => None,
    }
}

/// The response to a request whose table operation failed, or was answered
/// with a reply that no such operation gives.
pub open spec fn storage_failure() -> StepView {
    StepView::Respond(ResponseView::ServerError { message: "Storage Error"@ })
}

/// The window that a listing request resolves to, as an offset and a limit.
pub open spec fn window_of(
    page: Option<Seq<char>>,
    posts_per_page: Option<Seq<char>>,
    limits: PageLimits,
) -> (int, int) {
    let number = resolved_page(requested(page), limits.max_page());
    let size = resolved_size(requested(posts_per_page), limits.default_size(), limits.max_size());
    ((number - 1) * size, size)
}

/// The first step for a request.
///
/// The listing asks the table for the window that the query resolves to;
/// the form for a new post is rendered at once, with the notification that
/// waited for this client; a creation or an update whose form is valid asks
/// the table for it; a creation whose form is not valid is answered with a
/// redirect to the form and the fault as an error notification; an update
/// whose form is not valid asks the table for the post, to show its form
/// again; the edit form and a removal ask the table for the post.
pub open spec fn first_step(
    request: RequestView,
    flash: Option<FlashView>,
    limits: PageLimits,
) -> StepView {
    match request {
        RequestView::List { page, posts_per_page } => StepView::Query(
            CommandView::List {
                offset: window_of(page, posts_per_page, limits).0,
                limit: window_of(page, posts_per_page, limits).1,
            },
        ),
        RequestView::NewForm => StepView::Render {
            template: new_template(),
            bindings: new_bindings(flash),
        },
        RequestView::Create { title, text } => match judged(title, text) {
            Ok((t, b)) => StepView::Query(CommandView::Create { title: t, text: b }),
            Err(fault) => error_redirect("/new"@, fault.sentence()),
        },
        RequestView::EditForm { id } => StepView::Query(CommandView::Find { id }),
        RequestView::Update { id, title, text } => match judged(title, text) {
            Ok((t, b)) => StepView::Query(CommandView::Update { id, title: t, text: b }),
            Err(_) => StepView::Query(CommandView::Find { id }),
        },
        RequestView::Delete { id } => StepView::Query(CommandView::Delete { id }),
    }
}

/// The step that follows the table's reply.
///
/// The listing is rendered from the posts and the total that came back. The
/// edit form is rendered from the post that was found. A creation, an update
/// or a removal that the table confirms is answered with a redirect to `/`
/// and a notification of success, and only then. An update whose form was
/// not valid shows the form of the post again, with the fault as an error
/// notification. `NotFound` from the table gives the response `NotFound`
/// where a post was asked for by its `id`. A creation that the table did not
/// confirm is answered with a redirect to the form and an error
/// notification. Every other reply gives a server error.
pub open spec fn next_step(
    request: RequestView,
    flash: Option<FlashView>,
    limits: PageLimits,
    reply: ReplyView,
) -> StepView {
    match request {
        RequestView::List { page, posts_per_page } => match reply {
            ReplyView::Listed { posts, total } => StepView::Render {
                template: list_template(),
                bindings: list_bindings(
                    posts,
                    resolved_page(requested(page), limits.max_page()),
                    window_of(page, posts_per_page, limits).1,
                    total,
                    flash,
                ),
            },
            _ => storage_failure(),
        },
        RequestView::NewForm => storage_failure(),
        RequestView::Create { title, text } => match judged(title, text) {
            Ok(_) => match reply {
                ReplyView::Created { .. } => success_redirect("/"@, "Post successfully added"@),
                _ => error_redirect("/new"@, "Post could not be saved"@),
            },
            Err(fault) => error_redirect("/new"@, fault.sentence()),
        },
        RequestView::EditForm { id } => match reply {
            ReplyView::Found { post } => StepView::Render {
                template: edit_template(),
                bindings: edit_bindings(post, flash),
            },
            ReplyView::NotFound => StepView::Respond(ResponseView::NotFound),
            _ => storage_failure(),
        },
        RequestView::Update { id, title, text } => match judged(title, text) {
            Ok(_) => match reply {
                ReplyView::Updated { .. } => success_redirect("/"@, "Post successfully updated"@),
                ReplyView::NotFound => StepView::Respond(ResponseView::NotFound),
                _ => storage_failure(),
            },
            Err(fault) => match reply {
                ReplyView::Found { post } => StepView::Render {
                    template: edit_template(),
                    bindings: edit_bindings(
                        post,
                        Some(FlashView { kind: FlashKind::Error, message: fault.sentence() }),
                    ),
                },
                ReplyView::NotFound => StepView::Respond(ResponseView::NotFound),
                _ => storage_failure(),
            },
        },
        RequestView::Delete { id } => match reply {
            ReplyView::Deleted => success_redirect("/"@, "Post successfully deleted"@),
            ReplyView::NotFound => StepView::Respond(ResponseView::NotFound),
            _ => storage_failure(),
        },
    }
}

/// The response after rendering: the page where rendering gave a text, a
/// server error where it failed.
pub open spec fn last_step(rendered: Option<Seq<char>>) -> ResponseView {
    match rendered {
        Some(body) => ResponseView::Html { body },
        None => ResponseView::ServerError { message: "Template Error"@ },
    }
}

/// Whether the request submits a form that is not valid.
pub open spec fn has_faulty_form(request: RequestView) -> bool {
    match request {
        RequestView::Create { title, text } => judged(title, text) is Err,
        RequestView::Update { title, text, .. } => judged(title, text) is Err,
        _ => false,
    }
}

/// A notification of success is given only for a change that the table
/// confirmed: for a creation on `Created`, for an update on `Updated`, for a
/// removal on `Deleted`.
pub proof fn success_needs_confirmation(
    request: RequestView,
    flash: Option<FlashView>,
    limits: PageLimits,
    reply: ReplyView,
)
    ensures
        left_by(next_step(request, flash, limits, reply)) matches Some(f) && f.kind
            == FlashKind::Success ==> {
            ||| request is Create && reply is Created
            ||| request is Update && reply is Updated
            ||| request is Delete && reply is Deleted
        },
{
}

/// A form that is not valid changes nothing: the first step for it is no
/// command that creates, updates or removes a post.
pub proof fn faulty_form_changes_nothing(
    request: RequestView,
    flash: Option<FlashView>,
    limits: PageLimits,
)
    requires
        has_faulty_form(request),
    ensures
        first_step(request, flash, limits) matches StepView::Query(command) ==> command is Find,
{
}

/// Where the table answers `NotFound` to a request for a post by its `id`,
/// the response is `NotFound`, status 404.
pub proof fn missing_post_gives_404(
    request: RequestView,
    flash: Option<FlashView>,
    limits: PageLimits,
)
    requires
        request is EditForm || request is Update || request is Delete,
    ensures
        next_step(request, flash, limits, ReplyView::NotFound) == StepView::Respond(
            ResponseView::NotFound,
        ),
        ResponseView::NotFound.status() == 404,
{
}

/// Emits a notification: gives the redirect to `location` that carries it
/// beside the response, for the next page to show.
pub fn emit(kind: FlashKind, message: &str, location: &str) -> (response: Response)
    ensures
        response@ == (ResponseView::Redirect {
            location: location@,
            flash: FlashView { kind, message: message@ },
        }),
{
    Response::Redirect {
        location: location.to_owned(),
        flash: FlashMessage { kind, message: message.to_owned() },
    }
}

/// A redirect to `location` with a notification of success.
fn redirect_with_success(location: &str, message: &str) -> (step: Step)
    ensures
        step@ == success_redirect(location@, message@),
{
    Step::Respond(emit(FlashKind::Success, message, location))
}

/// A redirect to `location` with a notification of an error.
fn redirect_with_error(location: &str, message: &str) -> (step: Step)
    ensures
        step@ == error_redirect(location@, message@),
{
    Step::Respond(emit(FlashKind::Error, message, location))
}

/// The redirect to the form for a new post that reports a fault of the form.
fn redirect_with_fault(fault: ValidationError) -> (step: Step)
    ensures
        step@ == error_redirect("/new"@, fault.sentence()),
{
    let message = fault.message();
    redirect_with_error("/new", message.as_str())
}

/// The response to a failure of the table.
fn fail_storage() -> (step: Step)
    ensures
        step@ == storage_failure(),
{
    Step::Respond(Response::ServerError { message: "Storage Error".to_owned() })
}

/// The raw text of an optional query value.
fn raw_of(value: &Option<String>) -> (raw: Option<&str>)
    ensures
        text_view(raw) == field_view(*value),
{
    match value {
        Some(s) => Some(s.as_str()),
        None => None,
    }
}

/// Looks at a request and says what to do first.
pub fn begin(request: &Request, flash: &Option<FlashMessage>, limits: &PageLimits) -> (step: Step)
    requires
        limits.wf(),
    ensures
        step@ == first_step(request@, flash_view(*flash), *limits),
{
    match request {
        Request::List { page, posts_per_page } => {
            let window = resolve(raw_of(page), raw_of(posts_per_page), limits);
            Step::Query(StoreCommand::List { offset: window.offset(), limit: window.limit() })
        },
        Request::NewForm => Step::Render(Page::new_form(flash)),
        Request::Create { form } => match form.validate() {
            Ok(draft) => Step::Query(StoreCommand::Create { title: draft.title, text: draft.text }),
            Err(fault) => redirect_with_fault(fault),
        },
        Request::EditForm { id } => Step::Query(StoreCommand::Find { id: *id }),
        Request::Update { id, form } => match form.validate() {
            Ok(draft) => Step::Query(
                StoreCommand::Update { id: *id, title: draft.title, text: draft.text },
            ),
            Err(_) => Step::Query(StoreCommand::Find { id: *id }),
        },
        Request::Delete { id } => Step::Query(StoreCommand::Delete { id: *id }),
    }
}

/// Looks at the table's reply to the command that `begin` gave for this
/// request, and says what to do next: never another command.
pub fn resume(
    request: &Request,
    flash: &Option<FlashMessage>,
    limits: &PageLimits,
    reply: StoreReply,
) -> (step: Step)
    requires
        limits.wf(),
    ensures
        step@ == next_step(request@, flash_view(*flash), *limits, reply@),
        !(step is Query),
{
    match request {
        Request::List { page, posts_per_page } => match reply {
            StoreReply::Listed { posts, total } => {
                let window = resolve(raw_of(page), raw_of(posts_per_page), limits);
                Step::Render(Page::list(&posts, &window, total, flash))
            },
            _ => fail_storage(),
        },
        Request::NewForm => fail_storage(),
        Request::Create { form } => match form.validate() {
            Ok(_) => match reply {
                StoreReply::Created { .. } => redirect_with_success("/", "Post successfully added"),
                _ => redirect_with_error("/new", "Post could not be saved"),
            },
            Err(fault) => redirect_with_fault(fault),
        },
        Request::EditForm { id } => match reply {
            StoreReply::Found { post } => Step::Render(Page::edit_form(&post, flash)),
            StoreReply::NotFound => Step::Respond(Response::NotFound),
            _ => fail_storage(),
        },
        Request::Update { id, form } => match form.validate() {
            Ok(_) => match reply {
                StoreReply::Updated { .. } => redirect_with_success(
                    "/",
                    "Post successfully updated",
                ),
                StoreReply::NotFound => Step::Respond(Response::NotFound),
                _ => fail_storage(),
            },
            Err(fault) => match reply {
                StoreReply::Found { post } => {
                    let shown = Some(
                        FlashMessage { kind: FlashKind::Error, message: fault.message() },
                    );
                    Step::Render(Page::edit_form(&post, &shown))
                },
                StoreReply::NotFound => Step::Respond(Response::NotFound),
                _ => fail_storage(),
            },
        },
        Request::Delete { id } => match reply {
            StoreReply::Deleted => redirect_with_success("/", "Post successfully deleted"),
            StoreReply::NotFound => Step::Respond(Response::NotFound),
            _ => fail_storage(),
        },
    }
}

/// Looks at what rendering gave, the text of the page or nothing, and
/// gives the response.
pub fn finish(rendered: Option<String>) -> (response: Response)
    ensures
        response@ == last_step(field_view(rendered)),
{
    match rendered {
        Some(body) => Response::Html { body },
        None => Response::ServerError { message: "Template Error".to_owned() },
    }
}

} // verus!
