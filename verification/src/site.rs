//! A whole blog in memory: the post table, the page limits, and the
//! handlers run against them, one request at a time.

use vstd::prelude::*;
use crate::flash::{FlashKind, FlashSlot, FlashView};
use crate::handlers::{
    begin,
    first_step,
    has_faulty_form,
    left_by,
    next_step,
    resume,
    success_redirect,
    Request,
    RequestView,
    Response,
    ResponseView,
    Step,
    StepView,
};
use crate::pagination::PageLimits;
use crate::post::{judged, PostView};
use crate::store::{PostStore, Table};
use crate::template::{
    edit_bindings,
    edit_template,
    list_bindings,
    list_template,
    new_bindings,
    new_template,
};

verus! {

/// A blog: its posts and the limits of its listing.
#[derive(Debug)]
pub struct Blog {
    store: PostStore,
    limits: PageLimits,
}

/// What serving a request does to a table and to the notification waiting
/// for the client, and the step it ends in.
///
/// The notification that waited is taken out and handed to the handler.
/// Where the handler first asks the table, the table does what is asked and
/// the handler goes on with the reply. What then waits for the client is
/// what the final step leaves.
pub open spec fn served(
    table: Table,
    waiting: Option<FlashView>,
    request: RequestView,
    limits: PageLimits,
) -> (Table, Option<FlashView>, StepView) {
    let first = first_step(request, waiting, limits);
    match first {
        StepView::Query(command) => {
            let step = next_step(request, waiting, limits, table.on(command).1);
            (table.on(command).0, left_by(step), step)
        },
        _ => (table, left_by(first), first),
    }
}

impl Blog {
    /// The post table of the blog.
    pub closed spec fn table(&self) -> Table {
        self.store@
    }

    /// The limits of the listing.
    pub closed spec fn limits(&self) -> PageLimits {
        self.limits
    }

    /// The table is well-formed and the limits are usable.
    pub open spec fn wf(&self) -> bool {
        self.table().wf() && self.limits().wf()
    }

    /// A blog without posts.
    pub fn new(limits: PageLimits) -> (blog: Blog)
        requires
            limits.wf(),
        ensures
            blog.wf(),
            blog.table() == Table::empty(),
            blog.limits() == limits,
    {
        Blog { store: PostStore::new(), limits }
    }

    /// A blog with the posts of `store`.
    pub fn with_store(store: PostStore, limits: PageLimits) -> (blog: Blog)
        requires
            store.wf(),
            limits.wf(),
        ensures
            blog.wf(),
            blog.table() == store@,
            blog.limits() == limits,
    {
        Blog { store, limits }
    }

    /// The posts of the blog.
    pub fn store(&self) -> (store: &PostStore)
        ensures
            store@ == self.table(),
    {
        &self.store
    }

    /// Serves one request of the client whose notification waits in `slot`.
    /// Ends in a page to render or in a response, never in a command.
    pub fn handle(&mut self, request: &Request, slot: &mut FlashSlot) -> (step: Step)
        requires
            old(self).wf(),
        ensures
            final(self).wf(),
            final(self).limits() == old(self).limits(),
            (final(self).table(), final(slot)@, step@) == served(
                old(self).table(),
                old(slot)@,
                request@,
                old(self).limits(),
            ),
            !(step is Query),
    {
        let shown = slot.consume();
        let first = begin(request, &shown, &self.limits);
        let step = match first {
            Step::Query(command) => {
                proof {
                    self.store@.lemma_on_wf(command@);
                }
                let reply = self.store.execute(command);
                resume(request, &shown, &self.limits, reply)
            },
            other => {
                proof {
                    lemma_first_step_query(request@, old(slot)@, self.limits);
                }
                other
            },
        };
        match &step {
            Step::Respond(Response::Redirect { flash, .. }) => {
                slot.emit(flash.clone());
            },
            _ => {},
        }
        step
    }
}

/// The first step is a command for every request but the form for a new
/// post and a creation whose form is not valid.
pub proof fn lemma_first_step_query(
    request: RequestView,
    flash: Option<FlashView>,
    limits: PageLimits,
)
    ensures
        first_step(request, flash, limits) is Query <==> !(request is NewForm) && !(request
            is Create && has_faulty_form(request)),
{
}

/// A request for the edit form of a post that the table does not hold is
/// answered with `NotFound`, status 404, and changes nothing.
pub proof fn missing_post_is_not_found(
    table: Table,
    waiting: Option<FlashView>,
    id: int,
    limits: PageLimits,
)
    requires
        table.wf(),
        !table.holds(id),
    ensures
        served(table, waiting, RequestView::EditForm { id }, limits) == (
            table,
            None::<FlashView>,
            StepView::Respond(ResponseView::NotFound),
        ),
        ResponseView::NotFound.status() == 404,
{
}

/// A valid creation is answered with a redirect to `/` that carries the
/// notification of success, unless every `id` has been handed out; the
/// listing that the client asks for next is then rendered with the new post
/// first and with that notification.
pub proof fn created_post_is_announced(
    table: Table,
    waiting: Option<FlashView>,
    title: Seq<char>,
    text: Seq<char>,
    limits: PageLimits,
)
    requires
        table.wf(),
        limits.wf(),
        !table.full(),
        judged(Some(title), Some(text)) is Ok,
    ensures
        ({
            let create = RequestView::Create { title: Some(title), text: Some(text) };
            let listing = RequestView::List { page: None, posts_per_page: None };
            let (after, left, step) = served(table, waiting, create, limits);
            let added = FlashView { kind: FlashKind::Success, message: "Post successfully added"@ };
            &&& step == success_redirect("/"@, "Post successfully added"@)
            &&& after == table.created(title, text)
            &&& after.page(0, limits.default_size())[0] == PostView {
                id: table.next_id,
                title,
                text,
            }
            &&& left == Some(added)
            &&& served(after, left, listing, limits).2 == StepView::Render {
                template: list_template(),
                bindings: list_bindings(
                    after.page(0, limits.default_size()),
                    1,
                    limits.default_size(),
                    after.rows.len() as int,
                    Some(added),
                ),
            }
        }),
{
    assert((1 - 1) * limits.default_size() == 0) by (nonlinear_arith);
    limits.lemma_positive();
    table.created_post_is_listed_first(title, text, limits.default_size());
}

/// After a valid update of a post that the table holds, the edit form of
/// that post shows the new title and text.
pub proof fn updated_post_is_shown(
    table: Table,
    waiting: Option<FlashView>,
    id: int,
    title: Seq<char>,
    text: Seq<char>,
    limits: PageLimits,
)
    requires
        table.wf(),
        table.holds(id),
        judged(Some(title), Some(text)) is Ok,
    ensures
        ({
            let update = RequestView::Update { id, title: Some(title), text: Some(text) };
            let (after, left, step) = served(table, waiting, update, limits);
            &&& step == success_redirect("/"@, "Post successfully updated"@)
            &&& served(after, left, RequestView::EditForm { id }, limits).2 == StepView::Render {
                template: edit_template(),
                bindings: edit_bindings(PostView { id, title, text }, left),
            }
        }),
{
    table.updated_post_is_found(id, title, text);
}

/// A notification is handed to the one request that follows it and to no
/// other: whatever request is served while it waits, the table and what
/// waits for the client afterwards are as if nothing had waited, and what
/// waits afterwards is only what the response to that request carries.
pub proof fn notification_is_shown_once(
    table: Table,
    flash: FlashView,
    request: RequestView,
    limits: PageLimits,
)
    ensures
        served(table, Some(flash), request, limits).0 == served(table, None, request, limits).0,
        served(table, Some(flash), request, limits).1 == served(table, None, request, limits).1,
        served(table, Some(flash), request, limits).1 == left_by(
            served(table, Some(flash), request, limits).2,
        ),
{
}

/// The form for a new post shows the notification that waited, and the same
/// form asked for again shows none.
pub proof fn notification_is_gone_after_its_page(table: Table, flash: FlashView, limits: PageLimits)
    ensures
        ({
            let (after, left, step) = served(table, Some(flash), RequestView::NewForm, limits);
            &&& step == StepView::Render {
                template: new_template(),
                bindings: new_bindings(Some(flash)),
            }
            &&& left is None
            &&& served(after, left, RequestView::NewForm, limits).2 == StepView::Render {
                template: new_template(),
                bindings: new_bindings(None),
            }
        }),
{
}

} // verus!
