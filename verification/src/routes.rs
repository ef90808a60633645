//! The decisions behind the application's routes.
//!
//! Each function here is the whole logic of one route: it takes the
//! store and the request's plain values, performs the one row operation
//! the route asks for, and says exactly which response goes back. The
//! web server parses the request before the call and carries the
//! redirect, flash message or rendered template afterwards.

use vstd::prelude::*;

use crate::context::Context;
use crate::task::{contains_id, deleted_one, inserted_one, toggled_one, TaskList, Todo};

verus! {

/// Where a response sends the client next.
pub struct Redirect {
    /// The path redirected to.
    pub to: &'static str,
}

/// Whether a flash message reports success or an error.
#[derive(Clone, Copy, Debug, PartialEq, Eq, Structural)]
pub enum FlashKind {
    /// The request did what it asked.
    Success,
    /// The request was rejected or failed.
    Error,
}

/// A redirect carrying a one-shot message for the next page.
pub struct Flash {
    /// Success or error.
    pub kind: FlashKind,
    /// Where to go next.
    pub redirect: Redirect,
    /// The message to show there.
    pub message: &'static str,
}

/// A named template together with the context it is rendered from.
pub struct Template {
    /// The template's name.
    pub name: &'static str,
    /// What it is rendered from.
    pub context: Context,
}

/// Creating a task: an empty description is rejected; otherwise the
/// task is stored, and the one failure the store knows (no fresh
/// identifier left) is reported as a server failure. Every outcome
/// redirects home with a flash message saying what happened.
pub fn new(store: &mut TaskList, todo: Todo) -> (f: Flash)
    requires
        old(store).wf(),
    ensures
        final(store).wf(),
        f.redirect.to@ == "/"@,
        todo.description@.len() == 0 ==> *final(store) == *old(store) && f.kind
            == FlashKind::Error && f.message@ == "Description cannot be empty."@,
        todo.description@.len() > 0 && old(store).can_insert() ==> f.kind == FlashKind::Success
            && f.message@ == "Todo successfully added."@ && inserted_one(
            old(store)@,
            final(store)@,
            todo.description@,
        ),
        todo.description@.len() > 0 && !old(store).can_insert() ==> *final(store) == *old(store)
            && f.kind == FlashKind::Error && f.message@ == "Whoops! The server failed."@,
{
    if todo.description.as_str().is_empty() {
        Flash {
            kind: FlashKind::Error,
            redirect: Redirect { to: "/" },
            message: "Description cannot be empty.",
        }
    } else if store.insert(todo) {
        Flash {
            kind: FlashKind::Success,
            redirect: Redirect { to: "/" },
            message: "Todo successfully added.",
        }
    } else {
        Flash {
            kind: FlashKind::Error,
            redirect: Redirect { to: "/" },
            message: "Whoops! The server failed.",
        }
    }
}

/// Toggling a task: the row carrying `id` has its completion flag
/// flipped and the client is sent home; when no row carries `id` the
/// store is untouched and the index page is rendered again with an
/// error message above the unchanged tasks.
pub fn toggle(store: &mut TaskList, id: i32) -> (r: Result<Redirect, Template>)
    requires
        old(store).wf(),
    ensures
        final(store).wf(),
        final(store).can_insert() == old(store).can_insert(),
        contains_id(old(store)@, id) ==> toggled_one(old(store)@, final(store)@, id) && (
        r matches Ok(d) && d.to@ == "/"@),
        !contains_id(old(store)@, id) ==> final(store)@ == old(store)@ && (r matches Err(t)
            && t.name@ == "index"@ && t.context.tasks@ == old(store)@ && (
        t.context.msg matches Some(p) && p.0@ == "error"@ && p.1@ == "Couldn't toggle task."@)),
{
    if store.toggle_with_id(id) {
        Ok(Redirect { to: "/" })
    } else {
        Err(
            Template {
                name: "index",
                context: Context::err(store.all(), "Couldn't toggle task."),
            },
        )
    }
}

/// Deleting a task: the row carrying `id` is removed and the client is
/// sent home with a success flash; when no row carries `id` the store
/// is untouched and the index page is rendered again with an error
/// message above the unchanged tasks.
pub fn delete(store: &mut TaskList, id: i32) -> (r: Result<Flash, Template>)
    requires
        old(store).wf(),
    ensures
        final(store).wf(),
        final(store).can_insert() == old(store).can_insert(),
        contains_id(old(store)@, id) ==> deleted_one(old(store)@, final(store)@, id) && (
        r matches Ok(f) && f.kind == FlashKind::Success && f.redirect.to@ == "/"@ && f.message@
            == "Todo was deleted."@),
        !contains_id(old(store)@, id) ==> final(store)@ == old(store)@ && (r matches Err(t)
            && t.name@ == "index"@ && t.context.tasks@ == old(store)@ && (
        t.context.msg matches Some(p) && p.0@ == "error"@ && p.1@ == "Couldn't delete task."@)),
{
    if store.delete_with_id(id) {
        Ok(
            Flash {
                kind: FlashKind::Success,
                redirect: Redirect { to: "/" },
                message: "Todo was deleted.",
            },
        )
    } else {
        Err(
            Template {
                name: "index",
                context: Context::err(store.all(), "Couldn't delete task."),
            },
        )
    }
}

/// The index page: renders the `index` template from the stored tasks,
/// showing the flash message the request carried, if any.
pub fn index(store: &TaskList, msg: Option<(&str, &str)>) -> (t: Template)
    ensures
        t.name@ == "index"@,
        t.context.tasks@ == store@,
        match msg {
            Some(p) => t.context.msg matches Some(q) && q.0@ == p.0@ && q.1@ == p.1@,
            None => t.context.msg is None,
        },
{
    Template { name: "index", context: Context::raw(store.all(), msg) }
}

} // verus!
