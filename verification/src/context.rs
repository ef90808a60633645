//! The context handed to the page template: an optional flash message
//! (its kind and its text) and the list of tasks to render.

use vstd::prelude::*;

use crate::task::Task;

verus! {

/// What the index page is rendered from.
pub struct Context {
    /// A flash message as a (kind, text) pair, if one is to be shown.
    pub msg: Option<(String, String)>,
    /// Every stored task, in order.
    pub tasks: Vec<Task>,
}

impl Context {
    /// A context that shows `msg` as an error above the given tasks.
    pub fn err(tasks: Vec<Task>, msg: &str) -> (c: Context)
        ensures
            c.tasks == tasks,
            c.msg matches Some(p) && p.0@ == "error"@ && p.1@ == msg@,
    {
        Context { msg: Some(("error".to_owned(), msg.to_owned())), tasks }
    }

    /// A context that shows the given flash message, if any, above the
    /// given tasks.
    pub fn raw(tasks: Vec<Task>, msg: Option<(&str, &str)>) -> (c: Context)
        ensures
            c.tasks == tasks,
            match msg {
                Some(p) => c.msg matches Some(q) && q.0@ == p.0@ && q.1@ == p.1@,
                None => c.msg is None,
            },
    {
        match msg {
            Some((kind, text)) => Context {
                msg: Some((kind.to_owned(), text.to_owned())),
                tasks,
            },
            None => Context { msg: None, tasks },
        }
    }
}

} // verus!
