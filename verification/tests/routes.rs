use todo::context::Context;
use todo::routes;
use todo::routes::FlashKind;
use todo::task::{TaskList, Todo};

#[test]
fn new_rejects_an_empty_description() {
    let mut store = TaskList::new();
    let flash = routes::new(&mut store, Todo { description: "".to_string() });
    assert!(flash.kind == FlashKind::Error);
    assert_eq!(flash.message, "Description cannot be empty.");
    assert_eq!(flash.redirect.to, "/");
    assert!(store.all().is_empty());
}

#[test]
fn new_stores_a_task() {
    let mut store = TaskList::new();
    let flash = routes::new(&mut store, Todo { description: "water plants".to_string() });
    assert!(flash.kind == FlashKind::Success);
    assert_eq!(flash.message, "Todo successfully added.");
    assert_eq!(flash.redirect.to, "/");
    let rows = store.all();
    assert_eq!(rows.len(), 1);
    assert_eq!(rows[0].description, "water plants");
    assert!(!rows[0].completed);
}

#[test]
fn toggle_redirects_home_on_success() {
    let mut store = TaskList::new();
    routes::new(&mut store, Todo { description: "a".to_string() });
    let id = store.all()[0].id;
    match routes::toggle(&mut store, id) {
        Ok(redirect) => assert_eq!(redirect.to, "/"),
        Err(_) => panic!("toggling an existing task must succeed"),
    }
    assert!(store.all()[0].completed);
}

#[test]
fn toggle_unknown_id_renders_an_error() {
    let mut store = TaskList::new();
    routes::new(&mut store, Todo { description: "a".to_string() });
    let id = store.all()[0].id;
    match routes::toggle(&mut store, id + 1) {
        Ok(_) => panic!("toggling a missing task must fail"),
        Err(template) => {
            assert_eq!(template.name, "index");
            let (kind, text) = template.context.msg.expect("an error message is shown");
            assert_eq!(kind, "error");
            assert_eq!(text, "Couldn't toggle task.");
            assert_eq!(template.context.tasks.len(), 1);
            assert_eq!(template.context.tasks[0].description, "a");
        }
    }
    assert!(!store.all()[0].completed);
}

#[test]
fn delete_reports_success() {
    let mut store = TaskList::new();
    routes::new(&mut store, Todo { description: "a".to_string() });
    let id = store.all()[0].id;
    match routes::delete(&mut store, id) {
        Ok(flash) => {
            assert!(flash.kind == FlashKind::Success);
            assert_eq!(flash.message, "Todo was deleted.");
            assert_eq!(flash.redirect.to, "/");
        }
        Err(_) => panic!("deleting an existing task must succeed"),
    }
    assert!(store.all().is_empty());
}

#[test]
fn delete_unknown_id_renders_an_error() {
    let mut store = TaskList::new();
    routes::new(&mut store, Todo { description: "a".to_string() });
    let id = store.all()[0].id;
    match routes::delete(&mut store, id + 5) {
        Ok(_) => panic!("deleting a missing task must fail"),
        Err(template) => {
            assert_eq!(template.name, "index");
            let (kind, text) = template.context.msg.expect("an error message is shown");
            assert_eq!(kind, "error");
            assert_eq!(text, "Couldn't delete task.");
            assert_eq!(template.context.tasks.len(), 1);
        }
    }
    assert_eq!(store.all().len(), 1);
}

#[test]
fn index_renders_tasks_and_flash() {
    let mut store = TaskList::new();
    routes::new(&mut store, Todo { description: "a".to_string() });
    routes::new(&mut store, Todo { description: "b".to_string() });
    let template = routes::index(&store, Some(("success", "Todo successfully added.")));
    assert_eq!(template.name, "index");
    let (kind, text) = template.context.msg.expect("the flash is shown");
    assert_eq!(kind, "success");
    assert_eq!(text, "Todo successfully added.");
    assert_eq!(template.context.tasks.len(), 2);
    assert_eq!(template.context.tasks[0].description, "a");
    assert_eq!(template.context.tasks[1].description, "b");
}

#[test]
fn index_without_a_flash_shows_none() {
    let store = TaskList::new();
    let template = routes::index(&store, None);
    assert_eq!(template.name, "index");
    assert!(template.context.msg.is_none());
    assert!(template.context.tasks.is_empty());
}

#[test]
fn context_err_marks_the_message_as_an_error() {
    let store = TaskList::new();
    let context = Context::err(store.all(), "Whoops! The server failed.");
    let (kind, text) = context.msg.expect("the message is kept");
    assert_eq!(kind, "error");
    assert_eq!(text, "Whoops! The server failed.");
    assert!(context.tasks.is_empty());
}

#[test]
fn context_raw_keeps_the_message_as_given() {
    let mut store = TaskList::new();
    routes::new(&mut store, Todo { description: "a".to_string() });
    let context = Context::raw(store.all(), Some(("success", "done")));
    let (kind, text) = context.msg.expect("the message is kept");
    assert_eq!(kind, "success");
    assert_eq!(text, "done");
    assert_eq!(context.tasks.len(), 1);

    let none = Context::raw(store.all(), None);
    assert!(none.msg.is_none());
}
