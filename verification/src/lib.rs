//! A verified model of a server-rendered to-do list.
//!
//! The library holds the application's whole logic: a store of tasks
//! (`task`), the view context handed to the page template (`context`),
//! and the route handlers that decide each request (`routes`). The
//! surrounding web server, database connection and template engine are
//! plain I/O and live outside the library; they hand these functions
//! plain values and carry the results back to the client.

pub mod context;
pub mod routes;
pub mod task;
