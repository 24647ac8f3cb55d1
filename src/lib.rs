//! A small user store over an embedded SQLite database, and the mapping of
//! its results onto the replies of a REST service.

pub mod routes;
pub mod sqlite;
pub mod database;
