//! The backend family that a connection string addresses.

use vstd::prelude::*;
use crate::text::{has_prefix, starts_with};

verus! {

/// A database engine reached through a URL-style connection string.
#[derive(Debug, Clone, Copy, PartialEq, Eq, Structural)]
pub enum Backend {
    MySql,
    Postgres,
    Sqlite,
}

/// The engine that a connection string names by its scheme, if any.
pub open spec fn backend_of(url: Seq<char>) -> Option<Backend> {
    if has_prefix(url, "mysql://"@) {
        Some(Backend::MySql)
    } else if has_prefix(url, "postgres://"@) {
        Some(Backend::Postgres)
    } else if has_prefix(url, "sqlite://"@) {
        Some(Backend::Sqlite)
    } else {
        None
    }
}

impl Backend {
    /// The engine named by the scheme of `url`: `mysql://`, `postgres://`
    /// or `sqlite://`; `None` for any other string.
    pub fn from_url(url: &str) -> (r: Option<Backend>)
        ensures
            r == backend_of(url@),
    {
        if starts_with(url, "mysql://") {
            Some(Backend::MySql)
        } else if starts_with(url, "postgres://") {
            Some(Backend::Postgres)
        } else if starts_with(url, "sqlite://") {
            Some(Backend::Sqlite)
        } else {
            None
        }
    }
}

} // verus!
