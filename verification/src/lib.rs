//! An in-memory to-do list rendered as HTML fragments for an htmx front end.
//!
//! The store ([`state::AppState`]) holds the items and hands out identifiers.
//! The renderer ([`render`]) turns items and counts into markup. The handlers
//! ([`handlers`]) tie one request to one transition of the store and one
//! response. [`model`] and [`markup`] say what all of these mean.

pub mod decimal;
pub mod error;
pub mod handlers;
pub mod markup;
pub mod model;
pub mod render;
pub mod state;
pub mod todo;
