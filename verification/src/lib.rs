//! A small tracking library for fermentation projects ("kombuchas") and their
//! journal entries, written as a verified model of a relational store exposed
//! through a typed request/response API.
//!
//! The `App` type holds the authoritative table rows (kombuchas and their
//! entries) together with the id sequences a relational database would keep;
//! every operation of the data-access layer is specified exactly over a
//! mathematical view of that state. The routing and handler layers map typed
//! requests onto those operations. An unverified shell around this crate does
//! the HTTP and JSON work and hands plain values in and out.
pub mod db;
pub mod decimal;
pub mod entry;
pub mod fermentation;
pub mod fermentation_status;
pub mod handlers;
pub mod id;
pub mod kombucha;
pub mod laws;
pub mod routes;
pub mod store;
pub mod strutil;

pub use crate::entry::Entry;
pub use crate::fermentation::Fermentation;
pub use crate::fermentation_status::FermentationStatus;
pub use crate::handlers::Response;
pub use crate::id::EntryId;
pub use crate::id::FermentationId;
pub use crate::id::KombuchaId;
pub use crate::kombucha::Kombucha;
pub use crate::routes::Method;
pub use crate::routes::Route;
pub use crate::store::App;
pub use crate::store::StoreError;
