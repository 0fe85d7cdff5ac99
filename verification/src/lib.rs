//! A client library for the InternetData API: the licensed IP intelligence
//! databases, their metadata and their checksums.
//!
//! Start with [`Client::builder`] and an API key carrying the `db.download`
//! scope. The key is optional, and a client built without one (or with an
//! empty one) sends no `Authorization` header at all. The catalog and the
//! files behind it are reached through [`Client::database`].
//!
//! What is decided here, and proved: how a client is configured, which
//! requests it sends, how a refusal is classified, when a failure is retried
//! and after how long, when a transfer counts as whole and a download may
//! replace the file on disk, and the shape rules of a catalog listing.

pub mod catalog;
pub mod client;
pub mod database;
pub mod decimal;
pub mod error;
pub mod models;
pub mod retry;
pub mod transfer;
pub mod vocabulary;

pub use client::{Client, ClientBuilder, DEFAULT_BASE_URL};
pub use database::DatabaseApi;
pub use error::{Error, ErrorKind};
pub use models::{Database, DatabaseVersion};
pub use vocabulary::{DatabaseFormat, Format, LicenseType, Outcome, Standing};
