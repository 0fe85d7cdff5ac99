//! The shapes of a database family and its versions, as the listing serves
//! them.

use vstd::prelude::*;

use crate::vocabulary::{DatabaseFormat, LicenseType, Standing};

verus! {

/// One published version of a database family: the id a download, a checksum
/// or a metadata call takes, and the formats it is built in.
#[derive(Clone, Debug)]
pub struct DatabaseVersion {
    pub id: String,
    pub version: i64,
    pub summary: String,
    pub formats: Vec<DatabaseFormat>,
}

/// One database family and where the caller's organization stands with it.
/// A licence covers the family; a download names one of its `versions`.
#[derive(Clone, Debug)]
pub struct Database {
    pub base: String,
    pub name: String,
    pub summary: String,
    pub standing: Standing,
    /// What the licence lets the holder do; `None` when there is no licence.
    pub license_type: Option<LicenseType>,
    pub starts: Option<String>,
    pub expires: Option<String>,
    pub versions: Vec<DatabaseVersion>,
}

} // verus!
