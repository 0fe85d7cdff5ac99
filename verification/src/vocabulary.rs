//! The API's closed vocabularies. Each arrives as a string on the wire and is
//! an enum here; `as_str` is the wire spelling, which is not the variant name.

use vstd::prelude::*;

verus! {

/// A format a database version is built in.
#[derive(Clone, Copy, Debug, PartialEq, Eq, Hash, Structural)]
pub enum DatabaseFormat {
    Csvgz,
    Mmdb,
}

/// The format a single file is asked for in (a checksum or a download). The
/// API spells the same two formats twice, so the crate carries two enums and a
/// conversion each way.
#[derive(Clone, Copy, Debug, PartialEq, Eq, Hash, Structural)]
pub enum Format {
    Csvgz,
    Mmdb,
}

/// Where an organization stands with one database family.
#[derive(Clone, Copy, Debug, PartialEq, Eq, Hash, Structural)]
pub enum Standing {
    Licensed,
    Expired,
    Unlicensed,
}

/// What a licence lets its holder do with the data.
#[derive(Clone, Copy, Debug, PartialEq, Eq, Hash, Structural)]
pub enum LicenseType {
    Evaluation,
    Standard,
    Redistribute,
}

/// How one download attempt ended.
#[derive(Clone, Copy, Debug, PartialEq, Eq, Hash, Structural)]
pub enum Outcome {
    Success,
    Unauthorized,
    Denied,
    Expired,
    Unknown,
    Unavailable,
}

impl DatabaseFormat {
    pub open spec fn wire(self) -> Seq<char> {
        match self {
            DatabaseFormat::Csvgz => "csvgz"@,
            DatabaseFormat::Mmdb => "mmdb"@,
        }
    }

    /// The spelling the API uses, which is not the Rust variant name.
    pub fn as_str(self) -> (spelling: &'static str)
        ensures
            spelling@ == self.wire(),
    {
        match self {
            DatabaseFormat::Csvgz => "csvgz",
            DatabaseFormat::Mmdb => "mmdb",
        }
    }
}

impl Format {
    pub open spec fn wire(self) -> Seq<char> {
        match self {
            Format::Csvgz => "csvgz"@,
            Format::Mmdb => "mmdb"@,
        }
    }

    /// The spelling the API uses, which is not the Rust variant name.
    pub fn as_str(self) -> (spelling: &'static str)
        ensures
            spelling@ == self.wire(),
    {
        match self {
            Format::Csvgz => "csvgz",
            Format::Mmdb => "mmdb",
        }
    }
}

impl Standing {
    pub open spec fn wire(self) -> Seq<char> {
        match self {
            Standing::Licensed => "licensed"@,
            Standing::Expired => "expired"@,
            Standing::Unlicensed => "unlicensed"@,
        }
    }

    /// The spelling the API uses, which is not the Rust variant name.
    pub fn as_str(self) -> (spelling: &'static str)
        ensures
            spelling@ == self.wire(),
    {
        match self {
            Standing::Licensed => "licensed",
            Standing::Expired => "expired",
            Standing::Unlicensed => "unlicensed",
        }
    }
}

impl LicenseType {
    pub open spec fn wire(self) -> Seq<char> {
        match self {
            LicenseType::Evaluation => "evaluation"@,
            LicenseType::Standard => "standard"@,
            LicenseType::Redistribute => "redistribute"@,
        }
    }

    /// The spelling the API uses, which is not the Rust variant name.
    pub fn as_str(self) -> (spelling: &'static str)
        ensures
            spelling@ == self.wire(),
    {
        match self {
            LicenseType::Evaluation => "evaluation",
            LicenseType::Standard => "standard",
            LicenseType::Redistribute => "redistribute",
        }
    }
}

impl Outcome {
    pub open spec fn wire(self) -> Seq<char> {
        match self {
            Outcome::Success => "ok"@,
            Outcome::Unauthorized => "unauthorized"@,
            Outcome::Denied => "denied"@,
            Outcome::Expired => "expired"@,
            Outcome::Unknown => "unknown"@,
            Outcome::Unavailable => "unavailable"@,
        }
    }

    /// The spelling the API uses, which is not the Rust variant name.
    pub fn as_str(self) -> (spelling: &'static str)
        ensures
            spelling@ == self.wire(),
    {
        match self {
            Outcome::Success => "ok",
            Outcome::Unauthorized => "unauthorized",
            Outcome::Denied => "denied",
            Outcome::Expired => "expired",
            Outcome::Unknown => "unknown",
            Outcome::Unavailable => "unavailable",
        }
    }
}

pub open spec fn format_of_built(built: DatabaseFormat) -> Format {
    match built {
        DatabaseFormat::Csvgz => Format::Csvgz,
        DatabaseFormat::Mmdb => Format::Mmdb,
    }
}

pub open spec fn built_of_format(single: Format) -> DatabaseFormat {
    match single {
        Format::Csvgz => DatabaseFormat::Csvgz,
        Format::Mmdb => DatabaseFormat::Mmdb,
    }
}

impl From<DatabaseFormat> for Format {
    fn from(built: DatabaseFormat) -> (single: Format) {
        match built {
            DatabaseFormat::Csvgz => Format::Csvgz,
            DatabaseFormat::Mmdb => Format::Mmdb,
        }
    }
}

impl vstd::std_specs::convert::FromSpecImpl<DatabaseFormat> for Format {
    open spec fn obeys_from_spec() -> bool {
        true
    }

    open spec fn from_spec(built: DatabaseFormat) -> Format {
        format_of_built(built)
    }
}

impl From<Format> for DatabaseFormat {
    fn from(single: Format) -> (built: DatabaseFormat) {
        match single {
            Format::Csvgz => DatabaseFormat::Csvgz,
            Format::Mmdb => DatabaseFormat::Mmdb,
        }
    }
}

impl vstd::std_specs::convert::FromSpecImpl<Format> for DatabaseFormat {
    open spec fn obeys_from_spec() -> bool {
        true
    }

    open spec fn from_spec(single: Format) -> DatabaseFormat {
        built_of_format(single)
    }
}

/// A format converts to the other enum and back to itself, in both
/// directions, and the conversion keeps the wire spelling.
pub proof fn lemma_format_conversion_round_trips(built: DatabaseFormat, single: Format)
    ensures
        built_of_format(format_of_built(built)) == built,
        format_of_built(built_of_format(single)) == single,
        format_of_built(built).wire() == built.wire(),
        built_of_format(single).wire() == single.wire(),
{
}

/// No two formats share a spelling, in either enum.
pub proof fn lemma_format_spellings_are_distinct(a: DatabaseFormat, b: DatabaseFormat, c: Format, d: Format)
    ensures
        a.wire() == b.wire() ==> a == b,
        c.wire() == d.wire() ==> c == d,
{
    reveal_strlit("csvgz");
    reveal_strlit("mmdb");
    if a != b {
        assert(a.wire().len() != b.wire().len());
    }
    if c != d {
        assert(c.wire().len() != d.wire().len());
    }
}

/// No two standings share a spelling.
pub proof fn lemma_standing_spellings_are_distinct(a: Standing, b: Standing)
    ensures
        a.wire() == b.wire() ==> a == b,
{
    reveal_strlit("licensed");
    reveal_strlit("expired");
    reveal_strlit("unlicensed");
    if a != b {
        assert(a.wire().len() != b.wire().len());
    }
}

/// No two licence types share a spelling.
pub proof fn lemma_license_type_spellings_are_distinct(a: LicenseType, b: LicenseType)
    ensures
        a.wire() == b.wire() ==> a == b,
{
    reveal_strlit("evaluation");
    reveal_strlit("standard");
    reveal_strlit("redistribute");
    if a != b {
        assert(a.wire().len() != b.wire().len());
    }
}

/// No two outcomes share a spelling.
pub proof fn lemma_outcome_spellings_are_distinct(a: Outcome, b: Outcome)
    ensures
        a.wire() == b.wire() ==> a == b,
{
    reveal_strlit("ok");
    reveal_strlit("unauthorized");
    reveal_strlit("denied");
    reveal_strlit("expired");
    reveal_strlit("unknown");
    reveal_strlit("unavailable");
    if a != b {
        assert(a.wire().len() != b.wire().len() || a.wire()[0] != b.wire()[0]);
    }
}

/// Each variant is spelled with its own wire word.
pub proof fn lemma_each_variant_has_its_wire_word()
    ensures
        Standing::Licensed.wire() == "licensed"@,
        Standing::Expired.wire() == "expired"@,
        Standing::Unlicensed.wire() == "unlicensed"@,
        LicenseType::Evaluation.wire() == "evaluation"@,
        LicenseType::Standard.wire() == "standard"@,
        LicenseType::Redistribute.wire() == "redistribute"@,
        DatabaseFormat::Csvgz.wire() == "csvgz"@,
        DatabaseFormat::Mmdb.wire() == "mmdb"@,
        Format::Csvgz.wire() == "csvgz"@,
        Format::Mmdb.wire() == "mmdb"@,
        Outcome::Success.wire() == "ok"@,
        Outcome::Unauthorized.wire() == "unauthorized"@,
        Outcome::Denied.wire() == "denied"@,
        Outcome::Expired.wire() == "expired"@,
        Outcome::Unknown.wire() == "unknown"@,
        Outcome::Unavailable.wire() == "unavailable"@,
{
}

} // verus!
