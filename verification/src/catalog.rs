//! What an integration run against a real deployment needs: whether it has a
//! key to run with, what the listing it was served licenses, and the shape
//! rules every listing has to keep.

use vstd::prelude::*;

use crate::client::option_view;
use crate::models::{Database, DatabaseVersion};
use crate::vocabulary::{DatabaseFormat, Standing};

verus! {

/// The deployment the integration runs go against.
pub const STAGING: &'static str = "https://staging.internetdata.io";

/// The variable holding the one credential an integration run needs.
pub const KEY_SECRET: &'static str = "INTERNETDATA_STAGING_KEY";

/// 8 MiB: the largest database an integration run will transfer.
pub const CEILING: i64 = 8 << 20;

/// A character with the Unicode `White_Space` property, which is what
/// `str::trim` removes.
pub open spec fn is_white_space(c: char) -> bool {
    ||| '\u{9}' <= c && c <= '\u{d}'
    ||| c == ' '
    ||| c == '\u{85}'
    ||| c == '\u{a0}'
    ||| c == '\u{1680}'
    ||| '\u{2000}' <= c && c <= '\u{200a}'
    ||| c == '\u{2028}'
    ||| c == '\u{2029}'
    ||| c == '\u{202f}'
    ||| c == '\u{205f}'
    ||| c == '\u{3000}'
}

fn white_space(c: char) -> (ws: bool)
    ensures
        ws == is_white_space(c),
{
    ('\u{9}' <= c && c <= '\u{d}') || c == ' ' || c == '\u{85}' || c == '\u{a0}' || c == '\u{1680}'
        || ('\u{2000}' <= c && c <= '\u{200a}') || c == '\u{2028}' || c == '\u{2029}' || c == '\u{202f}'
        || c == '\u{205f}' || c == '\u{3000}'
}

pub open spec fn strip_leading(s: Seq<char>) -> Seq<char>
    decreases s.len(),
{
    if s.len() > 0 && is_white_space(s[0]) {
        strip_leading(s.drop_first())
    } else {
        s
    }
}

pub open spec fn strip_trailing(s: Seq<char>) -> Seq<char>
    decreases s.len(),
{
    if s.len() > 0 && is_white_space(s.last()) {
        strip_trailing(s.drop_last())
    } else {
        s
    }
}

/// `s` without its leading and trailing white space.
pub open spec fn trimmed(s: Seq<char>) -> Seq<char> {
    strip_trailing(strip_leading(s))
}

fn trim(text: &str) -> (t: String)
    ensures
        t@ == trimmed(text@),
{
    let len = text.unicode_len();
    let mut start: usize = 0;
    proof {
        assert(text@.skip(0) =~= text@);
    }
    while start < len && white_space(text.get_char(start))
        invariant
            len == text@.len(),
            start <= len,
            strip_leading(text@) == strip_leading(text@.skip(start as int)),
        decreases len - start,
    {
        proof {
            assert(text@.skip(start as int).drop_first() =~= text@.skip(start + 1));
        }
        start = start + 1;
    }
    let ghost lead = text@.skip(start as int);
    proof {
        if start < len {
            assert(lead[0] == text@[start as int]);
        }
        assert(strip_leading(text@) == lead);
        assert(lead.subrange(0, lead.len() as int) =~= lead);
    }
    let mut end: usize = len;
    while end > start && white_space(text.get_char(end - 1))
        invariant
            len == text@.len(),
            start <= end <= len,
            lead == text@.skip(start as int),
            strip_trailing(lead) == strip_trailing(text@.subrange(start as int, end as int)),
        decreases end - start,
    {
        proof {
            assert(text@.subrange(start as int, end as int).drop_last() =~= text@.subrange(start as int, end - 1));
        }
        end = end - 1;
    }
    proof {
        if end > start {
            assert(text@.subrange(start as int, end as int).last() == text@[end - 1]);
        }
    }
    String::from_str(text.substring_char(start, end))
}

pub open spec fn spec_key(raw: Option<Seq<char>>) -> Option<Seq<char>> {
    match raw {
        Some(text) if trimmed(text).len() > 0 => Some(trimmed(text)),
        _ => None,
    }
}

/// The run's key, read from what the environment holds under [`KEY_SECRET`]:
/// trimmed, and absent when empty, because CI interpolates a secret that does
/// not exist to an empty string rather than leaving the variable unset.
pub fn key(raw: Option<String>) -> (found: Option<String>)
    ensures
        option_view(found) == spec_key(option_view(raw)),
{
    match raw {
        Some(text) => {
            let t = trim(text.as_str());
            if t.as_str().unicode_len() > 0 {
                Some(t)
            } else {
                None
            }
        },
        None => None,
    }
}

pub open spec fn skip_message() -> Seq<char> {
    KEY_SECRET@ + " is not set, so there is no key to run with"@
}

/// Why a run cannot go ahead, or `None` when it can: it has a key.
pub fn skip_reason(raw: Option<String>) -> (reason: Option<String>)
    ensures
        spec_key(option_view(raw)) is None ==> option_view(reason) == Some(skip_message()),
        spec_key(option_view(raw)) is Some ==> reason is None,
{
    match key(raw) {
        None => Some(String::from_str(KEY_SECRET).concat(" is not set, so there is no key to run with")),
        Some(_) => None,
    }
}

/// One listing, as the client decoded it and as the wire served it.
pub struct Catalog {
    pub databases: Vec<Database>,
    /// The `base` of each family as it came off the wire, in the order served;
    /// `None` where the served family carried no string there.
    pub wire_bases: Vec<Option<String>>,
}

/// The (version id, format) pairs one version offers, in format order.
pub open spec fn version_pairs(v: DatabaseVersion) -> Seq<(Seq<char>, DatabaseFormat)> {
    v.formats@.map_values(|f: DatabaseFormat| (v.id@, f))
}

/// The pairs a run of versions offers, version by version.
pub open spec fn versions_pairs(vs: Seq<DatabaseVersion>) -> Seq<(Seq<char>, DatabaseFormat)>
    decreases vs.len(),
{
    if vs.len() == 0 {
        Seq::empty()
    } else {
        versions_pairs(vs.drop_last()) + version_pairs(vs.last())
    }
}

/// The pairs the licensed families of a listing offer, family by family.
pub open spec fn licensed_pairs(dbs: Seq<Database>) -> Seq<(Seq<char>, DatabaseFormat)>
    decreases dbs.len(),
{
    if dbs.len() == 0 {
        Seq::empty()
    } else {
        licensed_pairs(dbs.drop_last()) + if dbs.last().standing == Standing::Licensed {
            versions_pairs(dbs.last().versions@)
        } else {
            Seq::empty()
        }
    }
}

pub open spec fn pair_views<'a>(pairs: Seq<(&'a str, DatabaseFormat)>) -> Seq<(Seq<char>, DatabaseFormat)> {
    pairs.map_values(|p: (&'a str, DatabaseFormat)| (p.0@, p.1))
}

/// The first unlicensed family's first version id, if the first unlicensed
/// family has a version.
pub open spec fn first_unlicensed_version(dbs: Seq<Database>) -> Option<Seq<char>>
    decreases dbs.len(),
{
    if dbs.len() == 0 {
        None
    } else if dbs[0].standing == Standing::Unlicensed {
        if dbs[0].versions@.len() > 0 {
            Some(dbs[0].versions@[0].id@)
        } else {
            None
        }
    } else {
        first_unlicensed_version(dbs.drop_first())
    }
}

impl Catalog {
    /// The versions this organization may download, with each format they are
    /// built in, in family, version and format order.
    pub fn licensed(&self) -> (pairs: Vec<(&str, DatabaseFormat)>)
        ensures
            pair_views(pairs@) == licensed_pairs(self.databases@),
    {
        let mut pairs: Vec<(&str, DatabaseFormat)> = Vec::new();
        let n = self.databases.len();
        let mut i: usize = 0;
        while i < n
            invariant
                n == self.databases@.len(),
                i <= n,
                pair_views(pairs@) == licensed_pairs(self.databases@.take(i as int)),
            decreases n - i,
        {
            let family = &self.databases[i];
            let ghost before = pairs@;
            proof {
                assert(self.databases@.take(i + 1).drop_last() =~= self.databases@.take(i as int));
                assert(self.databases@.take(i + 1).last() == *family);
            }
            if family.standing == Standing::Licensed {
                let m = family.versions.len();
                let mut j: usize = 0;
                proof {
                    assert(family.versions@.take(0) =~= Seq::<DatabaseVersion>::empty());
                    assert(pair_views(pairs@) =~= pair_views(before) + versions_pairs(family.versions@.take(0)));
                }
                while j < m
                    invariant
                        n == self.databases@.len(),
                        i < n,
                        *family == self.databases@[i as int],
                        m == family.versions@.len(),
                        j <= m,
                        pair_views(pairs@) == pair_views(before) + versions_pairs(family.versions@.take(j as int)),
                    decreases m - j,
                {
                    let version = &family.versions[j];
                    let f = version.formats.len();
                    let mut k: usize = 0;
                    let ghost mid = pairs@;
                    proof {
                        assert(version.formats@.take(0).map_values(|g: DatabaseFormat| (version.id@, g)) =~= Seq::<(Seq<char>, DatabaseFormat)>::empty());
                        assert(pair_views(pairs@) =~= pair_views(mid) + version.formats@.take(0).map_values(|g: DatabaseFormat| (version.id@, g)));
                    }
                    while k < f
                        invariant
                            m == family.versions@.len(),
                            j < m,
                            *version == family.versions@[j as int],
                            f == version.formats@.len(),
                            k <= f,
                            pair_views(pairs@) == pair_views(mid) + version.formats@.take(k as int).map_values(|g: DatabaseFormat| (version.id@, g)),
                        decreases f - k,
                    {
                        let format = version.formats[k];
                        let ghost prev = pairs@;
                        let id = version.id.as_str();
                        pairs.push((id, format));
                        proof {
                            assert(pairs@ =~= prev.push((id, format)));
                            assert(pair_views(pairs@) =~= pair_views(prev).push((version.id@, format)));
                            assert(version.formats@.take(k + 1).map_values(|g: DatabaseFormat| (version.id@, g))
                                =~= version.formats@.take(k as int).map_values(|g: DatabaseFormat| (version.id@, g)).push((version.id@, format)));
                        }
                        k = k + 1;
                    }
                    proof {
                        assert(version.formats@.take(f as int) =~= version.formats@);
                        assert(family.versions@.take(j + 1).drop_last() =~= family.versions@.take(j as int));
                        assert(family.versions@.take(j + 1).last() == *version);
                        assert(versions_pairs(family.versions@.take(j + 1)) == versions_pairs(family.versions@.take(j as int)) + version_pairs(*version));
                        assert(pair_views(pairs@) =~= pair_views(before) + versions_pairs(family.versions@.take(j + 1)));
                    }
                    j = j + 1;
                }
                proof {
                    assert(family.versions@.take(m as int) =~= family.versions@);
                }
            }
            i = i + 1;
        }
        proof {
            assert(self.databases@.take(n as int) =~= self.databases@);
        }
        pairs
    }

    /// A published database this organization holds no licence for: the first
    /// version of the first unlicensed family, discovered rather than named.
    pub fn unlicensed(&self) -> (id: Option<&str>)
        ensures
            match id {
                Some(found) => first_unlicensed_version(self.databases@) == Some(found@),
                None => first_unlicensed_version(self.databases@) is None,
            },
    {
        let n = self.databases.len();
        let mut i: usize = 0;
        proof {
            assert(self.databases@.skip(0) =~= self.databases@);
        }
        while i < n
            invariant
                n == self.databases@.len(),
                i <= n,
                first_unlicensed_version(self.databases@) == first_unlicensed_version(self.databases@.skip(i as int)),
            decreases n - i,
        {
            let family = &self.databases[i];
            proof {
                assert(self.databases@.skip(i as int)[0] == *family);
                assert(self.databases@.skip(i as int).drop_first() =~= self.databases@.skip(i + 1));
            }
            if family.standing == Standing::Unlicensed {
                if family.versions.len() > 0 {
                    return Some(family.versions[0].id.as_str());
                } else {
                    return None;
                }
            }
            i = i + 1;
        }
        None
    }
}

/// Which rule of a listing's shape a family, or the listing, breaks.
#[derive(Clone, Copy, Debug, PartialEq, Eq, Structural)]
pub enum ShapeViolation {
    /// The key can see no databases at all.
    NoDatabases,
    /// The decode dropped or invented a family.
    CountMismatch,
    /// The family at this position carries no base.
    EmptyBase(usize),
    /// The family at this position carries no name.
    EmptyName(usize),
    /// The family at this position is not the one served there.
    Reordered(usize),
    /// The family at this position carries no versions.
    NoVersions(usize),
    /// The version (family, version) has no id.
    VersionWithoutId(usize, usize),
    /// The version (family, version) is built in no format.
    VersionWithoutFormats(usize, usize),
    /// The family is unlicensed but names a licence type.
    UnlicensedWithLicenseType(usize),
    /// The family is unlicensed but has a start date.
    UnlicensedWithStart(usize),
    /// The family is licensed or expired but names no licence type.
    LicensedWithoutLicenseType(usize),
    /// The family is licensed or expired but has no start date.
    LicensedWithoutStart(usize),
}

pub open spec fn version_well_formed(v: DatabaseVersion) -> bool {
    v.id@.len() > 0 && v.formats@.len() > 0
}

/// Presence follows the standing: an unlicensed family has no terms, because
/// there is no licence to state them, and a licensed or expired one has both.
pub open spec fn terms_follow_standing(d: Database) -> bool {
    match d.standing {
        Standing::Unlicensed => d.license_type is None && d.starts is None,
        _ => d.license_type is Some && d.starts is Some,
    }
}

pub open spec fn family_well_formed(d: Database, wire_base: Option<String>) -> bool {
    &&& d.base@.len() > 0
    &&& d.name@.len() > 0
    &&& option_view(wire_base) == Some(d.base@)
    &&& d.versions@.len() > 0
    &&& forall|j: int| 0 <= j < d.versions@.len() ==> version_well_formed(#[trigger] d.versions@[j])
    &&& terms_follow_standing(d)
}

/// What holds of every listing, whatever the key licenses.
pub open spec fn catalog_shape_holds(c: Catalog) -> bool {
    &&& c.databases@.len() > 0
    &&& c.databases@.len() == c.wire_bases@.len()
    &&& forall|i: int| 0 <= i < c.databases@.len() ==> family_well_formed(#[trigger] c.databases@[i], c.wire_bases@[i])
}

/// Whether `v` names a rule the catalog really breaks.
pub open spec fn violated(c: Catalog, v: ShapeViolation) -> bool {
    let dbs = c.databases@;
    match v {
        ShapeViolation::NoDatabases => dbs.len() == 0,
        ShapeViolation::CountMismatch => dbs.len() != c.wire_bases@.len(),
        ShapeViolation::EmptyBase(i) => i < dbs.len() && dbs[i as int].base@.len() == 0,
        ShapeViolation::EmptyName(i) => i < dbs.len() && dbs[i as int].name@.len() == 0,
        ShapeViolation::Reordered(i) => i < dbs.len() && i < c.wire_bases@.len()
            && option_view(c.wire_bases@[i as int]) != Some(dbs[i as int].base@),
        ShapeViolation::NoVersions(i) => i < dbs.len() && dbs[i as int].versions@.len() == 0,
        ShapeViolation::VersionWithoutId(i, j) => i < dbs.len() && j < dbs[i as int].versions@.len()
            && dbs[i as int].versions@[j as int].id@.len() == 0,
        ShapeViolation::VersionWithoutFormats(i, j) => i < dbs.len() && j < dbs[i as int].versions@.len()
            && dbs[i as int].versions@[j as int].formats@.len() == 0,
        ShapeViolation::UnlicensedWithLicenseType(i) => i < dbs.len() && dbs[i as int].standing
            == Standing::Unlicensed && dbs[i as int].license_type is Some,
        ShapeViolation::UnlicensedWithStart(i) => i < dbs.len() && dbs[i as int].standing
            == Standing::Unlicensed && dbs[i as int].starts is Some,
        ShapeViolation::LicensedWithoutLicenseType(i) => i < dbs.len() && dbs[i as int].standing
            != Standing::Unlicensed && dbs[i as int].license_type is None,
        ShapeViolation::LicensedWithoutStart(i) => i < dbs.len() && dbs[i as int].standing
            != Standing::Unlicensed && dbs[i as int].starts is None,
    }
}

/// The first version, from `j` on, that breaks a rule, in version order: a
/// missing id is reported before missing formats.
pub open spec fn first_version_violation(i: usize, vs: Seq<DatabaseVersion>, j: int) -> Option<ShapeViolation>
    decreases vs.len() - j,
{
    if j < 0 || j >= vs.len() {
        None
    } else if vs[j].id@.len() == 0 {
        Some(ShapeViolation::VersionWithoutId(i, j as usize))
    } else if vs[j].formats@.len() == 0 {
        Some(ShapeViolation::VersionWithoutFormats(i, j as usize))
    } else {
        first_version_violation(i, vs, j + 1)
    }
}

/// The first rule the family at position `i` breaks, in the order they are
/// checked: base, name, order, versions, each version, then the terms.
pub open spec fn first_family_violation(d: Database, wire_base: Option<String>, i: usize) -> Option<ShapeViolation> {
    if d.base@.len() == 0 {
        Some(ShapeViolation::EmptyBase(i))
    } else if d.name@.len() == 0 {
        Some(ShapeViolation::EmptyName(i))
    } else if option_view(wire_base) != Some(d.base@) {
        Some(ShapeViolation::Reordered(i))
    } else if d.versions@.len() == 0 {
        Some(ShapeViolation::NoVersions(i))
    } else if first_version_violation(i, d.versions@, 0) is Some {
        first_version_violation(i, d.versions@, 0)
    } else {
        match d.standing {
            Standing::Unlicensed => if d.license_type is Some {
                Some(ShapeViolation::UnlicensedWithLicenseType(i))
            } else if d.starts is Some {
                Some(ShapeViolation::UnlicensedWithStart(i))
            } else {
                None
            },
            _ => if d.license_type is None {
                Some(ShapeViolation::LicensedWithoutLicenseType(i))
            } else if d.starts is None {
                Some(ShapeViolation::LicensedWithoutStart(i))
            } else {
                None
            },
        }
    }
}

/// The first broken rule among the families from position `k` on.
pub open spec fn first_violation_from(c: Catalog, k: int) -> Option<ShapeViolation>
    decreases c.databases@.len() - k,
{
    if k < 0 || k >= c.databases@.len() {
        None
    } else {
        match first_family_violation(c.databases@[k], c.wire_bases@[k], k as usize) {
            Some(v) => Some(v),
            None => first_violation_from(c, k + 1),
        }
    }
}

/// The first rule a listing breaks, in the order they are checked: that it
/// is not empty, that nothing was dropped or invented, then family by family.
pub open spec fn first_violation(c: Catalog) -> Option<ShapeViolation> {
    if c.databases@.len() == 0 {
        Some(ShapeViolation::NoDatabases)
    } else if c.databases@.len() != c.wire_bases@.len() {
        Some(ShapeViolation::CountMismatch)
    } else {
        first_violation_from(c, 0)
    }
}

fn check_family(d: &Database, wire_base: &Option<String>, i: usize) -> (checked: Result<(), ShapeViolation>)
    ensures
        checked is Ok <==> family_well_formed(*d, *wire_base),
        match checked {
            Ok(()) => first_family_violation(*d, *wire_base, i) is None,
            Err(v) => first_family_violation(*d, *wire_base, i) == Some(v),
        },
        checked matches Err(v) ==> match v {
            ShapeViolation::EmptyBase(k) => k == i && d.base@.len() == 0,
            ShapeViolation::EmptyName(k) => k == i && d.name@.len() == 0,
            ShapeViolation::Reordered(k) => k == i && option_view(*wire_base) != Some(d.base@),
            ShapeViolation::NoVersions(k) => k == i && d.versions@.len() == 0,
            ShapeViolation::VersionWithoutId(k, j) => k == i && j < d.versions@.len()
                && d.versions@[j as int].id@.len() == 0,
            ShapeViolation::VersionWithoutFormats(k, j) => k == i && j < d.versions@.len()
                && d.versions@[j as int].formats@.len() == 0,
            ShapeViolation::UnlicensedWithLicenseType(k) => k == i && d.standing == Standing::Unlicensed
                && d.license_type is Some,
            ShapeViolation::UnlicensedWithStart(k) => k == i && d.standing == Standing::Unlicensed
                && d.starts is Some,
            ShapeViolation::LicensedWithoutLicenseType(k) => k == i && d.standing != Standing::Unlicensed
                && d.license_type is None,
            ShapeViolation::LicensedWithoutStart(k) => k == i && d.standing != Standing::Unlicensed
                && d.starts is None,
            _ => false,
        },
{
    if d.base.as_str().unicode_len() == 0 {
        return Err(ShapeViolation::EmptyBase(i));
    }
    if d.name.as_str().unicode_len() == 0 {
        return Err(ShapeViolation::EmptyName(i));
    }
    let same = match wire_base {
        Some(served) => *served == d.base,
        None => false,
    };
    if !same {
        return Err(ShapeViolation::Reordered(i));
    }
    let m = d.versions.len();
    if m == 0 {
        return Err(ShapeViolation::NoVersions(i));
    }
    let mut j: usize = 0;
    while j < m
        invariant
            m == d.versions@.len(),
            j <= m,
            forall|k: int| 0 <= k < j ==> version_well_formed(#[trigger] d.versions@[k]),
            first_version_violation(i, d.versions@, 0) == first_version_violation(i, d.versions@, j as int),
            d.base@.len() > 0,
            d.name@.len() > 0,
            option_view(*wire_base) == Some(d.base@),
            m > 0,
        decreases m - j,
    {
        let version = &d.versions[j];
        if version.id.as_str().unicode_len() == 0 {
            return Err(ShapeViolation::VersionWithoutId(i, j));
        }
        if version.formats.len() == 0 {
            return Err(ShapeViolation::VersionWithoutFormats(i, j));
        }
        j = j + 1;
    }
    match d.standing {
        Standing::Unlicensed => {
            if d.license_type.is_some() {
                return Err(ShapeViolation::UnlicensedWithLicenseType(i));
            }
            if d.starts.is_some() {
                return Err(ShapeViolation::UnlicensedWithStart(i));
            }
        },
        _ => {
            if d.license_type.is_none() {
                return Err(ShapeViolation::LicensedWithoutLicenseType(i));
            }
            if d.starts.is_none() {
                return Err(ShapeViolation::LicensedWithoutStart(i));
            }
        },
    }
    Ok(())
}

/// Checks what holds of every family in a listing, whatever the key licenses:
/// there is at least one family, the decode neither dropped, invented nor
/// reordered one, every family has a base, a name and versions, every version
/// an id and a format, and a family's licence terms are present exactly when
/// it has a licence. The first rule broken comes back.
pub fn assert_catalog_shape(catalog: &Catalog) -> (checked: Result<(), ShapeViolation>)
    ensures
        checked is Ok <==> catalog_shape_holds(*catalog),
        checked matches Err(v) ==> violated(*catalog, v),
        match checked {
            Ok(()) => first_violation(*catalog) is None,
            Err(v) => first_violation(*catalog) == Some(v),
        },
{
    let n = catalog.databases.len();
    if n == 0 {
        return Err(ShapeViolation::NoDatabases);
    }
    if n != catalog.wire_bases.len() {
        return Err(ShapeViolation::CountMismatch);
    }
    let mut i: usize = 0;
    while i < n
        invariant
            n == catalog.databases@.len(),
            n == catalog.wire_bases@.len(),
            i <= n,
            forall|k: int| 0 <= k < i ==> family_well_formed(#[trigger] catalog.databases@[k], catalog.wire_bases@[k]),
            first_violation(*catalog) == first_violation_from(*catalog, i as int),
        decreases n - i,
    {
        match check_family(&catalog.databases[i], &catalog.wire_bases[i], i) {
            Err(v) => {
                return Err(v);
            },
            Ok(()) => {},
        }
        i = i + 1;
    }
    Ok(())
}

/// The id handed back is the first version of the first unlicensed family:
/// when the family at `i` is the first unlicensed one, the answer is its
/// first version's id, or nothing when it has no version; and when no family
/// is unlicensed, nothing.
pub proof fn lemma_unlicensed_is_the_first_version_of_the_first_unlicensed_family(dbs: Seq<Database>, i: int)
    requires
        0 <= i < dbs.len(),
        dbs[i].standing == Standing::Unlicensed,
        forall|j: int| 0 <= j < i ==> (#[trigger] dbs[j]).standing != Standing::Unlicensed,
    ensures
        dbs[i].versions@.len() > 0 ==> first_unlicensed_version(dbs) == Some(dbs[i].versions@[0].id@),
        dbs[i].versions@.len() == 0 ==> first_unlicensed_version(dbs) is None,
    decreases i,
{
    if i > 0 {
        assert(dbs[0].standing != Standing::Unlicensed);
        let rest = dbs.drop_first();
        assert forall|j: int| 0 <= j < i - 1 implies (#[trigger] rest[j]).standing != Standing::Unlicensed by {
            assert(rest[j] == dbs[j + 1]);
        }
        assert(rest[i - 1] == dbs[i]);
        lemma_unlicensed_is_the_first_version_of_the_first_unlicensed_family(rest, i - 1);
    }
}

/// With no unlicensed family in the listing there is nothing to hand back.
pub proof fn lemma_no_unlicensed_family_means_none(dbs: Seq<Database>)
    requires
        forall|j: int| 0 <= j < dbs.len() ==> (#[trigger] dbs[j]).standing != Standing::Unlicensed,
    ensures
        first_unlicensed_version(dbs) is None,
    decreases dbs.len(),
{
    if dbs.len() > 0 {
        let rest = dbs.drop_first();
        assert forall|j: int| 0 <= j < rest.len() implies (#[trigger] rest[j]).standing != Standing::Unlicensed by {
            assert(rest[j] == dbs[j + 1]);
        }
        assert(dbs[0].standing != Standing::Unlicensed);
        lemma_no_unlicensed_family_means_none(rest);
    }
}

proof fn lemma_version_offers_are_listed(vs: Seq<DatabaseVersion>, j: int, k: int)
    requires
        0 <= j < vs.len(),
        0 <= k < vs[j].formats@.len(),
    ensures
        versions_pairs(vs).contains((vs[j].id@, vs[j].formats@[k])),
    decreases vs.len(),
{
    let before = versions_pairs(vs.drop_last());
    let last = version_pairs(vs.last());
    if j == vs.len() - 1 {
        assert(last[k] == (vs[j].id@, vs[j].formats@[k]));
        assert(versions_pairs(vs)[before.len() + k] == last[k]);
    } else {
        assert(vs.drop_last()[j] == vs[j]);
        lemma_version_offers_are_listed(vs.drop_last(), j, k);
        let x = choose|x: int| 0 <= x < before.len() && before[x] == (vs[j].id@, vs[j].formats@[k]);
        assert(versions_pairs(vs)[x] == before[x]);
    }
}

/// Every format of every version of a licensed family is offered: the
/// listing's licensed pairs hold (version id, format) for each of them.
pub proof fn lemma_every_licensed_offer_is_listed(dbs: Seq<Database>, i: int, j: int, k: int)
    requires
        0 <= i < dbs.len(),
        dbs[i].standing == Standing::Licensed,
        0 <= j < dbs[i].versions@.len(),
        0 <= k < dbs[i].versions@[j].formats@.len(),
    ensures
        licensed_pairs(dbs).contains((dbs[i].versions@[j].id@, dbs[i].versions@[j].formats@[k])),
    decreases dbs.len(),
{
    let pair = (dbs[i].versions@[j].id@, dbs[i].versions@[j].formats@[k]);
    let before = licensed_pairs(dbs.drop_last());
    if i == dbs.len() - 1 {
        lemma_version_offers_are_listed(dbs[i].versions@, j, k);
        let tail = versions_pairs(dbs[i].versions@);
        let x = choose|x: int| 0 <= x < tail.len() && tail[x] == pair;
        assert(licensed_pairs(dbs)[before.len() + x] == tail[x]);
    } else {
        assert(dbs.drop_last()[i] == dbs[i]);
        lemma_every_licensed_offer_is_listed(dbs.drop_last(), i, j, k);
        let x = choose|x: int| 0 <= x < before.len() && before[x] == pair;
        assert(licensed_pairs(dbs)[x] == before[x]);
    }
}

/// A listing in which no family is licensed offers nothing to download:
/// expired and unlicensed families contribute no pairs.
pub proof fn lemma_nothing_is_licensed_without_a_licensed_family(dbs: Seq<Database>)
    requires
        forall|j: int| 0 <= j < dbs.len() ==> (#[trigger] dbs[j]).standing != Standing::Licensed,
    ensures
        licensed_pairs(dbs).len() == 0,
    decreases dbs.len(),
{
    if dbs.len() > 0 {
        let rest = dbs.drop_last();
        assert forall|j: int| 0 <= j < rest.len() implies (#[trigger] rest[j]).standing != Standing::Licensed by {
            assert(rest[j] == dbs[j]);
        }
        assert(dbs[dbs.len() - 1].standing != Standing::Licensed);
        lemma_nothing_is_licensed_without_a_licensed_family(rest);
    }
}

proof fn lemma_strip_leading_starts_clean(s: Seq<char>)
    ensures
        strip_leading(s).len() > 0 ==> !is_white_space(strip_leading(s)[0]),
        (forall|j: int| 0 <= j < s.len() ==> is_white_space(#[trigger] s[j])) ==> strip_leading(s).len() == 0,
    decreases s.len(),
{
    if s.len() > 0 && is_white_space(s[0]) {
        let rest = s.drop_first();
        assert forall|j: int| 0 <= j < rest.len() && (forall|m: int| 0 <= m < s.len() ==> is_white_space(#[trigger] s[m]))
            implies is_white_space(#[trigger] rest[j]) by {
            assert(rest[j] == s[j + 1]);
        }
        lemma_strip_leading_starts_clean(rest);
    }
}

proof fn lemma_strip_trailing_is_a_clean_prefix(s: Seq<char>)
    ensures
        strip_trailing(s).len() <= s.len(),
        strip_trailing(s) =~= s.subrange(0, strip_trailing(s).len() as int),
        strip_trailing(s).len() > 0 ==> !is_white_space(strip_trailing(s).last()),
    decreases s.len(),
{
    if s.len() > 0 && is_white_space(s.last()) {
        lemma_strip_trailing_is_a_clean_prefix(s.drop_last());
        let r = strip_trailing(s.drop_last());
        assert(s.drop_last().subrange(0, r.len() as int) =~= s.subrange(0, r.len() as int));
    }
}

/// A key never starts or ends with white space, a text of white space alone
/// is no key, and a non-empty text with no white space at either end is its
/// own key.
pub proof fn lemma_a_key_is_the_text_without_surrounding_white_space(raw: Seq<char>)
    ensures
        spec_key(Some(raw)) matches Some(k) ==> k.len() > 0 && !is_white_space(k[0]) && !is_white_space(k.last()),
        (forall|j: int| 0 <= j < raw.len() ==> is_white_space(#[trigger] raw[j])) ==> spec_key(Some(raw)) is None,
        raw.len() > 0 && !is_white_space(raw[0]) && !is_white_space(raw.last()) ==> spec_key(Some(raw)) == Some(raw),
{
    lemma_strip_leading_starts_clean(raw);
    let lead = strip_leading(raw);
    lemma_strip_trailing_is_a_clean_prefix(lead);
    let t = strip_trailing(lead);
    if t.len() > 0 {
        assert(t[0] == lead[0]);
    }
    if raw.len() > 0 && !is_white_space(raw[0]) && !is_white_space(raw.last()) {
        assert(lead == raw);
        assert(t == raw);
    }
}

} // verus!
