// The integration fixtures' logic: the run's key, what a listing licenses, and
// the shape every listing keeps.

use internetdata::catalog::{assert_catalog_shape, key, skip_reason, Catalog, ShapeViolation, CEILING, KEY_SECRET, STAGING};
use internetdata::{Database, DatabaseFormat, DatabaseVersion, LicenseType, Standing};

fn version(id: &str, formats: &[DatabaseFormat]) -> DatabaseVersion {
    DatabaseVersion { id: id.to_string(), version: 1, summary: "one line".to_string(), formats: formats.to_vec() }
}

fn family(base: &str, standing: Standing, versions: Vec<DatabaseVersion>) -> Database {
    let licensed = standing != Standing::Unlicensed;
    Database {
        base: base.to_string(),
        name: base.to_string(),
        summary: "one line".to_string(),
        standing,
        license_type: licensed.then_some(LicenseType::Standard),
        starts: licensed.then(|| "2026-01-01T00:00:00.000Z".to_string()),
        expires: None,
        versions,
    }
}

fn catalog(databases: Vec<Database>) -> Catalog {
    let wire_bases = databases.iter().map(|d| Some(d.base.clone())).collect();
    Catalog { databases, wire_bases }
}

fn sample() -> Catalog {
    catalog(vec![
        family("bogon_asn", Standing::Licensed, vec![version("bogon_asn_v1", &[DatabaseFormat::Csvgz])]),
        family("vpn_ip", Standing::Unlicensed, vec![version("vpn_ip_v1", &[DatabaseFormat::Csvgz])]),
        family(
            "bogon_ip",
            Standing::Licensed,
            vec![
                version("bogon_ip_v1", &[DatabaseFormat::Csvgz, DatabaseFormat::Mmdb]),
                version("bogon_ip_v2", &[DatabaseFormat::Mmdb]),
            ],
        ),
        family("cdn_ip", Standing::Expired, vec![version("cdn_ip_v1", &[DatabaseFormat::Csvgz])]),
    ])
}

#[test]
fn the_key_is_trimmed_and_an_empty_one_is_absent() {
    assert_eq!(key(Some("  abc-key\n".to_string())), Some("abc-key".to_string()));
    assert_eq!(key(Some("abc".to_string())), Some("abc".to_string()));
    assert_eq!(key(Some(String::new())), None);
    assert_eq!(key(Some(" \t\r\n\u{3000}\u{a0}".to_string())), None);
    assert_eq!(key(Some("\u{2003}a b\u{85}".to_string())), Some("a b".to_string()));
    assert_eq!(key(None), None);
}

#[test]
fn a_run_without_a_key_says_why_it_skips() {
    assert_eq!(
        skip_reason(None),
        Some("INTERNETDATA_STAGING_KEY is not set, so there is no key to run with".to_string())
    );
    assert_eq!(skip_reason(Some("   ".to_string())), skip_reason(None));
    assert_eq!(skip_reason(Some("k".to_string())), None);
    assert_eq!(KEY_SECRET, "INTERNETDATA_STAGING_KEY");
    assert_eq!(STAGING, "https://staging.internetdata.io");
    assert_eq!(CEILING, 8 * 1024 * 1024);
}

#[test]
fn the_licensed_versions_come_in_family_version_and_format_order() {
    let listing = sample();
    assert_eq!(
        listing.licensed(),
        vec![
            ("bogon_asn_v1", DatabaseFormat::Csvgz),
            ("bogon_ip_v1", DatabaseFormat::Csvgz),
            ("bogon_ip_v1", DatabaseFormat::Mmdb),
            ("bogon_ip_v2", DatabaseFormat::Mmdb),
        ]
    );
    assert!(catalog(vec![]).licensed().is_empty());
}

#[test]
fn the_unlicensed_database_is_discovered_rather_than_named() {
    assert_eq!(sample().unlicensed(), Some("vpn_ip_v1"));
    let licensed_only = catalog(vec![family("bogon_asn", Standing::Licensed, vec![version("bogon_asn_v1", &[DatabaseFormat::Csvgz])])]);
    assert_eq!(licensed_only.unlicensed(), None);
    let versionless_first = catalog(vec![
        family("a", Standing::Unlicensed, vec![]),
        family("b", Standing::Unlicensed, vec![version("b_v1", &[DatabaseFormat::Csvgz])]),
    ]);
    assert_eq!(versionless_first.unlicensed(), None);
}

#[test]
fn a_well_formed_listing_keeps_its_shape() {
    assert_eq!(assert_catalog_shape(&sample()), Ok(()));
}

#[test]
fn each_broken_shape_rule_is_reported() {
    assert_eq!(assert_catalog_shape(&catalog(vec![])), Err(ShapeViolation::NoDatabases));

    let mut dropped = sample();
    dropped.wire_bases.pop();
    assert_eq!(assert_catalog_shape(&dropped), Err(ShapeViolation::CountMismatch));

    let mut reordered = sample();
    reordered.wire_bases.swap(0, 1);
    assert_eq!(assert_catalog_shape(&reordered), Err(ShapeViolation::Reordered(0)));

    let mut no_base = sample();
    no_base.databases[1].base.clear();
    assert_eq!(assert_catalog_shape(&no_base), Err(ShapeViolation::EmptyBase(1)));

    let mut no_name = sample();
    no_name.databases[2].name.clear();
    assert_eq!(assert_catalog_shape(&no_name), Err(ShapeViolation::EmptyName(2)));

    let mut no_versions = sample();
    no_versions.databases[3].versions.clear();
    assert_eq!(assert_catalog_shape(&no_versions), Err(ShapeViolation::NoVersions(3)));

    let mut no_id = sample();
    no_id.databases[2].versions[1].id.clear();
    assert_eq!(assert_catalog_shape(&no_id), Err(ShapeViolation::VersionWithoutId(2, 1)));

    let mut no_formats = sample();
    no_formats.databases[2].versions[0].formats.clear();
    assert_eq!(assert_catalog_shape(&no_formats), Err(ShapeViolation::VersionWithoutFormats(2, 0)));

    let mut terms = sample();
    terms.databases[1].license_type = Some(LicenseType::Evaluation);
    assert_eq!(assert_catalog_shape(&terms), Err(ShapeViolation::UnlicensedWithLicenseType(1)));

    let mut start = sample();
    start.databases[1].starts = Some("2026-01-01".to_string());
    assert_eq!(assert_catalog_shape(&start), Err(ShapeViolation::UnlicensedWithStart(1)));

    let mut no_terms = sample();
    no_terms.databases[3].license_type = None;
    assert_eq!(assert_catalog_shape(&no_terms), Err(ShapeViolation::LicensedWithoutLicenseType(3)));

    let mut no_start = sample();
    no_start.databases[0].starts = None;
    assert_eq!(assert_catalog_shape(&no_start), Err(ShapeViolation::LicensedWithoutStart(0)));
}

#[test]
fn the_first_broken_rule_in_check_order_is_reported() {
    let mut two_rules = sample();
    two_rules.databases[1].name.clear();
    two_rules.databases[1].base.clear();
    assert_eq!(assert_catalog_shape(&two_rules), Err(ShapeViolation::EmptyBase(1)));

    let mut two_families = sample();
    two_families.databases[3].versions.clear();
    two_families.databases[2].versions[1].formats.clear();
    assert_eq!(assert_catalog_shape(&two_families), Err(ShapeViolation::VersionWithoutFormats(2, 1)));

    let mut one_version = sample();
    one_version.databases[2].versions[1].id.clear();
    one_version.databases[2].versions[1].formats.clear();
    one_version.databases[2].license_type = None;
    assert_eq!(assert_catalog_shape(&one_version), Err(ShapeViolation::VersionWithoutId(2, 1)));
}
