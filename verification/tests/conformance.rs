// The shared vocabularies and the visibility rules every InternetData SDK is
// held to.

use std::collections::BTreeSet;

use internetdata::{DatabaseFormat, Format, LicenseType, Outcome, Standing};

/// The visibility rules the shared conformance corpus declares for a client.
fn corpus_visibility_rules() -> Vec<&'static str> {
    vec![
        "listing-is-returned-as-served",
        "no-catalog-is-compiled-into-the-client",
        "a-listing-is-never-reused-across-clients",
    ]
}

fn set(values: &[impl AsRef<str>]) -> BTreeSet<String> {
    values.iter().map(|value| value.as_ref().to_owned()).collect()
}

#[test]
fn every_visibility_rule_the_corpus_names_is_asserted_here() {
    let asserted = set(&[
        "listing-is-returned-as-served",
        "no-catalog-is-compiled-into-the-client",
        "a-listing-is-never-reused-across-clients",
    ]);
    let declared = set(&corpus_visibility_rules());
    assert!(!declared.is_empty(), "the corpus declares no visibility rules");
    assert_eq!(
        declared, asserted,
        "a visibility rule is declared with no test, or tested with no declaration"
    );
}

#[test]
fn the_standing_vocabulary_is_exactly_what_the_corpus_declares() {
    let wire = [Standing::Licensed, Standing::Expired, Standing::Unlicensed];
    let spelled: Vec<&str> = wire.iter().map(|s| s.as_str()).collect();
    assert_eq!(set(&spelled), set(&["licensed", "expired", "unlicensed"]));
}

#[test]
fn the_license_type_vocabulary_is_exactly_what_the_corpus_declares() {
    let wire = [LicenseType::Evaluation, LicenseType::Standard, LicenseType::Redistribute];
    let spelled: Vec<&str> = wire.iter().map(|s| s.as_str()).collect();
    assert_eq!(set(&spelled), set(&["evaluation", "standard", "redistribute"]));
}

#[test]
fn the_outcome_readers_agree_with_the_wire() {
    let pairs = [
        (Outcome::Success, "ok"),
        (Outcome::Unauthorized, "unauthorized"),
        (Outcome::Denied, "denied"),
        (Outcome::Expired, "expired"),
        (Outcome::Unknown, "unknown"),
        (Outcome::Unavailable, "unavailable"),
    ];
    for (outcome, wire) in pairs {
        assert_eq!(outcome.as_str(), wire);
    }
}

#[test]
fn the_format_vocabulary_is_exactly_what_the_corpus_declares() {
    let expected = set(&["csvgz", "mmdb"]);
    assert_eq!(set(&[Format::Csvgz.as_str(), Format::Mmdb.as_str()]), expected);
    assert_eq!(set(&[DatabaseFormat::Csvgz.as_str(), DatabaseFormat::Mmdb.as_str()]), expected);

    for (built, single) in [(DatabaseFormat::Csvgz, Format::Csvgz), (DatabaseFormat::Mmdb, Format::Mmdb)] {
        assert_eq!(Format::from(built), single, "{} does not convert to itself", built.as_str());
        assert_eq!(DatabaseFormat::from(single), built, "{} does not convert back", single.as_str());
    }
}
