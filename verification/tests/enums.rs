use election_results::division::{decode_division, decode_division_exact, Division};
use election_results::party::{decode_party, decode_state, PartyAffilliation, State};
use election_results::ty::{FirstPreferences, Named, PrefDistribution, TwoCandidatePreferred};
use election_results::num::Decimal;

#[test]
fn party_known_code_decodes() {
    assert!(matches!(decode_party("ALP"), PartyAffilliation::ALP));
    assert!(matches!(decode_party("GRN"), PartyAffilliation::GRN));
    assert!(matches!(decode_party("NAFD"), PartyAffilliation::NAFD));
}

#[test]
fn party_unknown_code_falls_back_to_sentinel() {
    assert!(matches!(decode_party("ZZZ"), PartyAffilliation::NAFD));
}

#[test]
fn division_strips_non_alphabetic_before_matching() {
    assert_eq!(decode_division("Eden-Monaro"), Some(Division::EdenMonaro));
    assert_eq!(decode_division("O'Connor"), Some(Division::OConnor));
    assert_eq!(decode_division("Kingsford Smith"), Some(Division::KingsfordSmith));
    assert_eq!(decode_division("Bean"), Some(Division::Bean));
}

#[test]
fn division_unknown_name_fails() {
    assert_eq!(decode_division("NotARealPlace"), None);
}

#[test]
fn division_exact_match_does_not_strip() {
    assert_eq!(decode_division_exact("Bean"), Some(Division::Bean));
    assert_eq!(decode_division_exact("Eden-Monaro"), None);
    assert_eq!(decode_division_exact("EdenMonaro"), Some(Division::EdenMonaro));
}

#[test]
fn state_codes_decode_exactly() {
    assert_eq!(decode_state("VIC"), Some(State::VIC));
    assert_eq!(decode_state("NSW"), Some(State::NSW));
    assert_eq!(decode_state("ZZ"), None);
}

#[test]
fn record_kind_names() {
    assert_eq!(FirstPreferences::name(), "First Preference");
    assert_eq!(TwoCandidatePreferred::name(), "Two Candidate Preferred");
    assert_eq!(PrefDistribution::name(), "Preference Distribution");
}

#[test]
fn total_sums_the_five_vote_counts() {
    let r = FirstPreferences {
        party: PartyAffilliation::ALP,
        ordinary: 100,
        absent: 20,
        provisional: 3,
        prepoll: 40,
        postal: 5,
        swing: Decimal { negative: false, mantissa: 15, scale: 1 },
    };
    assert_eq!(r.total(), 168u128);
}

#[test]
fn total_widens_beyond_u64() {
    let r = FirstPreferences {
        party: PartyAffilliation::IND,
        ordinary: u64::MAX,
        absent: u64::MAX,
        provisional: 0,
        prepoll: 0,
        postal: 0,
        swing: Decimal { negative: false, mantissa: 0, scale: 0 },
    };
    assert_eq!(r.total(), 2u128 * u64::MAX as u128);
}
