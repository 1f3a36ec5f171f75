use election_results::codec::{decode_cache, encode_cache};
use election_results::division::Division;
use election_results::num::Decimal;
use election_results::party::PartyAffilliation;
use election_results::ty::{FirstPreferences, PrefDistribution, TcpPP, TwoCandidatePreferred};

fn sample() -> (Vec<FirstPreferences>, Vec<TwoCandidatePreferred>, Vec<PrefDistribution>) {
    let fps = vec![
        FirstPreferences {
            party: PartyAffilliation::ALP,
            ordinary: 100,
            absent: 10,
            provisional: 5,
            prepoll: 20,
            postal: 30,
            swing: Decimal { negative: false, mantissa: 15, scale: 1 },
        },
        FirstPreferences {
            party: PartyAffilliation::NAFD,
            ordinary: 0,
            absent: 0,
            provisional: 0,
            prepoll: 0,
            postal: 0,
            swing: Decimal { negative: true, mantissa: 5, scale: 3 },
        },
    ];
    let tcps = vec![TwoCandidatePreferred {
        division: Division::EdenMonaro,
        parties: (
            TcpPP {
                party: PartyAffilliation::ALP,
                ordinary: 42,
                swing: Decimal { negative: false, mantissa: 0, scale: 0 },
                ballot_position: 1,
            },
            TcpPP {
                party: PartyAffilliation::LP,
                ordinary: 41,
                swing: Decimal { negative: true, mantissa: 125, scale: 2 },
                ballot_position: 2,
            },
        ),
    }];
    let pds = vec![PrefDistribution {
        division: Division::KingsfordSmith,
        party: PartyAffilliation::GRN,
        preference_count: 1234,
        transfer_count: 56,
    }];
    (fps, tcps, pds)
}

#[test]
fn cache_round_trip_preserves_every_field() {
    let (fps, tcps, pds) = sample();
    let text = encode_cache(&fps, &tcps, &pds);
    let (fps2, tcps2, pds2) = decode_cache(&text).unwrap();
    assert_eq!(fps, fps2);
    assert_eq!(tcps, tcps2);
    assert_eq!(pds, pds2);
}

#[test]
fn cache_round_trip_of_empty_collections() {
    let text = encode_cache(&vec![], &vec![], &vec![]);
    let (fps2, tcps2, pds2) = decode_cache(&text).unwrap();
    assert!(fps2.is_empty() && tcps2.is_empty() && pds2.is_empty());
}

#[test]
fn cache_text_is_line_oriented_and_keyed() {
    let (fps, tcps, pds) = sample();
    let text = encode_cache(&fps, &tcps, &pds);
    let lines: Vec<&str> = text.lines().collect();
    assert_eq!(lines[0], "first_preferences 2");
    assert_eq!(
        lines[1],
        "party=ALP ordinary=100 absent=10 provisional=5 prepoll=20 postal=30 swing=1.5"
    );
    assert_eq!(lines[3], "two_candidate_preferred 1");
    assert_eq!(lines[5], "preference_distribution 1");
    assert_eq!(
        lines[6],
        "division=KingsfordSmith party=GRN preference_count=1234 transfer_count=56"
    );
}

#[test]
fn corrupt_cache_is_rejected() {
    assert!(decode_cache("").is_none());
    assert!(decode_cache("first_preferences x").is_none());
    assert!(decode_cache("first_preferences 1").is_none());
    let (fps, tcps, pds) = sample();
    let text = encode_cache(&fps, &tcps, &pds);
    let truncated = text.rsplit_once('\n').unwrap().0;
    assert!(decode_cache(truncated).is_none());
    let padded = format!("{}\nextra", text);
    assert!(decode_cache(&padded).is_none());
}
