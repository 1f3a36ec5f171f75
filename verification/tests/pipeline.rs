use election_results::process::{csv, decode_first_preferences, decode_pref_distribution,
    decode_two_candidate_preferred, DecodeError, ErrKind, FileError, Process, Row};
use election_results::division::Division;
use election_results::party::PartyAffilliation;
use election_results::ty::{FirstPreferences, PrefDistribution, TwoCandidatePreferred};

fn row(cells: &[(&str, &str)]) -> Row {
    Row {
        cells: cells.iter().map(|(k, v)| (k.to_string(), v.to_string())).collect(),
    }
}

const FP_HEADER: &str =
    "PartyAb,OrdinaryVotes,AbsentVotes,ProvisionalVotes,PrePollVotes,PostalVotes,TotalSwing";
const TCP_HEADER: &str = "DivisionNm,PartyAb,OrdinaryVotes,Swing,BallotPosition";
const PD_HEADER: &str = "PartyAb,DivisionNm,CalculationValue";

#[test]
fn header_resolution_prefers_longer_second_line() {
    // Title line, then a long header, then a short data row: the
    // header candidate wins.
    let text = format!("Results Summary\n{}\nALP,1\nGRN,7,8,9,10,11,2.5\n", FP_HEADER);
    let rows = csv(text.as_bytes()).unwrap();
    assert_eq!(rows.len(), 1);
    assert_eq!(rows[0].get("PartyAb"), Some(&"GRN".to_string()));
}

#[test]
fn header_resolution_prefers_longer_third_line() {
    // Title line, a short second line, and a long third line: the
    // third line is taken as the header.
    let text = format!("Results Summary\na,b\n{}\nALP,1,2,3,4,5,0.5\n", FP_HEADER);
    let rows = csv(text.as_bytes()).unwrap();
    assert_eq!(rows.len(), 1);
    assert_eq!(rows[0].get("PartyAb"), Some(&"ALP".to_string()));
    assert_eq!(rows[0].get("TotalSwing"), Some(&"0.5".to_string()));
}

#[test]
fn invalid_encoding_fails_the_whole_file() {
    let data: Vec<u8> = vec![0xff, 0xfe, 0x41];
    assert!(matches!(csv(&data), Err(FileError::InvalidEncoding)));
    assert!(matches!(FirstPreferences::process(&data), Err(FileError::InvalidEncoding)));
}

#[test]
fn first_preferences_decode_whole_file() {
    let text = format!(
        "{}\nskipped,row\nALP,100,10,5,20,30,1.5\nGRN,50,1,2,3,4,-0.25\n",
        FP_HEADER
    );
    let got = FirstPreferences::process(text.as_bytes()).unwrap();
    assert_eq!(got.len(), 2);
    assert!(matches!(got[0].party, PartyAffilliation::ALP));
    assert_eq!(got[0].ordinary, 100);
    assert_eq!(got[0].absent, 10);
    assert_eq!(got[0].provisional, 5);
    assert_eq!(got[0].prepoll, 20);
    assert_eq!(got[0].postal, 30);
    assert!(!got[0].swing.negative);
    assert_eq!(got[0].swing.mantissa, 15);
    assert_eq!(got[0].swing.scale, 1);
    assert!(got[1].swing.negative);
}

#[test]
fn unknown_party_does_not_drop_the_group() {
    let text = format!("{}\nskipped,row\nZZZ,1,2,3,4,5,0.0\n", FP_HEADER);
    let got = FirstPreferences::process(text.as_bytes()).unwrap();
    assert_eq!(got.len(), 1);
    assert!(matches!(got[0].party, PartyAffilliation::NAFD));
}

#[test]
fn bad_numeral_drops_only_its_group() {
    let text = format!(
        "{}\nskipped,row\nALP,abc,2,3,4,5,0.0\nGRN,9,8,7,6,5,0.0\n",
        FP_HEADER
    );
    let got = FirstPreferences::process(text.as_bytes()).unwrap();
    assert_eq!(got.len(), 1);
    assert!(matches!(got[0].party, PartyAffilliation::GRN));
}

#[test]
fn missing_column_drops_every_group() {
    let text = "PartyAb,OrdinaryVotes\nskipped,row\nALP,10\nGRN,20\n";
    let got = FirstPreferences::process(text.as_bytes()).unwrap();
    assert_eq!(got.len(), 0);
}

#[test]
fn unknown_division_drops_group_but_not_siblings() {
    let text = format!(
        "{}\nskip,row\nNotARealPlace,ALP,10,0.5,1\nNotARealPlace,LP,20,-0.5,2\nBean,ALP,30,1.0,1\nBean,LP,40,-1.0,2\n",
        TCP_HEADER
    );
    let got = TwoCandidatePreferred::process(text.as_bytes()).unwrap();
    assert_eq!(got.len(), 1);
    assert_eq!(got[0].division, Division::Bean);
    assert_eq!(got[0].parties.0.ordinary, 30);
    assert_eq!(got[0].parties.1.ordinary, 40);
    assert_eq!(got[0].parties.1.ballot_position, 2);
}

#[test]
fn odd_trailing_row_is_dropped_as_shape_error() {
    let text = format!(
        "{}\nskip,row\nBean,ALP,30,1.0,1\nBean,LP,40,-1.0,2\nCanberra,ALP,9,0.0,1\n",
        TCP_HEADER
    );
    let got = TwoCandidatePreferred::process(text.as_bytes()).unwrap();
    assert_eq!(got.len(), 1);
    assert_eq!(got[0].division, Division::Bean);
    // The lone trailing row decodes as a shape failure.
    let lone = row(&[
        ("DivisionNm", "Canberra"),
        ("PartyAb", "ALP"),
        ("OrdinaryVotes", "9"),
        ("Swing", "0.0"),
        ("BallotPosition", "1"),
    ]);
    let err: DecodeError = decode_two_candidate_preferred(&lone, None).unwrap_err();
    assert!(matches!(err.kind, ErrKind::GroupShape));
}

#[test]
fn pref_distribution_reads_first_and_last_of_four() {
    let text = format!(
        "{}\nskip,row\nALP,Bean,100\nx,y,1\nx,y,2\nALP,Bean,40\nGRN,Canberra,70\nx,y,3\nx,y,4\nGRN,Canberra,20\n",
        PD_HEADER
    );
    let got = PrefDistribution::process(text.as_bytes()).unwrap();
    assert_eq!(got.len(), 2);
    assert_eq!(got[0].division, Division::Bean);
    assert_eq!(got[0].preference_count, 100);
    assert_eq!(got[0].transfer_count, 40);
    assert_eq!(got[1].division, Division::Canberra);
    assert_eq!(got[1].preference_count, 70);
    assert_eq!(got[1].transfer_count, 20);
}

#[test]
fn pref_distribution_short_group_is_shape_error() {
    let first = row(&[("PartyAb", "ALP"), ("DivisionNm", "Bean"), ("CalculationValue", "5")]);
    let err = decode_pref_distribution(&first, None).unwrap_err();
    assert!(matches!(err.kind, ErrKind::GroupShape));
}

#[test]
fn decode_errors_name_their_kind() {
    let missing = row(&[("OrdinaryVotes", "10")]);
    let err = decode_first_preferences(&missing).unwrap_err();
    assert!(matches!(err.kind, ErrKind::MissingField));
    let bad = row(&[
        ("PartyAb", "ALP"),
        ("OrdinaryVotes", "ten"),
        ("AbsentVotes", "1"),
        ("ProvisionalVotes", "1"),
        ("PrePollVotes", "1"),
        ("PostalVotes", "1"),
        ("TotalSwing", "0.0"),
    ]);
    let err = decode_first_preferences(&bad).unwrap_err();
    assert!(matches!(err.kind, ErrKind::NumericConversion));
    let unrecognized = row(&[
        ("DivisionNm", "Atlantis"),
        ("PartyAb", "ALP"),
        ("OrdinaryVotes", "1"),
        ("Swing", "0.0"),
        ("BallotPosition", "1"),
    ]);
    let err = decode_two_candidate_preferred(&unrecognized, Some(&unrecognized)).unwrap_err();
    assert!(matches!(err.kind, ErrKind::DivisionUnrecognized));
}

#[test]
fn multi_byte_text_decodes_and_tokenizes() {
    let text = format!("{}\nskipped,row\n{},1,2,3,4,5,0.0\n", FP_HEADER, "Caf\u{e9}");
    let rows = csv(text.as_bytes()).unwrap();
    assert_eq!(rows.len(), 1);
    assert_eq!(rows[0].get("PartyAb"), Some(&"Caf\u{e9}".to_string()));
}

#[test]
fn empty_file_yields_no_records() {
    let got = FirstPreferences::process(b"").unwrap();
    assert_eq!(got.len(), 0);
}

#[test]
fn repeated_runs_agree() {
    let text = format!(
        "{}\nskipped,row\nALP,100,10,5,20,30,1.5\nZZZ,1,1,1,1,1,0.0\nGRN,abc,1,2,3,4,-0.25\n",
        FP_HEADER
    );
    let a = FirstPreferences::process(text.as_bytes()).unwrap();
    let b = FirstPreferences::process(text.as_bytes()).unwrap();
    assert_eq!(a, b);
    let tcp_text = format!(
        "{}\nskip,row\nBean,ALP,30,1.0,1\nBean,LP,40,-1.0,2\n",
        TCP_HEADER
    );
    let c = TwoCandidatePreferred::process(tcp_text.as_bytes()).unwrap();
    let d = TwoCandidatePreferred::process(tcp_text.as_bytes()).unwrap();
    assert_eq!(c, d);
}

#[test]
fn row_lookup_takes_last_duplicate_column() {
    let r = row(&[("A", "1"), ("A", "2")]);
    assert_eq!(r.get("A"), Some(&"2".to_string()));
    assert_eq!(r.get("B"), None);
}
