//! The persisted cache format for decoded record collections: a
//! human-readable, line-oriented text. Three sections in a fixed
//! order, each opened by a section line holding the section's name
//! and its record count, followed by one line per record of
//! space-separated `key=value` tokens, the keys being the record
//! kinds' field names. Reading an encoded collection back yields the
//! same collection.

use vstd::prelude::*;
use vstd::string::StrSliceExecFns;
use crate::chars::{str_chars, chars_to_string};
use crate::division::{Division, division_from, division_name, decode_division_exact,
    lemma_division_round_trip};
use crate::lines::{split_on, split_chars, join_with, join_chars, plain_token, lemma_split_join,
    lemma_join_push};
use crate::num::{Decimal, all_digits, is_digit, digits_val, u64_digits, u64_to_chars,
    decimal_chars, decimal_to_chars, parse_u64_spec, parse_u16_spec, parse_usize_spec, parse_decimal_spec,
    parse_u64, parse_u16, parse_usize, parse_decimal, lemma_u64_digits, lemma_u64_round_trip,
    lemma_decimal_round_trip, tail_chars};
use crate::party::{PartyAffilliation, party_from, party_code, decode_party,
    lemma_party_round_trip};
use crate::ty::{FirstPreferences, TcpPP, TwoCandidatePreferred, PrefDistribution};

verus! {

/// Characters that no token of the format may hold: the separators
/// of lines and of tokens.
pub open spec fn no_char(s: Seq<char>, c: char) -> bool {
    forall|i: int| 0 <= i < s.len() ==> (#[trigger] s[i]) != c
}

proof fn lemma_concat_no_char(a: Seq<char>, b: Seq<char>, c: char)
    requires
        no_char(a, c),
        no_char(b, c),
    ensures
        no_char(a + b, c),
{
    assert(forall|i: int| 0 <= i < a.len() ==> (a + b)[i] == a[i]);
    assert(forall|i: int| a.len() <= i < (a + b).len() ==> (a + b)[i] == b[i - a.len()]);
}

proof fn lemma_digits_no_char(s: Seq<char>, c: char)
    requires
        all_digits(s),
        (c as u32) < 48 || (c as u32) > 57,
    ensures
        no_char(s, c),
{
    assert(forall|i: int| 0 <= i < s.len() ==> is_digit(#[trigger] s[i]) && s[i] != c);
}

proof fn lemma_plain_no_char(s: Seq<char>)
    requires
        plain_token(s),
    ensures
        no_char(s, ' '),
        no_char(s, '\n'),
{
}

/// A joined line holds no occurrence of a character that no part
/// holds, when that character is not the separator itself.
proof fn lemma_join_no_char(parts: Seq<Seq<char>>, sep: char, c: char)
    requires
        c != sep,
        forall|i: int| 0 <= i < parts.len() ==> no_char(#[trigger] parts[i], c),
    ensures
        no_char(join_with(parts, sep), c),
    decreases parts.len(),
{
    if parts.len() == 0 {
    } else if parts.len() == 1 {
        assert(no_char(parts[0], c));
    } else {
        lemma_join_no_char(parts.drop_first(), sep, c);
        assert(forall|i: int| 0 <= i < parts.drop_first().len()
            ==> parts.drop_first()[i] == parts[i + 1]);
        assert(no_char(seq![sep], c)) by {
            assert(seq![sep][0] == sep);
        }
        lemma_concat_no_char(parts[0], seq![sep], c);
        lemma_concat_no_char(parts[0] + seq![sep], join_with(parts.drop_first(), sep), c);
        assert(parts[0] + seq![sep] + join_with(parts.drop_first(), sep)
            =~= (parts[0] + seq![sep]) + join_with(parts.drop_first(), sep));
    }
}

/// The decimal swing's rendering is a plain token.
proof fn lemma_decimal_plain(d: Decimal)
    requires
        d.wf(),
    ensures
        plain_token(decimal_chars(d)),
{
    let s = decimal_chars(d);
    let m = d.mantissa as nat;
    if d.scale == 0 {
        crate::num::lemma_u64_digits(m);
        let x = u64_digits(m);
        assert(forall|i: int| 0 <= i < s.len() ==> {
            let c = #[trigger] s[i];
            c == '-' || is_digit(c)
        }) by {
            if d.negative {
                assert(s == seq!['-'] + x);
                assert(s[0] == '-');
                assert(forall|i: int| 1 <= i < s.len() ==> #[trigger] s[i] == x[i - 1]);
            } else {
                assert(s =~= x);
            }
        }
    } else {
        let p = crate::num::pow10(d.scale as nat);
        crate::num::lemma_pow10_monotone(1, d.scale as nat);
        let ints = u64_digits(m / p);
        let fracs = crate::num::frac_digits(m % p, d.scale as nat);
        crate::num::lemma_u64_digits(m / p);
        crate::num::lemma_frac_digits(m % p, d.scale as nat);
        let x = ints + seq!['.'] + fracs;
        assert(forall|i: int| 0 <= i < x.len() ==> {
            let c = #[trigger] x[i];
            c == '.' || is_digit(c)
        }) by {
            assert(forall|i: int| 0 <= i < ints.len() ==> #[trigger] x[i] == ints[i]);
            assert(x[ints.len() as int] == '.');
            assert(forall|i: int| ints.len() + 1 <= i < x.len()
                ==> #[trigger] x[i] == fracs[i - ints.len() - 1]);
        }
        if d.negative {
            assert(s == seq!['-'] + x);
            assert(forall|i: int| 0 <= i < s.len() ==> {
                let c = #[trigger] s[i];
                c == '-' || c == '.' || is_digit(c)
            }) by {
                assert(s[0] == '-');
                assert(forall|i: int| 1 <= i < s.len() ==> #[trigger] s[i] == x[i - 1]);
            }
        } else {
            assert(s =~= x);
        }
    }
}

/// The key literals of the format are plain tokens.
proof fn key_facts()
    ensures
        plain_token("party="@) && "party="@.len() == 6,
        plain_token("ordinary="@) && "ordinary="@.len() == 9,
        plain_token("absent="@) && "absent="@.len() == 7,
        plain_token("provisional="@) && "provisional="@.len() == 12,
        plain_token("prepoll="@) && "prepoll="@.len() == 8,
        plain_token("postal="@) && "postal="@.len() == 7,
        plain_token("swing="@) && "swing="@.len() == 6,
        plain_token("division="@) && "division="@.len() == 9,
        plain_token("ballot_position="@) && "ballot_position="@.len() == 16,
        plain_token("preference_count="@) && "preference_count="@.len() == 17,
        plain_token("transfer_count="@) && "transfer_count="@.len() == 15,
        plain_token("first_preferences"@) && "first_preferences"@.len() == 17,
        plain_token("two_candidate_preferred"@) && "two_candidate_preferred"@.len() == 23,
        plain_token("preference_distribution"@) && "preference_distribution"@.len() == 23,
{
    reveal_strlit("party=");
    reveal_strlit("ordinary=");
    reveal_strlit("absent=");
    reveal_strlit("provisional=");
    reveal_strlit("prepoll=");
    reveal_strlit("postal=");
    reveal_strlit("swing=");
    reveal_strlit("division=");
    reveal_strlit("ballot_position=");
    reveal_strlit("preference_count=");
    reveal_strlit("transfer_count=");
    reveal_strlit("first_preferences");
    reveal_strlit("two_candidate_preferred");
    reveal_strlit("preference_distribution");
}

/// The rest of a token after its expected key, or nothing when the
/// token does not open with the key.
pub open spec fn parse_kv(t: Seq<char>, key: Seq<char>) -> Option<Seq<char>> {
    if t.len() >= key.len() && t.subrange(0, key.len() as int) == key {
        Some(t.skip(key.len() as int))
    } else {
        None
    }
}

/// A key-prefixed token parses back to its value.
proof fn lemma_kv_round_trip(key: Seq<char>, val: Seq<char>)
    ensures
        parse_kv(key + val, key) == Some(val),
{
    assert((key + val).subrange(0, key.len() as int) =~= key);
    assert((key + val).skip(key.len() as int) =~= val);
}

/// A token's key and value, as one token.
pub open spec fn kv(key: Seq<char>, val: Seq<char>) -> Seq<char> {
    key + val
}

/// One encoded first-preference record line.
pub open spec fn fp_line(r: FirstPreferences) -> Seq<char> {
    join_with(
        seq![
            kv("party="@, party_code(r.party)),
            kv("ordinary="@, u64_digits(r.ordinary as nat)),
            kv("absent="@, u64_digits(r.absent as nat)),
            kv("provisional="@, u64_digits(r.provisional as nat)),
            kv("prepoll="@, u64_digits(r.prepoll as nat)),
            kv("postal="@, u64_digits(r.postal as nat)),
            kv("swing="@, decimal_chars(r.swing)),
        ],
        ' ',
    )
}

/// What one first-preference line decodes to.
pub open spec fn parse_fp_line(line: Seq<char>) -> Option<FirstPreferences> {
    let ts = split_on(line, ' ');
    if ts.len() != 7 {
        None
    } else {
        match parse_kv(ts[0], "party="@) {
            Option::None => Option::None,
            Option::Some(pv) => match parse_kv(ts[1], "ordinary="@) {
                Option::None => Option::None,
                Option::Some(ov) => match parse_kv(ts[2], "absent="@) {
                    Option::None => Option::None,
                    Option::Some(av) => match parse_kv(ts[3], "provisional="@) {
                        Option::None => Option::None,
                        Option::Some(prv) => match parse_kv(ts[4], "prepoll="@) {
                            Option::None => Option::None,
                            Option::Some(ppv) => match parse_kv(ts[5], "postal="@) {
                                Option::None => Option::None,
                                Option::Some(pov) => match parse_kv(ts[6], "swing="@) {
                                    Option::None => Option::None,
                                    Option::Some(sv) => match (
                                        parse_u64_spec(ov),
                                        parse_u64_spec(av),
                                        parse_u64_spec(prv),
                                        parse_u64_spec(ppv),
                                        parse_u64_spec(pov),
                                        parse_decimal_spec(sv),
                                    ) {
                                        (
                                            Option::Some(ordinary),
                                            Option::Some(absent),
                                            Option::Some(provisional),
                                            Option::Some(prepoll),
                                            Option::Some(postal),
                                            Option::Some(swing),
                                        ) => Option::Some(
                                            FirstPreferences {
                                                party: party_from(pv),
                                                ordinary,
                                                absent,
                                                provisional,
                                                prepoll,
                                                postal,
                                                swing,
                                            },
                                        ),
                                        _ => Option::None,
                                    },
                                },
                            },
                        },
                    },
                },
            },
        }
    }
}

/// An encoded first-preference line holds no line feed and parses
/// back to its record.
proof fn lemma_fp_line_round_trip(r: FirstPreferences)
    requires
        r.wf(),
    ensures
        parse_fp_line(fp_line(r)) == Some(r),
        no_char(fp_line(r), '\n'),
{
    key_facts();
    lemma_party_round_trip(r.party);
    lemma_u64_digits(r.ordinary as nat);
    lemma_u64_digits(r.absent as nat);
    lemma_u64_digits(r.provisional as nat);
    lemma_u64_digits(r.prepoll as nat);
    lemma_u64_digits(r.postal as nat);
    lemma_decimal_plain(r.swing);
    let ts = seq![
        kv("party="@, party_code(r.party)),
        kv("ordinary="@, u64_digits(r.ordinary as nat)),
        kv("absent="@, u64_digits(r.absent as nat)),
        kv("provisional="@, u64_digits(r.provisional as nat)),
        kv("prepoll="@, u64_digits(r.prepoll as nat)),
        kv("postal="@, u64_digits(r.postal as nat)),
        kv("swing="@, decimal_chars(r.swing)),
    ];
    assert forall|i: int| 0 <= i < ts.len() implies !(#[trigger] ts[i]).contains(' ') by {
        assert(no_char(ts[0], ' ') && no_char(ts[1], ' ') && no_char(ts[2], ' ')
            && no_char(ts[3], ' ') && no_char(ts[4], ' ') && no_char(ts[5], ' ')
            && no_char(ts[6], ' ')) by {
            lemma_plain_no_char("party="@);
            lemma_plain_no_char(party_code(r.party));
            lemma_concat_no_char("party="@, party_code(r.party), ' ');
            lemma_plain_no_char("ordinary="@);
            lemma_digits_no_char(u64_digits(r.ordinary as nat), ' ');
            lemma_concat_no_char("ordinary="@, u64_digits(r.ordinary as nat), ' ');
            lemma_plain_no_char("absent="@);
            lemma_digits_no_char(u64_digits(r.absent as nat), ' ');
            lemma_concat_no_char("absent="@, u64_digits(r.absent as nat), ' ');
            lemma_plain_no_char("provisional="@);
            lemma_digits_no_char(u64_digits(r.provisional as nat), ' ');
            lemma_concat_no_char("provisional="@, u64_digits(r.provisional as nat), ' ');
            lemma_plain_no_char("prepoll="@);
            lemma_digits_no_char(u64_digits(r.prepoll as nat), ' ');
            lemma_concat_no_char("prepoll="@, u64_digits(r.prepoll as nat), ' ');
            lemma_plain_no_char("postal="@);
            lemma_digits_no_char(u64_digits(r.postal as nat), ' ');
            lemma_concat_no_char("postal="@, u64_digits(r.postal as nat), ' ');
            lemma_plain_no_char("swing="@);
            lemma_plain_no_char(decimal_chars(r.swing));
            lemma_concat_no_char("swing="@, decimal_chars(r.swing), ' ');
        }
        assert(!ts[i].contains(' ')) by {
            assert(no_char(ts[i], ' '));
        }
    }
    lemma_split_join(ts, ' ');
    assert(split_on(fp_line(r), ' ') == ts);
    lemma_kv_round_trip("party="@, party_code(r.party));
    lemma_kv_round_trip("ordinary="@, u64_digits(r.ordinary as nat));
    lemma_kv_round_trip("absent="@, u64_digits(r.absent as nat));
    lemma_kv_round_trip("provisional="@, u64_digits(r.provisional as nat));
    lemma_kv_round_trip("prepoll="@, u64_digits(r.prepoll as nat));
    lemma_kv_round_trip("postal="@, u64_digits(r.postal as nat));
    lemma_kv_round_trip("swing="@, decimal_chars(r.swing));
    lemma_u64_round_trip(r.ordinary);
    lemma_u64_round_trip(r.absent);
    lemma_u64_round_trip(r.provisional);
    lemma_u64_round_trip(r.prepoll);
    lemma_u64_round_trip(r.postal);
    lemma_decimal_round_trip(r.swing);
    assert(no_char(fp_line(r), '\n')) by {
        assert(forall|i: int| 0 <= i < ts.len() ==> no_char(#[trigger] ts[i], '\n')) by {
            lemma_plain_no_char("party="@);
            lemma_plain_no_char(party_code(r.party));
            lemma_concat_no_char("party="@, party_code(r.party), '\n');
            lemma_plain_no_char("ordinary="@);
            lemma_digits_no_char(u64_digits(r.ordinary as nat), '\n');
            lemma_concat_no_char("ordinary="@, u64_digits(r.ordinary as nat), '\n');
            lemma_plain_no_char("absent="@);
            lemma_digits_no_char(u64_digits(r.absent as nat), '\n');
            lemma_concat_no_char("absent="@, u64_digits(r.absent as nat), '\n');
            lemma_plain_no_char("provisional="@);
            lemma_digits_no_char(u64_digits(r.provisional as nat), '\n');
            lemma_concat_no_char("provisional="@, u64_digits(r.provisional as nat), '\n');
            lemma_plain_no_char("prepoll="@);
            lemma_digits_no_char(u64_digits(r.prepoll as nat), '\n');
            lemma_concat_no_char("prepoll="@, u64_digits(r.prepoll as nat), '\n');
            lemma_plain_no_char("postal="@);
            lemma_digits_no_char(u64_digits(r.postal as nat), '\n');
            lemma_concat_no_char("postal="@, u64_digits(r.postal as nat), '\n');
            lemma_plain_no_char("swing="@);
            lemma_plain_no_char(decimal_chars(r.swing));
            lemma_concat_no_char("swing="@, decimal_chars(r.swing), '\n');
        }
        lemma_join_no_char(ts, ' ', '\n');
    }
}

/// A token whose key is plain and whose value is free of separators
/// is itself free of separators.
proof fn lemma_kv_plain(key: Seq<char>, val: Seq<char>)
    requires
        plain_token(key),
        no_char(val, ' '),
        no_char(val, '\n'),
    ensures
        no_char(kv(key, val), ' '),
        no_char(kv(key, val), '\n'),
{
    lemma_plain_no_char(key);
    lemma_concat_no_char(key, val, ' ');
    lemma_concat_no_char(key, val, '\n');
}

proof fn lemma_u16_round_trip(v: u16)
    ensures
        parse_u16_spec(u64_digits(v as nat)) == Some(v),
{
    lemma_u64_digits(v as nat);
    assert(is_digit(u64_digits(v as nat)[0]));
    assert(u64_digits(v as nat)[0] != '+');
}

proof fn lemma_usize_round_trip(v: usize)
    ensures
        parse_usize_spec(u64_digits(v as nat)) == Some(v),
{
    lemma_u64_digits(v as nat);
    assert(is_digit(u64_digits(v as nat)[0]));
    assert(u64_digits(v as nat)[0] != '+');
}

/// One encoded two-candidate-preferred record line: the division,
/// then each sub-record's fields in order.
pub open spec fn tcp_line(r: TwoCandidatePreferred) -> Seq<char> {
    join_with(
        seq![
            kv("division="@, division_name(r.division)),
            kv("party="@, party_code(r.parties.0.party)),
            kv("ordinary="@, u64_digits(r.parties.0.ordinary as nat)),
            kv("swing="@, decimal_chars(r.parties.0.swing)),
            kv("ballot_position="@, u64_digits(r.parties.0.ballot_position as nat)),
            kv("party="@, party_code(r.parties.1.party)),
            kv("ordinary="@, u64_digits(r.parties.1.ordinary as nat)),
            kv("swing="@, decimal_chars(r.parties.1.swing)),
            kv("ballot_position="@, u64_digits(r.parties.1.ballot_position as nat)),
        ],
        ' ',
    )
}

/// What one two-candidate-preferred line decodes to.
pub open spec fn parse_tcp_line(line: Seq<char>) -> Option<TwoCandidatePreferred> {
    let ts = split_on(line, ' ');
    if ts.len() != 9 {
        None
    } else {
        match (
            parse_kv(ts[0], "division="@),
            parse_kv(ts[1], "party="@),
            parse_kv(ts[2], "ordinary="@),
            parse_kv(ts[3], "swing="@),
            parse_kv(ts[4], "ballot_position="@),
            parse_kv(ts[5], "party="@),
            parse_kv(ts[6], "ordinary="@),
            parse_kv(ts[7], "swing="@),
            parse_kv(ts[8], "ballot_position="@),
        ) {
            (
                Option::Some(dv),
                Option::Some(p0v),
                Option::Some(o0v),
                Option::Some(s0v),
                Option::Some(b0v),
                Option::Some(p1v),
                Option::Some(o1v),
                Option::Some(s1v),
                Option::Some(b1v),
            ) => match (
                division_from(dv),
                parse_u64_spec(o0v),
                parse_decimal_spec(s0v),
                parse_u16_spec(b0v),
                parse_u64_spec(o1v),
                parse_decimal_spec(s1v),
                parse_u16_spec(b1v),
            ) {
                (
                    Option::Some(division),
                    Option::Some(o0),
                    Option::Some(s0),
                    Option::Some(b0),
                    Option::Some(o1),
                    Option::Some(s1),
                    Option::Some(b1),
                ) => Option::Some(
                    TwoCandidatePreferred {
                        division,
                        parties: (
                            TcpPP {
                                party: party_from(p0v),
                                ordinary: o0,
                                swing: s0,
                                ballot_position: b0,
                            },
                            TcpPP {
                                party: party_from(p1v),
                                ordinary: o1,
                                swing: s1,
                                ballot_position: b1,
                            },
                        ),
                    },
                ),
                _ => Option::None,
            },
            _ => Option::None,
        }
    }
}

/// An encoded two-candidate-preferred line holds no line feed and
/// parses back to its record.
proof fn lemma_tcp_line_round_trip(r: TwoCandidatePreferred)
    requires
        r.wf(),
    ensures
        parse_tcp_line(tcp_line(r)) == Some(r),
        no_char(tcp_line(r), '\n'),
{
    key_facts();
    lemma_division_round_trip(r.division);
    lemma_party_round_trip(r.parties.0.party);
    lemma_party_round_trip(r.parties.1.party);
    lemma_u64_digits(r.parties.0.ordinary as nat);
    lemma_u64_digits(r.parties.1.ordinary as nat);
    lemma_u64_digits(r.parties.0.ballot_position as nat);
    lemma_u64_digits(r.parties.1.ballot_position as nat);
    lemma_decimal_plain(r.parties.0.swing);
    lemma_decimal_plain(r.parties.1.swing);
    let ts = seq![
        kv("division="@, division_name(r.division)),
        kv("party="@, party_code(r.parties.0.party)),
        kv("ordinary="@, u64_digits(r.parties.0.ordinary as nat)),
        kv("swing="@, decimal_chars(r.parties.0.swing)),
        kv("ballot_position="@, u64_digits(r.parties.0.ballot_position as nat)),
        kv("party="@, party_code(r.parties.1.party)),
        kv("ordinary="@, u64_digits(r.parties.1.ordinary as nat)),
        kv("swing="@, decimal_chars(r.parties.1.swing)),
        kv("ballot_position="@, u64_digits(r.parties.1.ballot_position as nat)),
    ];
    assert(no_char(ts[0], ' ') && no_char(ts[0], '\n')) by {
        lemma_plain_no_char(division_name(r.division));
        lemma_kv_plain("division="@, division_name(r.division));
    }
    assert(no_char(ts[1], ' ') && no_char(ts[1], '\n')) by {
        lemma_plain_no_char(party_code(r.parties.0.party));
        lemma_kv_plain("party="@, party_code(r.parties.0.party));
    }
    assert(no_char(ts[2], ' ') && no_char(ts[2], '\n')) by {
        lemma_digits_no_char(u64_digits(r.parties.0.ordinary as nat), ' ');
        lemma_digits_no_char(u64_digits(r.parties.0.ordinary as nat), '\n');
        lemma_kv_plain("ordinary="@, u64_digits(r.parties.0.ordinary as nat));
    }
    assert(no_char(ts[3], ' ') && no_char(ts[3], '\n')) by {
        lemma_plain_no_char(decimal_chars(r.parties.0.swing));
        lemma_kv_plain("swing="@, decimal_chars(r.parties.0.swing));
    }
    assert(no_char(ts[4], ' ') && no_char(ts[4], '\n')) by {
        lemma_digits_no_char(u64_digits(r.parties.0.ballot_position as nat), ' ');
        lemma_digits_no_char(u64_digits(r.parties.0.ballot_position as nat), '\n');
        lemma_kv_plain("ballot_position="@, u64_digits(r.parties.0.ballot_position as nat));
    }
    assert(no_char(ts[5], ' ') && no_char(ts[5], '\n')) by {
        lemma_plain_no_char(party_code(r.parties.1.party));
        lemma_kv_plain("party="@, party_code(r.parties.1.party));
    }
    assert(no_char(ts[6], ' ') && no_char(ts[6], '\n')) by {
        lemma_digits_no_char(u64_digits(r.parties.1.ordinary as nat), ' ');
        lemma_digits_no_char(u64_digits(r.parties.1.ordinary as nat), '\n');
        lemma_kv_plain("ordinary="@, u64_digits(r.parties.1.ordinary as nat));
    }
    assert(no_char(ts[7], ' ') && no_char(ts[7], '\n')) by {
        lemma_plain_no_char(decimal_chars(r.parties.1.swing));
        lemma_kv_plain("swing="@, decimal_chars(r.parties.1.swing));
    }
    assert(no_char(ts[8], ' ') && no_char(ts[8], '\n')) by {
        lemma_digits_no_char(u64_digits(r.parties.1.ballot_position as nat), ' ');
        lemma_digits_no_char(u64_digits(r.parties.1.ballot_position as nat), '\n');
        lemma_kv_plain("ballot_position="@, u64_digits(r.parties.1.ballot_position as nat));
    }
    assert(forall|i: int| 0 <= i < ts.len() ==> !(#[trigger] ts[i]).contains(' ')) by {
        assert(forall|i: int| 0 <= i < ts.len() ==> no_char(#[trigger] ts[i], ' '));
    }
    lemma_split_join(ts, ' ');
    assert(split_on(tcp_line(r), ' ') == ts);
    lemma_kv_round_trip("division="@, division_name(r.division));
    lemma_kv_round_trip("party="@, party_code(r.parties.0.party));
    lemma_kv_round_trip("ordinary="@, u64_digits(r.parties.0.ordinary as nat));
    lemma_kv_round_trip("swing="@, decimal_chars(r.parties.0.swing));
    lemma_kv_round_trip("ballot_position="@, u64_digits(r.parties.0.ballot_position as nat));
    lemma_kv_round_trip("party="@, party_code(r.parties.1.party));
    lemma_kv_round_trip("ordinary="@, u64_digits(r.parties.1.ordinary as nat));
    lemma_kv_round_trip("swing="@, decimal_chars(r.parties.1.swing));
    lemma_kv_round_trip("ballot_position="@, u64_digits(r.parties.1.ballot_position as nat));
    lemma_u64_round_trip(r.parties.0.ordinary);
    lemma_u64_round_trip(r.parties.1.ordinary);
    lemma_u16_round_trip(r.parties.0.ballot_position);
    lemma_u16_round_trip(r.parties.1.ballot_position);
    lemma_decimal_round_trip(r.parties.0.swing);
    lemma_decimal_round_trip(r.parties.1.swing);
    assert(no_char(tcp_line(r), '\n')) by {
        assert(forall|i: int| 0 <= i < ts.len() ==> no_char(#[trigger] ts[i], '\n'));
        lemma_join_no_char(ts, ' ', '\n');
    }
    assert(parse_tcp_line(tcp_line(r)) == Some(r));
}

/// One encoded preference-distribution record line.
pub open spec fn pd_line(r: PrefDistribution) -> Seq<char> {
    join_with(
        seq![
            kv("division="@, division_name(r.division)),
            kv("party="@, party_code(r.party)),
            kv("preference_count="@, u64_digits(r.preference_count as nat)),
            kv("transfer_count="@, u64_digits(r.transfer_count as nat)),
        ],
        ' ',
    )
}

/// What one preference-distribution line decodes to.
pub open spec fn parse_pd_line(line: Seq<char>) -> Option<PrefDistribution> {
    let ts = split_on(line, ' ');
    if ts.len() != 4 {
        None
    } else {
        match (
            parse_kv(ts[0], "division="@),
            parse_kv(ts[1], "party="@),
            parse_kv(ts[2], "preference_count="@),
            parse_kv(ts[3], "transfer_count="@),
        ) {
            (Option::Some(dv), Option::Some(pv), Option::Some(cv), Option::Some(tv)) => match (
                division_from(dv),
                parse_usize_spec(cv),
                parse_usize_spec(tv),
            ) {
                (Option::Some(division), Option::Some(pc), Option::Some(tc)) => Option::Some(
                    PrefDistribution {
                        division,
                        party: party_from(pv),
                        preference_count: pc,
                        transfer_count: tc,
                    },
                ),
                _ => Option::None,
            },
            _ => Option::None,
        }
    }
}

/// An encoded preference-distribution line holds no line feed and
/// parses back to its record.
proof fn lemma_pd_line_round_trip(r: PrefDistribution)
    ensures
        parse_pd_line(pd_line(r)) == Some(r),
        no_char(pd_line(r), '\n'),
{
    key_facts();
    lemma_division_round_trip(r.division);
    lemma_party_round_trip(r.party);
    lemma_u64_digits(r.preference_count as nat);
    lemma_u64_digits(r.transfer_count as nat);
    let ts = seq![
        kv("division="@, division_name(r.division)),
        kv("party="@, party_code(r.party)),
        kv("preference_count="@, u64_digits(r.preference_count as nat)),
        kv("transfer_count="@, u64_digits(r.transfer_count as nat)),
    ];
    assert(no_char(ts[0], ' ') && no_char(ts[0], '\n')) by {
        lemma_plain_no_char(division_name(r.division));
        lemma_kv_plain("division="@, division_name(r.division));
    }
    assert(no_char(ts[1], ' ') && no_char(ts[1], '\n')) by {
        lemma_plain_no_char(party_code(r.party));
        lemma_kv_plain("party="@, party_code(r.party));
    }
    assert(no_char(ts[2], ' ') && no_char(ts[2], '\n')) by {
        lemma_digits_no_char(u64_digits(r.preference_count as nat), ' ');
        lemma_digits_no_char(u64_digits(r.preference_count as nat), '\n');
        lemma_kv_plain("preference_count="@, u64_digits(r.preference_count as nat));
    }
    assert(no_char(ts[3], ' ') && no_char(ts[3], '\n')) by {
        lemma_digits_no_char(u64_digits(r.transfer_count as nat), ' ');
        lemma_digits_no_char(u64_digits(r.transfer_count as nat), '\n');
        lemma_kv_plain("transfer_count="@, u64_digits(r.transfer_count as nat));
    }
    assert(forall|i: int| 0 <= i < ts.len() ==> !(#[trigger] ts[i]).contains(' ')) by {
        assert(forall|i: int| 0 <= i < ts.len() ==> no_char(#[trigger] ts[i], ' '));
    }
    lemma_split_join(ts, ' ');
    assert(split_on(pd_line(r), ' ') == ts);
    lemma_kv_round_trip("division="@, division_name(r.division));
    lemma_kv_round_trip("party="@, party_code(r.party));
    lemma_kv_round_trip("preference_count="@, u64_digits(r.preference_count as nat));
    lemma_kv_round_trip("transfer_count="@, u64_digits(r.transfer_count as nat));
    lemma_usize_round_trip(r.preference_count);
    lemma_usize_round_trip(r.transfer_count);
    assert(no_char(pd_line(r), '\n')) by {
        assert(forall|i: int| 0 <= i < ts.len() ==> no_char(#[trigger] ts[i], '\n'));
        lemma_join_no_char(ts, ' ', '\n');
    }
    assert(parse_pd_line(pd_line(r)) == Some(r));
}


/// One section line: the section's name and its record count.
pub open spec fn section_line(name: Seq<char>, n: nat) -> Seq<char> {
    join_with(seq![name, u64_digits(n)], ' ')
}

/// What a section line decodes to: the count, when the line is the
/// named section's.
pub open spec fn parse_section_line(line: Seq<char>, name: Seq<char>) -> Option<usize> {
    let h = split_on(line, ' ');
    if h.len() == 2 && h[0] == name {
        parse_usize_spec(h[1])
    } else {
        None
    }
}

/// A section line holds no line feed and parses back to its count.
proof fn lemma_section_line_round_trip(name: Seq<char>, n: usize)
    requires
        plain_token(name),
    ensures
        parse_section_line(section_line(name, n as nat), name) == Some(n),
        no_char(section_line(name, n as nat), '\n'),
{
    lemma_u64_digits(n as nat);
    let ts = seq![name, u64_digits(n as nat)];
    assert(forall|i: int| 0 <= i < ts.len() ==> !(#[trigger] ts[i]).contains(' ')) by {
        lemma_plain_no_char(name);
        lemma_digits_no_char(u64_digits(n as nat), ' ');
        assert(no_char(ts[0], ' ') && no_char(ts[1], ' '));
    }
    lemma_split_join(ts, ' ');
    lemma_usize_round_trip(n);
    assert(no_char(section_line(name, n as nat), '\n')) by {
        lemma_plain_no_char(name);
        lemma_digits_no_char(u64_digits(n as nat), '\n');
        assert(forall|i: int| 0 <= i < ts.len() ==> no_char(#[trigger] ts[i], '\n'));
        lemma_join_no_char(ts, ' ', '\n');
    }
}

/// The records of a section's lines, when every line parses.
pub open spec fn parse_fp_lines(lines: Seq<Seq<char>>) -> Option<Seq<FirstPreferences>>
    decreases lines.len(),
{
    if lines.len() == 0 {
        Some(Seq::empty())
    } else {
        match parse_fp_line(lines[0]) {
            Option::None => Option::None,
            Option::Some(r) => match parse_fp_lines(lines.drop_first()) {
                Option::None => Option::None,
                Option::Some(rest) => Option::Some(seq![r] + rest),
            },
        }
    }
}

/// Encoded first-preference lines hold no line feed and parse back to their
/// records.
proof fn lemma_parse_fp_lines(rs: Seq<FirstPreferences>)
    requires
        forall|i: int| 0 <= i < rs.len() ==> (#[trigger] rs[i]).wf(),
    ensures
        parse_fp_lines(rs.map_values(|r: FirstPreferences| fp_line(r))) == Some(rs),
        forall|i: int| 0 <= i < rs.len() ==> no_char(fp_line(#[trigger] rs[i]), '\n'),
    decreases rs.len(),
{
    let m = rs.map_values(|r: FirstPreferences| fp_line(r));
    if rs.len() == 0 {
        assert(m =~= Seq::<Seq<char>>::empty());
    } else {
        lemma_fp_line_round_trip(rs[0]);
        assert(forall|i: int| 0 <= i < rs.drop_first().len()
            ==> rs.drop_first()[i] == rs[i + 1]);
        lemma_parse_fp_lines(rs.drop_first());
        assert(m[0] == fp_line(rs[0]));
        assert(m.drop_first() =~= rs.drop_first().map_values(|r: FirstPreferences| fp_line(r)));
        assert(seq![rs[0]] + rs.drop_first() =~= rs);
        assert(forall|i: int| 0 <= i < rs.len() ==> #[trigger] m[i] == fp_line(rs[i]));
    }
}


/// The records of a section's lines, when every line parses.
pub open spec fn parse_tcp_lines(lines: Seq<Seq<char>>) -> Option<Seq<TwoCandidatePreferred>>
    decreases lines.len(),
{
    if lines.len() == 0 {
        Some(Seq::empty())
    } else {
        match parse_tcp_line(lines[0]) {
            Option::None => Option::None,
            Option::Some(r) => match parse_tcp_lines(lines.drop_first()) {
                Option::None => Option::None,
                Option::Some(rest) => Option::Some(seq![r] + rest),
            },
        }
    }
}

/// Encoded two-candidate-preferred lines hold no line feed and parse back to their
/// records.
proof fn lemma_parse_tcp_lines(rs: Seq<TwoCandidatePreferred>)
    requires
        forall|i: int| 0 <= i < rs.len() ==> (#[trigger] rs[i]).wf(),
    ensures
        parse_tcp_lines(rs.map_values(|r: TwoCandidatePreferred| tcp_line(r))) == Some(rs),
        forall|i: int| 0 <= i < rs.len() ==> no_char(tcp_line(#[trigger] rs[i]), '\n'),
    decreases rs.len(),
{
    let m = rs.map_values(|r: TwoCandidatePreferred| tcp_line(r));
    if rs.len() == 0 {
        assert(m =~= Seq::<Seq<char>>::empty());
    } else {
        lemma_tcp_line_round_trip(rs[0]);
        assert(forall|i: int| 0 <= i < rs.drop_first().len()
            ==> rs.drop_first()[i] == rs[i + 1]);
        lemma_parse_tcp_lines(rs.drop_first());
        assert(m[0] == tcp_line(rs[0]));
        assert(m.drop_first() =~= rs.drop_first().map_values(|r: TwoCandidatePreferred| tcp_line(r)));
        assert(seq![rs[0]] + rs.drop_first() =~= rs);
        assert(forall|i: int| 0 <= i < rs.len() ==> #[trigger] m[i] == tcp_line(rs[i]));
    }
}


/// The records of a section's lines, when every line parses.
pub open spec fn parse_pd_lines(lines: Seq<Seq<char>>) -> Option<Seq<PrefDistribution>>
    decreases lines.len(),
{
    if lines.len() == 0 {
        Some(Seq::empty())
    } else {
        match parse_pd_line(lines[0]) {
            Option::None => Option::None,
            Option::Some(r) => match parse_pd_lines(lines.drop_first()) {
                Option::None => Option::None,
                Option::Some(rest) => Option::Some(seq![r] + rest),
            },
        }
    }
}

/// Encoded preference-distribution lines hold no line feed and parse back to their
/// records.
proof fn lemma_parse_pd_lines(rs: Seq<PrefDistribution>)
    requires
        forall|i: int| 0 <= i < rs.len() ==> (#[trigger] rs[i]) == rs[i],
    ensures
        parse_pd_lines(rs.map_values(|r: PrefDistribution| pd_line(r))) == Some(rs),
        forall|i: int| 0 <= i < rs.len() ==> no_char(pd_line(#[trigger] rs[i]), '\n'),
    decreases rs.len(),
{
    let m = rs.map_values(|r: PrefDistribution| pd_line(r));
    if rs.len() == 0 {
        assert(m =~= Seq::<Seq<char>>::empty());
    } else {
        lemma_pd_line_round_trip(rs[0]);
        assert(forall|i: int| 0 <= i < rs.drop_first().len()
            ==> rs.drop_first()[i] == rs[i + 1]);
        lemma_parse_pd_lines(rs.drop_first());
        assert(m[0] == pd_line(rs[0]));
        assert(m.drop_first() =~= rs.drop_first().map_values(|r: PrefDistribution| pd_line(r)));
        assert(seq![rs[0]] + rs.drop_first() =~= rs);
        assert(forall|i: int| 0 <= i < rs.len() ==> #[trigger] m[i] == pd_line(rs[i]));
    }
}

/// The encoded lines of a record-collection triple: each section's
/// line, then its record lines.
pub open spec fn encode_lines(
    fps: Seq<FirstPreferences>,
    tcps: Seq<TwoCandidatePreferred>,
    pds: Seq<PrefDistribution>,
) -> Seq<Seq<char>> {
    seq![section_line("first_preferences"@, fps.len())]
        + fps.map_values(|r: FirstPreferences| fp_line(r))
        + seq![section_line("two_candidate_preferred"@, tcps.len())]
        + tcps.map_values(|r: TwoCandidatePreferred| tcp_line(r))
        + seq![section_line("preference_distribution"@, pds.len())]
        + pds.map_values(|r: PrefDistribution| pd_line(r))
}

/// The persisted text of a record-collection triple.
pub open spec fn encode_cache_spec(
    fps: Seq<FirstPreferences>,
    tcps: Seq<TwoCandidatePreferred>,
    pds: Seq<PrefDistribution>,
) -> Seq<char> {
    join_with(encode_lines(fps, tcps, pds), '\n')
}

/// What a persisted text decodes to: the three record collections,
/// when every section is present, correctly counted and fully
/// parsed, with nothing after them.
pub open spec fn decode_cache_spec(text: Seq<char>) -> Option<
    (Seq<FirstPreferences>, Seq<TwoCandidatePreferred>, Seq<PrefDistribution>),
> {
    let lines = split_on(text, '\n');
    match parse_section_line(lines[0], "first_preferences"@) {
        Option::None => Option::None,
        Option::Some(n1) => if lines.len() >= 2 + n1 {
            match parse_section_line(lines[1 + n1], "two_candidate_preferred"@) {
                Option::None => Option::None,
                Option::Some(n2) => if lines.len() >= 3 + n1 + n2 {
                    match parse_section_line(
                        lines[2 + n1 + n2],
                        "preference_distribution"@,
                    ) {
                        Option::None => Option::None,
                        Option::Some(n3) => if lines.len() == 3 + n1 + n2 + n3 {
                            match (
                                parse_fp_lines(lines.subrange(1, 1 + n1)),
                                parse_tcp_lines(lines.subrange(2 + n1, 2 + n1 + n2)),
                                parse_pd_lines(
                                    lines.subrange(3 + n1 + n2, 3 + n1 + n2 + n3),
                                ),
                            ) {
                                (
                                    Option::Some(fps),
                                    Option::Some(tcps),
                                    Option::Some(pds),
                                ) => Option::Some((fps, tcps, pds)),
                                _ => Option::None,
                            }
                        } else {
                            Option::None
                        },
                    }
                } else {
                    Option::None
                },
            }
        } else {
            Option::None
        },
    }
}

/// Reading a persisted record-collection triple back yields the same
/// three collections, field for field.
pub proof fn lemma_cache_round_trip(
    fps: Seq<FirstPreferences>,
    tcps: Seq<TwoCandidatePreferred>,
    pds: Seq<PrefDistribution>,
)
    requires
        fps.len() <= usize::MAX,
        tcps.len() <= usize::MAX,
        pds.len() <= usize::MAX,
        forall|i: int| 0 <= i < fps.len() ==> (#[trigger] fps[i]).wf(),
        forall|i: int| 0 <= i < tcps.len() ==> (#[trigger] tcps[i]).wf(),
    ensures
        decode_cache_spec(encode_cache_spec(fps, tcps, pds)) == Some((fps, tcps, pds)),
{
    key_facts();
    let n1: int = fps.len() as int;
    let n2: int = tcps.len() as int;
    let n3: int = pds.len() as int;
    let h1 = section_line("first_preferences"@, fps.len());
    let h2 = section_line("two_candidate_preferred"@, tcps.len());
    let h3 = section_line("preference_distribution"@, pds.len());
    let b = fps.map_values(|r: FirstPreferences| fp_line(r));
    let d = tcps.map_values(|r: TwoCandidatePreferred| tcp_line(r));
    let f = pds.map_values(|r: PrefDistribution| pd_line(r));
    let lines = encode_lines(fps, tcps, pds);
    lemma_section_line_round_trip("first_preferences"@, n1 as usize);
    lemma_section_line_round_trip("two_candidate_preferred"@, n2 as usize);
    lemma_section_line_round_trip("preference_distribution"@, n3 as usize);
    lemma_parse_fp_lines(fps);
    lemma_parse_tcp_lines(tcps);
    lemma_parse_pd_lines(pds);
    assert(lines.len() == 3 + n1 + n2 + n3);
    assert(lines[0] == h1);
    assert(forall|k: int| 0 <= k < n1 ==> #[trigger] lines[1 + k] == b[k]);
    assert(lines[1 + n1] == h2);
    assert(forall|k: int| 0 <= k < n2 ==> #[trigger] lines[2 + n1 + k] == d[k]);
    assert(lines[2 + n1 + n2] == h3);
    assert(forall|k: int| 0 <= k < n3 ==> #[trigger] lines[3 + n1 + n2 + k] == f[k]);
    assert(forall|k: int| 0 <= k < n1 ==> #[trigger] b[k] == fp_line(fps[k]));
    assert(forall|k: int| 0 <= k < n2 ==> #[trigger] d[k] == tcp_line(tcps[k]));
    assert(forall|k: int| 0 <= k < n3 ==> #[trigger] f[k] == pd_line(pds[k]));
    assert(forall|i: int| 0 <= i < lines.len() ==> !(#[trigger] lines[i]).contains('\n')) by {
        assert(no_char(h1, '\n') && no_char(h2, '\n') && no_char(h3, '\n'));
        assert(forall|k: int| 0 <= k < n1 ==> no_char(#[trigger] b[k], '\n'));
        assert(forall|k: int| 0 <= k < n2 ==> no_char(#[trigger] d[k], '\n'));
        assert(forall|k: int| 0 <= k < n3 ==> no_char(#[trigger] f[k], '\n'));
        assert(forall|i: int| 0 <= i < lines.len() ==> no_char(#[trigger] lines[i], '\n'));
    }
    lemma_split_join(lines, '\n');
    assert(split_on(encode_cache_spec(fps, tcps, pds), '\n') == lines);
    assert(lines.subrange(1, 1 + n1) =~= b);
    assert(lines.subrange(2 + n1, 2 + n1 + n2) =~= d);
    assert(lines.subrange(3 + n1 + n2, 3 + n1 + n2 + n3) =~= f);
    assert(decode_cache_spec(encode_cache_spec(fps, tcps, pds)) == Some((fps, tcps, pds)));
}


/// A section's records prefixed to a possibly-failed rest.
pub open spec fn opt_concat<T>(a: Seq<T>, o: Option<Seq<T>>) -> Option<Seq<T>> {
    match o {
        Option::None => Option::None,
        Option::Some(r) => Option::Some(a + r),
    }
}

/// Character-vector equality.
fn chars_eq(a: &Vec<char>, b: &Vec<char>) -> (r: bool)
    ensures
        r == (a@ == b@),
{
    if a.len() != b.len() {
        return false;
    }
    let n = a.len();
    let mut i: usize = 0;
    while i < n
        invariant
            i <= n,
            n == a@.len(),
            n == b@.len(),
            forall|j: int| 0 <= j < i ==> a@[j] == b@[j],
        decreases n - i,
    {
        if a[i] != b[i] {
            return false;
        }
        i = i + 1;
    }
    proof {
        assert(a@ =~= b@);
    }
    true
}

/// The token's value when it opens with the key.
fn parse_kv_exec(t: &Vec<char>, key: &str) -> (r: Option<Vec<char>>)
    ensures
        r is Some <==> parse_kv(t@, key@) is Some,
        r matches Some(v) ==> parse_kv(t@, key@) == Some(v@),
{
    let k = str_chars(key);
    if t.len() < k.len() {
        return None;
    }
    let n = k.len();
    let mut i: usize = 0;
    while i < n
        invariant
            i <= n,
            n == k@.len(),
            n <= t@.len(),
            k@ == key@,
            forall|j: int| 0 <= j < i ==> t@[j] == k@[j],
        decreases n - i,
    {
        if t[i] != k[i] {
            proof {
                assert(t@.subrange(0, n as int)[i as int] != k@[i as int]);
            }
            return None;
        }
        i = i + 1;
    }
    proof {
        assert(t@.subrange(0, n as int) =~= k@);
    }
    let v = tail_chars(t, n);
    proof {
        assert(v@ =~= t@.skip(n as int));
    }
    Some(v)
}

/// A key and a value as one token.
fn kv_chars(key: &str, val: &Vec<char>) -> (r: Vec<char>)
    ensures
        r@ == kv(key@, val@),
{
    let k = str_chars(key);
    crate::num::concat_chars(&k, val)
}

/// One section line, executable form.
fn section_line_chars(name: &str, n: usize) -> (r: Vec<char>)
    ensures
        r@ == section_line(name@, n as nat),
{
    let mut ts: Vec<Vec<char>> = Vec::new();
    ts.push(str_chars(name));
    ts.push(u64_to_chars(n as u64));
    let r = join_chars(&ts, ' ');
    proof {
        assert(ts.deep_view() =~~= seq![name@, u64_digits(n as nat)]);
    }
    r
}

/// What a section line decodes to, executable form.
fn parse_section_exec(line: &Vec<char>, name: &str) -> (r: Option<usize>)
    ensures
        r == parse_section_line(line@, name@),
{
    let h = split_chars(line, ' ');
    if h.len() != 2 {
        proof {
            assert(split_on(line@, ' ').len() != 2);
        }
        return None;
    }
    proof {
        assert(h.deep_view()[0] == h@[0]@);
        assert(h.deep_view()[1] == h@[1]@);
    }
    let nm = str_chars(name);
    if !chars_eq(&h[0], &nm) {
        return None;
    }
    parse_usize(&h[1])
}


/// One encoded fp record line, executable form.
fn fp_line_chars(r: &FirstPreferences) -> (out: Vec<char>)
    requires
        r.wf(),
    ensures
        out@ == fp_line(*r),
{
    let mut ts: Vec<Vec<char>> = Vec::new();
    ts.push(kv_chars("party=", &str_chars(r.party.code().as_str())));
    ts.push(kv_chars("ordinary=", &u64_to_chars(r.ordinary)));
    ts.push(kv_chars("absent=", &u64_to_chars(r.absent)));
    ts.push(kv_chars("provisional=", &u64_to_chars(r.provisional)));
    ts.push(kv_chars("prepoll=", &u64_to_chars(r.prepoll)));
    ts.push(kv_chars("postal=", &u64_to_chars(r.postal)));
    ts.push(kv_chars("swing=", &decimal_to_chars(&r.swing)));
    let out = join_chars(&ts, ' ');
    proof {
        assert(ts.deep_view() =~~= seq![
            kv("party="@, party_code(r.party)),
            kv("ordinary="@, u64_digits(r.ordinary as nat)),
            kv("absent="@, u64_digits(r.absent as nat)),
            kv("provisional="@, u64_digits(r.provisional as nat)),
            kv("prepoll="@, u64_digits(r.prepoll as nat)),
            kv("postal="@, u64_digits(r.postal as nat)),
            kv("swing="@, decimal_chars(r.swing)),
        ]);
    }
    out
}

/// One encoded tcp record line, executable form.
fn tcp_line_chars(r: &TwoCandidatePreferred) -> (out: Vec<char>)
    requires
        r.wf(),
    ensures
        out@ == tcp_line(*r),
{
    let mut ts: Vec<Vec<char>> = Vec::new();
    ts.push(kv_chars("division=", &str_chars(r.division.name_str().as_str())));
    ts.push(kv_chars("party=", &str_chars(r.parties.0.party.code().as_str())));
    ts.push(kv_chars("ordinary=", &u64_to_chars(r.parties.0.ordinary)));
    ts.push(kv_chars("swing=", &decimal_to_chars(&r.parties.0.swing)));
    ts.push(kv_chars("ballot_position=", &u64_to_chars(r.parties.0.ballot_position as u64)));
    ts.push(kv_chars("party=", &str_chars(r.parties.1.party.code().as_str())));
    ts.push(kv_chars("ordinary=", &u64_to_chars(r.parties.1.ordinary)));
    ts.push(kv_chars("swing=", &decimal_to_chars(&r.parties.1.swing)));
    ts.push(kv_chars("ballot_position=", &u64_to_chars(r.parties.1.ballot_position as u64)));
    let out = join_chars(&ts, ' ');
    proof {
        assert(ts.deep_view() =~~= seq![
            kv("division="@, division_name(r.division)),
            kv("party="@, party_code(r.parties.0.party)),
            kv("ordinary="@, u64_digits(r.parties.0.ordinary as nat)),
            kv("swing="@, decimal_chars(r.parties.0.swing)),
            kv("ballot_position="@, u64_digits(r.parties.0.ballot_position as nat)),
            kv("party="@, party_code(r.parties.1.party)),
            kv("ordinary="@, u64_digits(r.parties.1.ordinary as nat)),
            kv("swing="@, decimal_chars(r.parties.1.swing)),
            kv("ballot_position="@, u64_digits(r.parties.1.ballot_position as nat)),
        ]);
    }
    out
}

/// One encoded pd record line, executable form.
fn pd_line_chars(r: &PrefDistribution) -> (out: Vec<char>)
    ensures
        out@ == pd_line(*r),
{
    let mut ts: Vec<Vec<char>> = Vec::new();
    ts.push(kv_chars("division=", &str_chars(r.division.name_str().as_str())));
    ts.push(kv_chars("party=", &str_chars(r.party.code().as_str())));
    ts.push(kv_chars("preference_count=", &u64_to_chars(r.preference_count as u64)));
    ts.push(kv_chars("transfer_count=", &u64_to_chars(r.transfer_count as u64)));
    let out = join_chars(&ts, ' ');
    proof {
        assert(ts.deep_view() =~~= seq![
            kv("division="@, division_name(r.division)),
            kv("party="@, party_code(r.party)),
            kv("preference_count="@, u64_digits(r.preference_count as nat)),
            kv("transfer_count="@, u64_digits(r.transfer_count as nat)),
        ]);
    }
    out
}


/// Plain splitting always yields at least one segment.
proof fn lemma_split_from_len(rest: Seq<char>, sep: char, current: Seq<char>)
    ensures
        crate::lines::split_from(rest, sep, current).len() >= 1,
    decreases rest.len(),
{
    if rest.len() == 0 {
    } else if rest[0] == sep {
    } else {
        lemma_split_from_len(rest.drop_first(), sep, current.push(rest[0]));
    }
}


/// What one fp line decodes to, executable form.
fn parse_fp_line_exec(line: &Vec<char>) -> (r: Option<FirstPreferences>)
    ensures
        r == parse_fp_line(line@),
{
    let ts = split_chars(line, ' ');
    if ts.len() != 7 {
        return None;
    }
    proof {
        assert(ts.deep_view()[0] == ts@[0]@);
        assert(ts.deep_view()[1] == ts@[1]@);
        assert(ts.deep_view()[2] == ts@[2]@);
        assert(ts.deep_view()[3] == ts@[3]@);
        assert(ts.deep_view()[4] == ts@[4]@);
        assert(ts.deep_view()[5] == ts@[5]@);
        assert(ts.deep_view()[6] == ts@[6]@);
    }
    let pv = match parse_kv_exec(&ts[0], "party=") {
        Some(v) => v,
        None => {
            return None;
        },
    };
    let ov = match parse_kv_exec(&ts[1], "ordinary=") {
        Some(v) => v,
        None => {
            return None;
        },
    };
    let av = match parse_kv_exec(&ts[2], "absent=") {
        Some(v) => v,
        None => {
            return None;
        },
    };
    let prv = match parse_kv_exec(&ts[3], "provisional=") {
        Some(v) => v,
        None => {
            return None;
        },
    };
    let ppv = match parse_kv_exec(&ts[4], "prepoll=") {
        Some(v) => v,
        None => {
            return None;
        },
    };
    let pov = match parse_kv_exec(&ts[5], "postal=") {
        Some(v) => v,
        None => {
            return None;
        },
    };
    let sv = match parse_kv_exec(&ts[6], "swing=") {
        Some(v) => v,
        None => {
            return None;
        },
    };
    let pv_s = chars_to_string(&pv);
    let pv_p = decode_party(pv_s.as_str());
    let ov_p = match parse_u64(&ov) {
        Some(v) => v,
        None => {
            return None;
        },
    };
    let av_p = match parse_u64(&av) {
        Some(v) => v,
        None => {
            return None;
        },
    };
    let prv_p = match parse_u64(&prv) {
        Some(v) => v,
        None => {
            return None;
        },
    };
    let ppv_p = match parse_u64(&ppv) {
        Some(v) => v,
        None => {
            return None;
        },
    };
    let pov_p = match parse_u64(&pov) {
        Some(v) => v,
        None => {
            return None;
        },
    };
    let sv_p = match parse_decimal(&sv) {
        Some(v) => v,
        None => {
            return None;
        },
    };
    Some(FirstPreferences { party: pv_p, ordinary: ov_p, absent: av_p, provisional: prv_p, prepoll: ppv_p, postal: pov_p, swing: sv_p })
}

/// What one tcp line decodes to, executable form.
fn parse_tcp_line_exec(line: &Vec<char>) -> (r: Option<TwoCandidatePreferred>)
    ensures
        r == parse_tcp_line(line@),
{
    let ts = split_chars(line, ' ');
    if ts.len() != 9 {
        return None;
    }
    proof {
        assert(ts.deep_view()[0] == ts@[0]@);
        assert(ts.deep_view()[1] == ts@[1]@);
        assert(ts.deep_view()[2] == ts@[2]@);
        assert(ts.deep_view()[3] == ts@[3]@);
        assert(ts.deep_view()[4] == ts@[4]@);
        assert(ts.deep_view()[5] == ts@[5]@);
        assert(ts.deep_view()[6] == ts@[6]@);
        assert(ts.deep_view()[7] == ts@[7]@);
        assert(ts.deep_view()[8] == ts@[8]@);
    }
    let dv = match parse_kv_exec(&ts[0], "division=") {
        Some(v) => v,
        None => {
            return None;
        },
    };
    let p0v = match parse_kv_exec(&ts[1], "party=") {
        Some(v) => v,
        None => {
            return None;
        },
    };
    let o0v = match parse_kv_exec(&ts[2], "ordinary=") {
        Some(v) => v,
        None => {
            return None;
        },
    };
    let s0v = match parse_kv_exec(&ts[3], "swing=") {
        Some(v) => v,
        None => {
            return None;
        },
    };
    let b0v = match parse_kv_exec(&ts[4], "ballot_position=") {
        Some(v) => v,
        None => {
            return None;
        },
    };
    let p1v = match parse_kv_exec(&ts[5], "party=") {
        Some(v) => v,
        None => {
            return None;
        },
    };
    let o1v = match parse_kv_exec(&ts[6], "ordinary=") {
        Some(v) => v,
        None => {
            return None;
        },
    };
    let s1v = match parse_kv_exec(&ts[7], "swing=") {
        Some(v) => v,
        None => {
            return None;
        },
    };
    let b1v = match parse_kv_exec(&ts[8], "ballot_position=") {
        Some(v) => v,
        None => {
            return None;
        },
    };
    let dv_s = chars_to_string(&dv);
    let dv_p = match decode_division_exact(dv_s.as_str()) {
        Some(v) => v,
        None => {
            return None;
        },
    };
    let p0v_s = chars_to_string(&p0v);
    let p0v_p = decode_party(p0v_s.as_str());
    let o0v_p = match parse_u64(&o0v) {
        Some(v) => v,
        None => {
            return None;
        },
    };
    let s0v_p = match parse_decimal(&s0v) {
        Some(v) => v,
        None => {
            return None;
        },
    };
    let b0v_p = match parse_u16(&b0v) {
        Some(v) => v,
        None => {
            return None;
        },
    };
    let p1v_s = chars_to_string(&p1v);
    let p1v_p = decode_party(p1v_s.as_str());
    let o1v_p = match parse_u64(&o1v) {
        Some(v) => v,
        None => {
            return None;
        },
    };
    let s1v_p = match parse_decimal(&s1v) {
        Some(v) => v,
        None => {
            return None;
        },
    };
    let b1v_p = match parse_u16(&b1v) {
        Some(v) => v,
        None => {
            return None;
        },
    };
    Some(TwoCandidatePreferred { division: dv_p, parties: (TcpPP { party: p0v_p, ordinary: o0v_p, swing: s0v_p, ballot_position: b0v_p }, TcpPP { party: p1v_p, ordinary: o1v_p, swing: s1v_p, ballot_position: b1v_p }) })
}

/// What one pd line decodes to, executable form.
fn parse_pd_line_exec(line: &Vec<char>) -> (r: Option<PrefDistribution>)
    ensures
        r == parse_pd_line(line@),
{
    let ts = split_chars(line, ' ');
    if ts.len() != 4 {
        return None;
    }
    proof {
        assert(ts.deep_view()[0] == ts@[0]@);
        assert(ts.deep_view()[1] == ts@[1]@);
        assert(ts.deep_view()[2] == ts@[2]@);
        assert(ts.deep_view()[3] == ts@[3]@);
    }
    let dv = match parse_kv_exec(&ts[0], "division=") {
        Some(v) => v,
        None => {
            return None;
        },
    };
    let pv = match parse_kv_exec(&ts[1], "party=") {
        Some(v) => v,
        None => {
            return None;
        },
    };
    let cv = match parse_kv_exec(&ts[2], "preference_count=") {
        Some(v) => v,
        None => {
            return None;
        },
    };
    let tv = match parse_kv_exec(&ts[3], "transfer_count=") {
        Some(v) => v,
        None => {
            return None;
        },
    };
    let dv_s = chars_to_string(&dv);
    let dv_p = match decode_division_exact(dv_s.as_str()) {
        Some(v) => v,
        None => {
            return None;
        },
    };
    let pv_s = chars_to_string(&pv);
    let pv_p = decode_party(pv_s.as_str());
    let cv_p = match parse_usize(&cv) {
        Some(v) => v,
        None => {
            return None;
        },
    };
    let tv_p = match parse_usize(&tv) {
        Some(v) => v,
        None => {
            return None;
        },
    };
    Some(PrefDistribution { division: dv_p, party: pv_p, preference_count: cv_p, transfer_count: tv_p })
}


/// Parses one section's record lines, executable form.
fn parse_fp_section(lines: &Vec<Vec<char>>, start: usize, count: usize) -> (r: Option<
    Vec<FirstPreferences>,
>)
    requires
        start + count <= lines@.len(),
    ensures
        r is Some <==> parse_fp_lines(
            lines.deep_view().subrange(start as int, start + count),
        ) is Some,
        r matches Some(v) ==> parse_fp_lines(
            lines.deep_view().subrange(start as int, start + count),
        ) == Some(v@),
{
    let n_lines = lines.len();
    let ghost sect = lines.deep_view().subrange(start as int, start + count);
    let mut acc: Vec<FirstPreferences> = Vec::new();
    let mut k: usize = 0;
    proof {
        assert(sect.skip(0) =~= sect);
    }
    while k < count
        invariant
            k <= count,
            n_lines == lines@.len(),
            start + count <= lines@.len(),
            sect == lines.deep_view().subrange(start as int, start + count),
            acc@.len() == k,
            parse_fp_lines(sect) == opt_concat(acc@, parse_fp_lines(sect.skip(k as int))),
        decreases count - k,
    {
        proof {
            assert(sect.skip(k as int)[0] == sect[k as int]);
            assert(sect[k as int] == lines.deep_view()[start + k]);
            assert(lines.deep_view()[start + k] == lines@[start + k]@);
            assert(sect.skip(k as int).drop_first() =~= sect.skip(k + 1));
        }
        match parse_fp_line_exec(&lines[start + k]) {
            Some(v) => {
                let ghost old_acc = acc@;
                acc.push(v);
                proof {
                    assert(acc@ =~= old_acc + seq![v]);
                    match parse_fp_lines(sect.skip(k + 1)) {
                        Option::Some(rest) => {
                            assert((old_acc + seq![v]) + rest =~= old_acc + (seq![v] + rest));
                        },
                        Option::None => {},
                    }
                }
            },
            None => {
                return None;
            },
        }
        k = k + 1;
    }
    proof {
        assert(sect.skip(count as int) =~= Seq::<Seq<char>>::empty());
        assert(acc@ + Seq::<FirstPreferences>::empty() =~= acc@);
    }
    Some(acc)
}



/// Parses one section's record lines, executable form.
fn parse_tcp_section(lines: &Vec<Vec<char>>, start: usize, count: usize) -> (r: Option<
    Vec<TwoCandidatePreferred>,
>)
    requires
        start + count <= lines@.len(),
    ensures
        r is Some <==> parse_tcp_lines(
            lines.deep_view().subrange(start as int, start + count),
        ) is Some,
        r matches Some(v) ==> parse_tcp_lines(
            lines.deep_view().subrange(start as int, start + count),
        ) == Some(v@),
{
    let n_lines = lines.len();
    let ghost sect = lines.deep_view().subrange(start as int, start + count);
    let mut acc: Vec<TwoCandidatePreferred> = Vec::new();
    let mut k: usize = 0;
    proof {
        assert(sect.skip(0) =~= sect);
    }
    while k < count
        invariant
            k <= count,
            n_lines == lines@.len(),
            start + count <= lines@.len(),
            sect == lines.deep_view().subrange(start as int, start + count),
            acc@.len() == k,
            parse_tcp_lines(sect) == opt_concat(acc@, parse_tcp_lines(sect.skip(k as int))),
        decreases count - k,
    {
        proof {
            assert(sect.skip(k as int)[0] == sect[k as int]);
            assert(sect[k as int] == lines.deep_view()[start + k]);
            assert(lines.deep_view()[start + k] == lines@[start + k]@);
            assert(sect.skip(k as int).drop_first() =~= sect.skip(k + 1));
        }
        match parse_tcp_line_exec(&lines[start + k]) {
            Some(v) => {
                let ghost old_acc = acc@;
                acc.push(v);
                proof {
                    assert(acc@ =~= old_acc + seq![v]);
                    match parse_tcp_lines(sect.skip(k + 1)) {
                        Option::Some(rest) => {
                            assert((old_acc + seq![v]) + rest =~= old_acc + (seq![v] + rest));
                        },
                        Option::None => {},
                    }
                }
            },
            None => {
                return None;
            },
        }
        k = k + 1;
    }
    proof {
        assert(sect.skip(count as int) =~= Seq::<Seq<char>>::empty());
        assert(acc@ + Seq::<TwoCandidatePreferred>::empty() =~= acc@);
    }
    Some(acc)
}



/// Parses one section's record lines, executable form.
fn parse_pd_section(lines: &Vec<Vec<char>>, start: usize, count: usize) -> (r: Option<
    Vec<PrefDistribution>,
>)
    requires
        start + count <= lines@.len(),
    ensures
        r is Some <==> parse_pd_lines(
            lines.deep_view().subrange(start as int, start + count),
        ) is Some,
        r matches Some(v) ==> parse_pd_lines(
            lines.deep_view().subrange(start as int, start + count),
        ) == Some(v@),
{
    let n_lines = lines.len();
    let ghost sect = lines.deep_view().subrange(start as int, start + count);
    let mut acc: Vec<PrefDistribution> = Vec::new();
    let mut k: usize = 0;
    proof {
        assert(sect.skip(0) =~= sect);
    }
    while k < count
        invariant
            k <= count,
            n_lines == lines@.len(),
            start + count <= lines@.len(),
            sect == lines.deep_view().subrange(start as int, start + count),
            acc@.len() == k,
            parse_pd_lines(sect) == opt_concat(acc@, parse_pd_lines(sect.skip(k as int))),
        decreases count - k,
    {
        proof {
            assert(sect.skip(k as int)[0] == sect[k as int]);
            assert(sect[k as int] == lines.deep_view()[start + k]);
            assert(lines.deep_view()[start + k] == lines@[start + k]@);
            assert(sect.skip(k as int).drop_first() =~= sect.skip(k + 1));
        }
        match parse_pd_line_exec(&lines[start + k]) {
            Some(v) => {
                let ghost old_acc = acc@;
                acc.push(v);
                proof {
                    assert(acc@ =~= old_acc + seq![v]);
                    match parse_pd_lines(sect.skip(k + 1)) {
                        Option::Some(rest) => {
                            assert((old_acc + seq![v]) + rest =~= old_acc + (seq![v] + rest));
                        },
                        Option::None => {},
                    }
                }
            },
            None => {
                return None;
            },
        }
        k = k + 1;
    }
    proof {
        assert(sect.skip(count as int) =~= Seq::<Seq<char>>::empty());
        assert(acc@ + Seq::<PrefDistribution>::empty() =~= acc@);
    }
    Some(acc)
}


/// Encodes a record-collection triple into the persisted text.
pub fn encode_cache(
    fps: &Vec<FirstPreferences>,
    tcps: &Vec<TwoCandidatePreferred>,
    pds: &Vec<PrefDistribution>,
) -> (r: String)
    requires
        forall|i: int| 0 <= i < fps@.len() ==> (#[trigger] fps@[i]).wf(),
        forall|i: int| 0 <= i < tcps@.len() ==> (#[trigger] tcps@[i]).wf(),
    ensures
        r@ == encode_cache_spec(fps@, tcps@, pds@),
{
    let ghost n1: int = fps@.len() as int;
    let ghost n2: int = tcps@.len() as int;
    let ghost n3: int = pds@.len() as int;
    let ghost h1 = section_line("first_preferences"@, fps@.len());
    let ghost h2 = section_line("two_candidate_preferred"@, tcps@.len());
    let ghost h3 = section_line("preference_distribution"@, pds@.len());
    let mut lines: Vec<Vec<char>> = Vec::new();
    lines.push(section_line_chars("first_preferences", fps.len()));
    proof {
        assert(lines@[0]@ == h1);
    }
    let mut i: usize = 0;
    while i < fps.len()
        invariant
            i <= fps@.len(),
            forall|k: int| 0 <= k < fps@.len() ==> (#[trigger] fps@[k]).wf(),
            lines@.len() == 1 + i,
            lines@[0]@ == h1,
            forall|k: int| 0 <= k < i ==> (#[trigger] lines@[1 + k])@ == fp_line(fps@[k]),
        decreases fps@.len() - i,
    {
        let ghost old_lines = lines@;
        lines.push(fp_line_chars(&fps[i]));
        proof {
            assert(lines@ == old_lines.push(lines@[old_lines.len() as int]));
            assert(forall|k: int| 0 <= k < old_lines.len() ==> lines@[k] == old_lines[k]);
            assert(lines@[1 + i as int]@ == fp_line(fps@[i as int]));
        }
        i = i + 1;
    }
    lines.push(section_line_chars("two_candidate_preferred", tcps.len()));
    proof {
        assert(lines@[1 + n1]@ == h2);
    }
    let mut i2: usize = 0;
    while i2 < tcps.len()
        invariant
            i2 <= tcps@.len(),
            n1 == fps@.len(),
            forall|k: int| 0 <= k < tcps@.len() ==> (#[trigger] tcps@[k]).wf(),
            lines@.len() == 2 + n1 + i2,
            lines@[0]@ == h1,
            forall|k: int| 0 <= k < n1 ==> (#[trigger] lines@[1 + k])@ == fp_line(fps@[k]),
            lines@[1 + n1]@ == h2,
            forall|k: int| 0 <= k < i2 ==> (#[trigger] lines@[2 + n1 + k])@ == tcp_line(tcps@[k]),
        decreases tcps@.len() - i2,
    {
        let ghost old_lines = lines@;
        lines.push(tcp_line_chars(&tcps[i2]));
        proof {
            assert(forall|k: int| 0 <= k < old_lines.len() ==> lines@[k] == old_lines[k]);
            assert(lines@[2 + n1 + i2 as int]@ == tcp_line(tcps@[i2 as int]));
        }
        i2 = i2 + 1;
    }
    lines.push(section_line_chars("preference_distribution", pds.len()));
    proof {
        assert(lines@[2 + n1 + n2]@ == h3);
    }
    let mut i3: usize = 0;
    while i3 < pds.len()
        invariant
            i3 <= pds@.len(),
            n1 == fps@.len(),
            n2 == tcps@.len(),
            lines@.len() == 3 + n1 + n2 + i3,
            lines@[0]@ == h1,
            forall|k: int| 0 <= k < n1 ==> (#[trigger] lines@[1 + k])@ == fp_line(fps@[k]),
            lines@[1 + n1]@ == h2,
            forall|k: int| 0 <= k < n2 ==> (#[trigger] lines@[2 + n1 + k])@ == tcp_line(tcps@[k]),
            lines@[2 + n1 + n2]@ == h3,
            forall|k: int| 0 <= k < i3 ==> (#[trigger] lines@[3 + n1 + n2 + k])@ == pd_line(pds@[k]),
        decreases pds@.len() - i3,
    {
        let ghost old_lines = lines@;
        lines.push(pd_line_chars(&pds[i3]));
        proof {
            assert(forall|k: int| 0 <= k < old_lines.len() ==> lines@[k] == old_lines[k]);
            assert(lines@[3 + n1 + n2 + i3 as int]@ == pd_line(pds@[i3 as int]));
        }
        i3 = i3 + 1;
    }
    proof {
        let target = encode_lines(fps@, tcps@, pds@);
        let b = fps@.map_values(|r: FirstPreferences| fp_line(r));
        let d = tcps@.map_values(|r: TwoCandidatePreferred| tcp_line(r));
        let f = pds@.map_values(|r: PrefDistribution| pd_line(r));
        assert(target.len() == 3 + n1 + n2 + n3);
        assert(target[0] == h1);
        assert(forall|k: int| 0 <= k < n1 ==> #[trigger] target[1 + k] == b[k]);
        assert(target[1 + n1] == h2);
        assert(forall|k: int| 0 <= k < n2 ==> #[trigger] target[2 + n1 + k] == d[k]);
        assert(target[2 + n1 + n2] == h3);
        assert(forall|k: int| 0 <= k < n3 ==> #[trigger] target[3 + n1 + n2 + k] == f[k]);
        assert(forall|k: int| 0 <= k < n1 ==> #[trigger] b[k] == fp_line(fps@[k]));
        assert(forall|k: int| 0 <= k < n2 ==> #[trigger] d[k] == tcp_line(tcps@[k]));
        assert(forall|k: int| 0 <= k < n3 ==> #[trigger] f[k] == pd_line(pds@[k]));
        assert(forall|k: int| 0 <= k < lines@.len()
            ==> lines.deep_view()[k] == (#[trigger] lines@[k])@);
        assert forall|j: int| 0 <= j < lines@.len() implies lines@[j]@ == target[j] by {
            if j == 0 {
            } else if j < 1 + n1 {
                let k = j - 1;
                assert(lines@[1 + k]@ == fp_line(fps@[k]));
                assert(target[1 + k] == b[k]);
            } else if j == 1 + n1 {
            } else if j < 2 + n1 + n2 {
                let k = j - 2 - n1;
                assert(lines@[2 + n1 + k]@ == tcp_line(tcps@[k]));
                assert(target[2 + n1 + k] == d[k]);
            } else if j == 2 + n1 + n2 {
            } else {
                let k = j - 3 - n1 - n2;
                assert(lines@[3 + n1 + n2 + k]@ == pd_line(pds@[k]));
                assert(target[3 + n1 + n2 + k] == f[k]);
            }
        }
        assert(lines.deep_view() =~= target);
    }
    let joined = join_chars(&lines, '\n');
    chars_to_string(&joined)
}

/// Decodes a persisted text back into its record-collection triple;
/// fails on any text that no encoding produces.
pub fn decode_cache(s: &str) -> (r: Option<
    (Vec<FirstPreferences>, Vec<TwoCandidatePreferred>, Vec<PrefDistribution>),
>)
    ensures
        r is Some <==> decode_cache_spec(s@) is Some,
        r matches Some(t) ==> decode_cache_spec(s@) == Some((t.0@, t.1@, t.2@)),
{
    let cs = str_chars(s);
    let lines = split_chars(&cs, '\n');
    let ghost lv = lines.deep_view();
    let n_lines = lines.len();
    proof {
        assert(lv == split_on(s@, '\n'));
        lemma_split_from_len(s@, '\n', Seq::empty());
        assert(n_lines == lv.len());
        assert(lines.deep_view()[0] == lines@[0]@);
    }
    let n1 = match parse_section_exec(&lines[0], "first_preferences") {
        Some(n) => n,
        None => {
            return None;
        },
    };
    if n1 > n_lines {
        return None;
    }
    if n_lines - n1 < 2 {
        return None;
    }
    proof {
        assert(lv.len() >= 2 + n1);
        assert(lines.deep_view()[1 + n1] == lines@[1 + n1]@);
    }
    let n2 = match parse_section_exec(&lines[1 + n1], "two_candidate_preferred") {
        Some(n) => n,
        None => {
            return None;
        },
    };
    if n2 > n_lines - n1 {
        return None;
    }
    if n_lines - n1 - n2 < 3 {
        return None;
    }
    proof {
        assert(lv.len() >= 3 + n1 + n2);
        assert(lines.deep_view()[2 + n1 + n2] == lines@[2 + n1 + n2]@);
    }
    let n3 = match parse_section_exec(&lines[2 + n1 + n2], "preference_distribution") {
        Some(n) => n,
        None => {
            return None;
        },
    };
    if n3 > n_lines - n1 - n2 {
        proof {
            assert(lv.len() < 3 + n1 + n2 + n3);
        }
        return None;
    }
    if n_lines - n1 - n2 - n3 != 3 {
        proof {
            assert(lv.len() != 3 + n1 + n2 + n3);
        }
        return None;
    }
    proof {
        assert(lv.len() == 3 + n1 + n2 + n3);
    }
    let fps = match parse_fp_section(&lines, 1, n1) {
        Some(v) => v,
        None => {
            return None;
        },
    };
    let tcps = match parse_tcp_section(&lines, 2 + n1, n2) {
        Some(v) => v,
        None => {
            return None;
        },
    };
    let pds = match parse_pd_section(&lines, 3 + n1 + n2, n3) {
        Some(v) => v,
        None => {
            return None;
        },
    };
    Some((fps, tcps, pds))
}

} // verus!
