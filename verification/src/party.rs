//! The party-affiliation and state enumerations. A party code decodes
//! by exact match with a sentinel fallback for unrecognized codes; a
//! state code decodes by exact match or fails.

use vstd::prelude::*;
use crate::chars::str_eq;
use crate::lines::plain_token;

verus! {

#[derive(Clone, Copy, Debug, PartialEq, Eq, Structural)]
pub enum PartyAffilliation {
    LP,
    LNP,
    NP,
    CLP,
    ALP,
    XEN,
    KAP,
    GRN,
    UAPP,
    IND,
    ON,
    LDP,
    CYA,
    AJP,
    IMO,
    GAP,
    WAP,
    VNS,
    AUC,
    SOPA,
    CEC,
    TNL,
    DHJP,
    SAL,
    AUVA,
    JLN,
    ASP,
    IAP,
    SPP,
    AUP,
    DPDA,
    TLOC,
    AUD,
    HMP,
    REAS,
    NAFD,
}

/// The code of each party, as the source files write it.
pub open spec fn party_code(x: PartyAffilliation) -> Seq<char> {
    match x {
        PartyAffilliation::LP => "LP"@,
        PartyAffilliation::LNP => "LNP"@,
        PartyAffilliation::NP => "NP"@,
        PartyAffilliation::CLP => "CLP"@,
        PartyAffilliation::ALP => "ALP"@,
        PartyAffilliation::XEN => "XEN"@,
        PartyAffilliation::KAP => "KAP"@,
        PartyAffilliation::GRN => "GRN"@,
        PartyAffilliation::UAPP => "UAPP"@,
        PartyAffilliation::IND => "IND"@,
        PartyAffilliation::ON => "ON"@,
        PartyAffilliation::LDP => "LDP"@,
        PartyAffilliation::CYA => "CYA"@,
        PartyAffilliation::AJP => "AJP"@,
        PartyAffilliation::IMO => "IMO"@,
        PartyAffilliation::GAP => "GAP"@,
        PartyAffilliation::WAP => "WAP"@,
        PartyAffilliation::VNS => "VNS"@,
        PartyAffilliation::AUC => "AUC"@,
        PartyAffilliation::SOPA => "SOPA"@,
        PartyAffilliation::CEC => "CEC"@,
        PartyAffilliation::TNL => "TNL"@,
        PartyAffilliation::DHJP => "DHJP"@,
        PartyAffilliation::SAL => "SAL"@,
        PartyAffilliation::AUVA => "AUVA"@,
        PartyAffilliation::JLN => "JLN"@,
        PartyAffilliation::ASP => "ASP"@,
        PartyAffilliation::IAP => "IAP"@,
        PartyAffilliation::SPP => "SPP"@,
        PartyAffilliation::AUP => "AUP"@,
        PartyAffilliation::DPDA => "DPDA"@,
        PartyAffilliation::TLOC => "TLOC"@,
        PartyAffilliation::AUD => "AUD"@,
        PartyAffilliation::HMP => "HMP"@,
        PartyAffilliation::REAS => "REAS"@,
        PartyAffilliation::NAFD => "NAFD"@,
    }
}

/// Decoding a party code: exact match against the closed enumeration, with the sentinel for anything unmatched.
pub open spec fn party_from(s: Seq<char>) -> PartyAffilliation {
    if s == "LP"@ {
        PartyAffilliation::LP
    } else if s == "LNP"@ {
        PartyAffilliation::LNP
    } else if s == "NP"@ {
        PartyAffilliation::NP
    } else if s == "CLP"@ {
        PartyAffilliation::CLP
    } else if s == "ALP"@ {
        PartyAffilliation::ALP
    } else if s == "XEN"@ {
        PartyAffilliation::XEN
    } else if s == "KAP"@ {
        PartyAffilliation::KAP
    } else if s == "GRN"@ {
        PartyAffilliation::GRN
    } else if s == "UAPP"@ {
        PartyAffilliation::UAPP
    } else if s == "IND"@ {
        PartyAffilliation::IND
    } else if s == "ON"@ {
        PartyAffilliation::ON
    } else if s == "LDP"@ {
        PartyAffilliation::LDP
    } else if s == "CYA"@ {
        PartyAffilliation::CYA
    } else if s == "AJP"@ {
        PartyAffilliation::AJP
    } else if s == "IMO"@ {
        PartyAffilliation::IMO
    } else if s == "GAP"@ {
        PartyAffilliation::GAP
    } else if s == "WAP"@ {
        PartyAffilliation::WAP
    } else if s == "VNS"@ {
        PartyAffilliation::VNS
    } else if s == "AUC"@ {
        PartyAffilliation::AUC
    } else if s == "SOPA"@ {
        PartyAffilliation::SOPA
    } else if s == "CEC"@ {
        PartyAffilliation::CEC
    } else if s == "TNL"@ {
        PartyAffilliation::TNL
    } else if s == "DHJP"@ {
        PartyAffilliation::DHJP
    } else if s == "SAL"@ {
        PartyAffilliation::SAL
    } else if s == "AUVA"@ {
        PartyAffilliation::AUVA
    } else if s == "JLN"@ {
        PartyAffilliation::JLN
    } else if s == "ASP"@ {
        PartyAffilliation::ASP
    } else if s == "IAP"@ {
        PartyAffilliation::IAP
    } else if s == "SPP"@ {
        PartyAffilliation::SPP
    } else if s == "AUP"@ {
        PartyAffilliation::AUP
    } else if s == "DPDA"@ {
        PartyAffilliation::DPDA
    } else if s == "TLOC"@ {
        PartyAffilliation::TLOC
    } else if s == "AUD"@ {
        PartyAffilliation::AUD
    } else if s == "HMP"@ {
        PartyAffilliation::HMP
    } else if s == "REAS"@ {
        PartyAffilliation::REAS
    } else if s == "NAFD"@ {
        PartyAffilliation::NAFD
    } else {
        PartyAffilliation::NAFD
    }
}

impl PartyAffilliation {
    /// The code that names this value in the source files and in
    /// the cache format.
    pub fn code(&self) -> (r: String)
        ensures
            r@ == party_code(*self),
    {
        match self {
            PartyAffilliation::LP => "LP".to_owned(),
            PartyAffilliation::LNP => "LNP".to_owned(),
            PartyAffilliation::NP => "NP".to_owned(),
            PartyAffilliation::CLP => "CLP".to_owned(),
            PartyAffilliation::ALP => "ALP".to_owned(),
            PartyAffilliation::XEN => "XEN".to_owned(),
            PartyAffilliation::KAP => "KAP".to_owned(),
            PartyAffilliation::GRN => "GRN".to_owned(),
            PartyAffilliation::UAPP => "UAPP".to_owned(),
            PartyAffilliation::IND => "IND".to_owned(),
            PartyAffilliation::ON => "ON".to_owned(),
            PartyAffilliation::LDP => "LDP".to_owned(),
            PartyAffilliation::CYA => "CYA".to_owned(),
            PartyAffilliation::AJP => "AJP".to_owned(),
            PartyAffilliation::IMO => "IMO".to_owned(),
            PartyAffilliation::GAP => "GAP".to_owned(),
            PartyAffilliation::WAP => "WAP".to_owned(),
            PartyAffilliation::VNS => "VNS".to_owned(),
            PartyAffilliation::AUC => "AUC".to_owned(),
            PartyAffilliation::SOPA => "SOPA".to_owned(),
            PartyAffilliation::CEC => "CEC".to_owned(),
            PartyAffilliation::TNL => "TNL".to_owned(),
            PartyAffilliation::DHJP => "DHJP".to_owned(),
            PartyAffilliation::SAL => "SAL".to_owned(),
            PartyAffilliation::AUVA => "AUVA".to_owned(),
            PartyAffilliation::JLN => "JLN".to_owned(),
            PartyAffilliation::ASP => "ASP".to_owned(),
            PartyAffilliation::IAP => "IAP".to_owned(),
            PartyAffilliation::SPP => "SPP".to_owned(),
            PartyAffilliation::AUP => "AUP".to_owned(),
            PartyAffilliation::DPDA => "DPDA".to_owned(),
            PartyAffilliation::TLOC => "TLOC".to_owned(),
            PartyAffilliation::AUD => "AUD".to_owned(),
            PartyAffilliation::HMP => "HMP".to_owned(),
            PartyAffilliation::REAS => "REAS".to_owned(),
            PartyAffilliation::NAFD => "NAFD".to_owned(),
        }
    }
}

/// Decodes a code by exact match against the enumeration.
pub fn decode_party(s: &str) -> (r: PartyAffilliation)
    ensures
        r == party_from(s@),
{
    if str_eq(s, "LP") {
        PartyAffilliation::LP
    } else if str_eq(s, "LNP") {
        PartyAffilliation::LNP
    } else if str_eq(s, "NP") {
        PartyAffilliation::NP
    } else if str_eq(s, "CLP") {
        PartyAffilliation::CLP
    } else if str_eq(s, "ALP") {
        PartyAffilliation::ALP
    } else if str_eq(s, "XEN") {
        PartyAffilliation::XEN
    } else if str_eq(s, "KAP") {
        PartyAffilliation::KAP
    } else if str_eq(s, "GRN") {
        PartyAffilliation::GRN
    } else if str_eq(s, "UAPP") {
        PartyAffilliation::UAPP
    } else if str_eq(s, "IND") {
        PartyAffilliation::IND
    } else if str_eq(s, "ON") {
        PartyAffilliation::ON
    } else if str_eq(s, "LDP") {
        PartyAffilliation::LDP
    } else if str_eq(s, "CYA") {
        PartyAffilliation::CYA
    } else if str_eq(s, "AJP") {
        PartyAffilliation::AJP
    } else if str_eq(s, "IMO") {
        PartyAffilliation::IMO
    } else if str_eq(s, "GAP") {
        PartyAffilliation::GAP
    } else if str_eq(s, "WAP") {
        PartyAffilliation::WAP
    } else if str_eq(s, "VNS") {
        PartyAffilliation::VNS
    } else if str_eq(s, "AUC") {
        PartyAffilliation::AUC
    } else if str_eq(s, "SOPA") {
        PartyAffilliation::SOPA
    } else if str_eq(s, "CEC") {
        PartyAffilliation::CEC
    } else if str_eq(s, "TNL") {
        PartyAffilliation::TNL
    } else if str_eq(s, "DHJP") {
        PartyAffilliation::DHJP
    } else if str_eq(s, "SAL") {
        PartyAffilliation::SAL
    } else if str_eq(s, "AUVA") {
        PartyAffilliation::AUVA
    } else if str_eq(s, "JLN") {
        PartyAffilliation::JLN
    } else if str_eq(s, "ASP") {
        PartyAffilliation::ASP
    } else if str_eq(s, "IAP") {
        PartyAffilliation::IAP
    } else if str_eq(s, "SPP") {
        PartyAffilliation::SPP
    } else if str_eq(s, "AUP") {
        PartyAffilliation::AUP
    } else if str_eq(s, "DPDA") {
        PartyAffilliation::DPDA
    } else if str_eq(s, "TLOC") {
        PartyAffilliation::TLOC
    } else if str_eq(s, "AUD") {
        PartyAffilliation::AUD
    } else if str_eq(s, "HMP") {
        PartyAffilliation::HMP
    } else if str_eq(s, "REAS") {
        PartyAffilliation::REAS
    } else if str_eq(s, "NAFD") {
        PartyAffilliation::NAFD
    } else {
        PartyAffilliation::NAFD
    }
}

/// The length and characters of every code, for disambiguation.
proof fn party_code_facts()
    ensures
        "LP"@.len() == 2 && "LP"@[0] == 'L' && "LP"@[1] == 'P',
        "LNP"@.len() == 3 && "LNP"@[0] == 'L' && "LNP"@[1] == 'N' && "LNP"@[2] == 'P',
        "NP"@.len() == 2 && "NP"@[0] == 'N' && "NP"@[1] == 'P',
        "CLP"@.len() == 3 && "CLP"@[0] == 'C' && "CLP"@[1] == 'L' && "CLP"@[2] == 'P',
        "ALP"@.len() == 3 && "ALP"@[0] == 'A' && "ALP"@[1] == 'L' && "ALP"@[2] == 'P',
        "XEN"@.len() == 3 && "XEN"@[0] == 'X' && "XEN"@[1] == 'E' && "XEN"@[2] == 'N',
        "KAP"@.len() == 3 && "KAP"@[0] == 'K' && "KAP"@[1] == 'A' && "KAP"@[2] == 'P',
        "GRN"@.len() == 3 && "GRN"@[0] == 'G' && "GRN"@[1] == 'R' && "GRN"@[2] == 'N',
        "UAPP"@.len() == 4 && "UAPP"@[0] == 'U' && "UAPP"@[1] == 'A' && "UAPP"@[2] == 'P' && "UAPP"@[3] == 'P',
        "IND"@.len() == 3 && "IND"@[0] == 'I' && "IND"@[1] == 'N' && "IND"@[2] == 'D',
        "ON"@.len() == 2 && "ON"@[0] == 'O' && "ON"@[1] == 'N',
        "LDP"@.len() == 3 && "LDP"@[0] == 'L' && "LDP"@[1] == 'D' && "LDP"@[2] == 'P',
        "CYA"@.len() == 3 && "CYA"@[0] == 'C' && "CYA"@[1] == 'Y' && "CYA"@[2] == 'A',
        "AJP"@.len() == 3 && "AJP"@[0] == 'A' && "AJP"@[1] == 'J' && "AJP"@[2] == 'P',
        "IMO"@.len() == 3 && "IMO"@[0] == 'I' && "IMO"@[1] == 'M' && "IMO"@[2] == 'O',
        "GAP"@.len() == 3 && "GAP"@[0] == 'G' && "GAP"@[1] == 'A' && "GAP"@[2] == 'P',
        "WAP"@.len() == 3 && "WAP"@[0] == 'W' && "WAP"@[1] == 'A' && "WAP"@[2] == 'P',
        "VNS"@.len() == 3 && "VNS"@[0] == 'V' && "VNS"@[1] == 'N' && "VNS"@[2] == 'S',
        "AUC"@.len() == 3 && "AUC"@[0] == 'A' && "AUC"@[1] == 'U' && "AUC"@[2] == 'C',
        "SOPA"@.len() == 4 && "SOPA"@[0] == 'S' && "SOPA"@[1] == 'O' && "SOPA"@[2] == 'P' && "SOPA"@[3] == 'A',
        "CEC"@.len() == 3 && "CEC"@[0] == 'C' && "CEC"@[1] == 'E' && "CEC"@[2] == 'C',
        "TNL"@.len() == 3 && "TNL"@[0] == 'T' && "TNL"@[1] == 'N' && "TNL"@[2] == 'L',
        "DHJP"@.len() == 4 && "DHJP"@[0] == 'D' && "DHJP"@[1] == 'H' && "DHJP"@[2] == 'J' && "DHJP"@[3] == 'P',
        "SAL"@.len() == 3 && "SAL"@[0] == 'S' && "SAL"@[1] == 'A' && "SAL"@[2] == 'L',
        "AUVA"@.len() == 4 && "AUVA"@[0] == 'A' && "AUVA"@[1] == 'U' && "AUVA"@[2] == 'V' && "AUVA"@[3] == 'A',
        "JLN"@.len() == 3 && "JLN"@[0] == 'J' && "JLN"@[1] == 'L' && "JLN"@[2] == 'N',
        "ASP"@.len() == 3 && "ASP"@[0] == 'A' && "ASP"@[1] == 'S' && "ASP"@[2] == 'P',
        "IAP"@.len() == 3 && "IAP"@[0] == 'I' && "IAP"@[1] == 'A' && "IAP"@[2] == 'P',
        "SPP"@.len() == 3 && "SPP"@[0] == 'S' && "SPP"@[1] == 'P' && "SPP"@[2] == 'P',
        "AUP"@.len() == 3 && "AUP"@[0] == 'A' && "AUP"@[1] == 'U' && "AUP"@[2] == 'P',
        "DPDA"@.len() == 4 && "DPDA"@[0] == 'D' && "DPDA"@[1] == 'P' && "DPDA"@[2] == 'D' && "DPDA"@[3] == 'A',
        "TLOC"@.len() == 4 && "TLOC"@[0] == 'T' && "TLOC"@[1] == 'L' && "TLOC"@[2] == 'O' && "TLOC"@[3] == 'C',
        "AUD"@.len() == 3 && "AUD"@[0] == 'A' && "AUD"@[1] == 'U' && "AUD"@[2] == 'D',
        "HMP"@.len() == 3 && "HMP"@[0] == 'H' && "HMP"@[1] == 'M' && "HMP"@[2] == 'P',
        "REAS"@.len() == 4 && "REAS"@[0] == 'R' && "REAS"@[1] == 'E' && "REAS"@[2] == 'A' && "REAS"@[3] == 'S',
        "NAFD"@.len() == 4 && "NAFD"@[0] == 'N' && "NAFD"@[1] == 'A' && "NAFD"@[2] == 'F' && "NAFD"@[3] == 'D',
{
    reveal_strlit("LP");
    reveal_strlit("LNP");
    reveal_strlit("NP");
    reveal_strlit("CLP");
    reveal_strlit("ALP");
    reveal_strlit("XEN");
    reveal_strlit("KAP");
    reveal_strlit("GRN");
    reveal_strlit("UAPP");
    reveal_strlit("IND");
    reveal_strlit("ON");
    reveal_strlit("LDP");
    reveal_strlit("CYA");
    reveal_strlit("AJP");
    reveal_strlit("IMO");
    reveal_strlit("GAP");
    reveal_strlit("WAP");
    reveal_strlit("VNS");
    reveal_strlit("AUC");
    reveal_strlit("SOPA");
    reveal_strlit("CEC");
    reveal_strlit("TNL");
    reveal_strlit("DHJP");
    reveal_strlit("SAL");
    reveal_strlit("AUVA");
    reveal_strlit("JLN");
    reveal_strlit("ASP");
    reveal_strlit("IAP");
    reveal_strlit("SPP");
    reveal_strlit("AUP");
    reveal_strlit("DPDA");
    reveal_strlit("TLOC");
    reveal_strlit("AUD");
    reveal_strlit("HMP");
    reveal_strlit("REAS");
    reveal_strlit("NAFD");
}

#[verifier::spinoff_prover]
#[verifier::rlimit(60)]
proof fn lemma_party_round_trip_a(x: PartyAffilliation)
    requires
        x is LP || x is LNP || x is NP || x is CLP || x is ALP || x is XEN || x is KAP || x is GRN || x is UAPP || x is IND || x is ON || x is LDP,
    ensures
        party_from(party_code(x)) == x,
        plain_token(party_code(x)),
{
    party_code_facts();
    match x {
        PartyAffilliation::LP => {
            assert(party_code(x) == "LP"@);
            assert(party_from("LP"@) == x);
            assert(plain_token("LP"@));
        },
        PartyAffilliation::LNP => {
            assert(party_code(x) == "LNP"@);
            assert(party_from("LNP"@) == x);
            assert(plain_token("LNP"@));
        },
        PartyAffilliation::NP => {
            assert(party_code(x) == "NP"@);
            assert(party_from("NP"@) == x);
            assert(plain_token("NP"@));
        },
        PartyAffilliation::CLP => {
            assert(party_code(x) == "CLP"@);
            assert(party_from("CLP"@) == x);
            assert(plain_token("CLP"@));
        },
        PartyAffilliation::ALP => {
            assert(party_code(x) == "ALP"@);
            assert(party_from("ALP"@) == x);
            assert(plain_token("ALP"@));
        },
        PartyAffilliation::XEN => {
            assert(party_code(x) == "XEN"@);
            assert(party_from("XEN"@) == x);
            assert(plain_token("XEN"@));
        },
        PartyAffilliation::KAP => {
            assert(party_code(x) == "KAP"@);
            assert(party_from("KAP"@) == x);
            assert(plain_token("KAP"@));
        },
        PartyAffilliation::GRN => {
            assert(party_code(x) == "GRN"@);
            assert(party_from("GRN"@) == x);
            assert(plain_token("GRN"@));
        },
        PartyAffilliation::UAPP => {
            assert(party_code(x) == "UAPP"@);
            assert(party_from("UAPP"@) == x);
            assert(plain_token("UAPP"@));
        },
        PartyAffilliation::IND => {
            assert(party_code(x) == "IND"@);
            assert(party_from("IND"@) == x);
            assert(plain_token("IND"@));
        },
        PartyAffilliation::ON => {
            assert(party_code(x) == "ON"@);
            assert(party_from("ON"@) == x);
            assert(plain_token("ON"@));
        },
        PartyAffilliation::LDP => {
            assert(party_code(x) == "LDP"@);
            assert(party_from("LDP"@) == x);
            assert(plain_token("LDP"@));
        },
        _ => { },
    }
}

#[verifier::spinoff_prover]
#[verifier::rlimit(60)]
proof fn lemma_party_round_trip_b(x: PartyAffilliation)
    requires
        x is CYA || x is AJP || x is IMO || x is GAP || x is WAP || x is VNS || x is AUC || x is SOPA || x is CEC || x is TNL || x is DHJP || x is SAL,
    ensures
        party_from(party_code(x)) == x,
        plain_token(party_code(x)),
{
    party_code_facts();
    match x {
        PartyAffilliation::CYA => {
            assert(party_code(x) == "CYA"@);
            assert(party_from("CYA"@) == x);
            assert(plain_token("CYA"@));
        },
        PartyAffilliation::AJP => {
            assert(party_code(x) == "AJP"@);
            assert(party_from("AJP"@) == x);
            assert(plain_token("AJP"@));
        },
        PartyAffilliation::IMO => {
            assert(party_code(x) == "IMO"@);
            assert(party_from("IMO"@) == x);
            assert(plain_token("IMO"@));
        },
        PartyAffilliation::GAP => {
            assert(party_code(x) == "GAP"@);
            assert(party_from("GAP"@) == x);
            assert(plain_token("GAP"@));
        },
        PartyAffilliation::WAP => {
            assert(party_code(x) == "WAP"@);
            assert(party_from("WAP"@) == x);
            assert(plain_token("WAP"@));
        },
        PartyAffilliation::VNS => {
            assert(party_code(x) == "VNS"@);
            assert(party_from("VNS"@) == x);
            assert(plain_token("VNS"@));
        },
        PartyAffilliation::AUC => {
            assert(party_code(x) == "AUC"@);
            assert(party_from("AUC"@) == x);
            assert(plain_token("AUC"@));
        },
        PartyAffilliation::SOPA => {
            assert(party_code(x) == "SOPA"@);
            assert(party_from("SOPA"@) == x);
            assert(plain_token("SOPA"@));
        },
        PartyAffilliation::CEC => {
            assert(party_code(x) == "CEC"@);
            assert(party_from("CEC"@) == x);
            assert(plain_token("CEC"@));
        },
        PartyAffilliation::TNL => {
            assert(party_code(x) == "TNL"@);
            assert(party_from("TNL"@) == x);
            assert(plain_token("TNL"@));
        },
        PartyAffilliation::DHJP => {
            assert(party_code(x) == "DHJP"@);
            assert(party_from("DHJP"@) == x);
            assert(plain_token("DHJP"@));
        },
        PartyAffilliation::SAL => {
            assert(party_code(x) == "SAL"@);
            assert(party_from("SAL"@) == x);
            assert(plain_token("SAL"@));
        },
        _ => { },
    }
}

#[verifier::spinoff_prover]
#[verifier::rlimit(60)]
proof fn lemma_party_round_trip_c(x: PartyAffilliation)
    requires
        x is AUVA || x is JLN || x is ASP || x is IAP || x is SPP || x is AUP || x is DPDA || x is TLOC || x is AUD || x is HMP || x is REAS || x is NAFD,
    ensures
        party_from(party_code(x)) == x,
        plain_token(party_code(x)),
{
    party_code_facts();
    match x {
        PartyAffilliation::AUVA => {
            assert(party_code(x) == "AUVA"@);
            assert(party_from("AUVA"@) == x);
            assert(plain_token("AUVA"@));
        },
        PartyAffilliation::JLN => {
            assert(party_code(x) == "JLN"@);
            assert(party_from("JLN"@) == x);
            assert(plain_token("JLN"@));
        },
        PartyAffilliation::ASP => {
            assert(party_code(x) == "ASP"@);
            assert(party_from("ASP"@) == x);
            assert(plain_token("ASP"@));
        },
        PartyAffilliation::IAP => {
            assert(party_code(x) == "IAP"@);
            assert(party_from("IAP"@) == x);
            assert(plain_token("IAP"@));
        },
        PartyAffilliation::SPP => {
            assert(party_code(x) == "SPP"@);
            assert(party_from("SPP"@) == x);
            assert(plain_token("SPP"@));
        },
        PartyAffilliation::AUP => {
            assert(party_code(x) == "AUP"@);
            assert(party_from("AUP"@) == x);
            assert(plain_token("AUP"@));
        },
        PartyAffilliation::DPDA => {
            assert(party_code(x) == "DPDA"@);
            assert(party_from("DPDA"@) == x);
            assert(plain_token("DPDA"@));
        },
        PartyAffilliation::TLOC => {
            assert(party_code(x) == "TLOC"@);
            assert(party_from("TLOC"@) == x);
            assert(plain_token("TLOC"@));
        },
        PartyAffilliation::AUD => {
            assert(party_code(x) == "AUD"@);
            assert(party_from("AUD"@) == x);
            assert(plain_token("AUD"@));
        },
        PartyAffilliation::HMP => {
            assert(party_code(x) == "HMP"@);
            assert(party_from("HMP"@) == x);
            assert(plain_token("HMP"@));
        },
        PartyAffilliation::REAS => {
            assert(party_code(x) == "REAS"@);
            assert(party_from("REAS"@) == x);
            assert(plain_token("REAS"@));
        },
        PartyAffilliation::NAFD => {
            assert(party_code(x) == "NAFD"@);
            assert(party_from("NAFD"@) == x);
            assert(plain_token("NAFD"@));
        },
        _ => { },
    }
}

/// Decoding the code of a value yields the value back, and the
/// code is a plain token.
pub proof fn lemma_party_round_trip(x: PartyAffilliation)
    ensures
        party_from(party_code(x)) == x,
        plain_token(party_code(x)),
{
    match x {
        PartyAffilliation::LP | PartyAffilliation::LNP | PartyAffilliation::NP | PartyAffilliation::CLP | PartyAffilliation::ALP | PartyAffilliation::XEN | PartyAffilliation::KAP | PartyAffilliation::GRN | PartyAffilliation::UAPP | PartyAffilliation::IND | PartyAffilliation::ON | PartyAffilliation::LDP => lemma_party_round_trip_a(x),
        PartyAffilliation::CYA | PartyAffilliation::AJP | PartyAffilliation::IMO | PartyAffilliation::GAP | PartyAffilliation::WAP | PartyAffilliation::VNS | PartyAffilliation::AUC | PartyAffilliation::SOPA | PartyAffilliation::CEC | PartyAffilliation::TNL | PartyAffilliation::DHJP | PartyAffilliation::SAL => lemma_party_round_trip_b(x),
        PartyAffilliation::AUVA | PartyAffilliation::JLN | PartyAffilliation::ASP | PartyAffilliation::IAP | PartyAffilliation::SPP | PartyAffilliation::AUP | PartyAffilliation::DPDA | PartyAffilliation::TLOC | PartyAffilliation::AUD | PartyAffilliation::HMP | PartyAffilliation::REAS | PartyAffilliation::NAFD => lemma_party_round_trip_c(x),
    }
}

#[derive(Clone, Copy, Debug, PartialEq, Eq, Structural)]
pub enum State {
    ACT,
    NSW,
    NT,
    QLD,
    SA,
    TAS,
    VIC,
    WA,
}

/// The code of each state.
pub open spec fn state_code(x: State) -> Seq<char> {
    match x {
        State::ACT => "ACT"@,
        State::NSW => "NSW"@,
        State::NT => "NT"@,
        State::QLD => "QLD"@,
        State::SA => "SA"@,
        State::TAS => "TAS"@,
        State::VIC => "VIC"@,
        State::WA => "WA"@,
    }
}

/// Decoding a state code: exact match against the closed enumeration; no fallback.
pub open spec fn state_from(s: Seq<char>) -> Option<State> {
    if s == "ACT"@ {
        Some(State::ACT)
    } else if s == "NSW"@ {
        Some(State::NSW)
    } else if s == "NT"@ {
        Some(State::NT)
    } else if s == "QLD"@ {
        Some(State::QLD)
    } else if s == "SA"@ {
        Some(State::SA)
    } else if s == "TAS"@ {
        Some(State::TAS)
    } else if s == "VIC"@ {
        Some(State::VIC)
    } else if s == "WA"@ {
        Some(State::WA)
    } else {
        None
    }
}

impl State {
    /// The code that names this value in the source files and in
    /// the cache format.
    pub fn code(&self) -> (r: String)
        ensures
            r@ == state_code(*self),
    {
        match self {
            State::ACT => "ACT".to_owned(),
            State::NSW => "NSW".to_owned(),
            State::NT => "NT".to_owned(),
            State::QLD => "QLD".to_owned(),
            State::SA => "SA".to_owned(),
            State::TAS => "TAS".to_owned(),
            State::VIC => "VIC".to_owned(),
            State::WA => "WA".to_owned(),
        }
    }
}

/// Decodes a code by exact match against the enumeration.
pub fn decode_state(s: &str) -> (r: Option<State>)
    ensures
        r == state_from(s@),
{
    if str_eq(s, "ACT") {
        Some(State::ACT)
    } else if str_eq(s, "NSW") {
        Some(State::NSW)
    } else if str_eq(s, "NT") {
        Some(State::NT)
    } else if str_eq(s, "QLD") {
        Some(State::QLD)
    } else if str_eq(s, "SA") {
        Some(State::SA)
    } else if str_eq(s, "TAS") {
        Some(State::TAS)
    } else if str_eq(s, "VIC") {
        Some(State::VIC)
    } else if str_eq(s, "WA") {
        Some(State::WA)
    } else {
        None
    }
}

/// The length and characters of every code, for disambiguation.
proof fn state_code_facts()
    ensures
        "ACT"@.len() == 3 && "ACT"@[0] == 'A' && "ACT"@[1] == 'C' && "ACT"@[2] == 'T',
        "NSW"@.len() == 3 && "NSW"@[0] == 'N' && "NSW"@[1] == 'S' && "NSW"@[2] == 'W',
        "NT"@.len() == 2 && "NT"@[0] == 'N' && "NT"@[1] == 'T',
        "QLD"@.len() == 3 && "QLD"@[0] == 'Q' && "QLD"@[1] == 'L' && "QLD"@[2] == 'D',
        "SA"@.len() == 2 && "SA"@[0] == 'S' && "SA"@[1] == 'A',
        "TAS"@.len() == 3 && "TAS"@[0] == 'T' && "TAS"@[1] == 'A' && "TAS"@[2] == 'S',
        "VIC"@.len() == 3 && "VIC"@[0] == 'V' && "VIC"@[1] == 'I' && "VIC"@[2] == 'C',
        "WA"@.len() == 2 && "WA"@[0] == 'W' && "WA"@[1] == 'A',
{
    reveal_strlit("ACT");
    reveal_strlit("NSW");
    reveal_strlit("NT");
    reveal_strlit("QLD");
    reveal_strlit("SA");
    reveal_strlit("TAS");
    reveal_strlit("VIC");
    reveal_strlit("WA");
}

#[verifier::spinoff_prover]
#[verifier::rlimit(60)]
proof fn lemma_state_round_trip_a(x: State)
    requires
        x is ACT || x is NSW || x is NT || x is QLD || x is SA || x is TAS || x is VIC || x is WA,
    ensures
        state_from(state_code(x)) == Some(x),
        plain_token(state_code(x)),
{
    state_code_facts();
    match x {
        State::ACT => {
            assert(state_code(x) == "ACT"@);
            assert(state_from("ACT"@) == Some(x));
            assert(plain_token("ACT"@));
        },
        State::NSW => {
            assert(state_code(x) == "NSW"@);
            assert(state_from("NSW"@) == Some(x));
            assert(plain_token("NSW"@));
        },
        State::NT => {
            assert(state_code(x) == "NT"@);
            assert(state_from("NT"@) == Some(x));
            assert(plain_token("NT"@));
        },
        State::QLD => {
            assert(state_code(x) == "QLD"@);
            assert(state_from("QLD"@) == Some(x));
            assert(plain_token("QLD"@));
        },
        State::SA => {
            assert(state_code(x) == "SA"@);
            assert(state_from("SA"@) == Some(x));
            assert(plain_token("SA"@));
        },
        State::TAS => {
            assert(state_code(x) == "TAS"@);
            assert(state_from("TAS"@) == Some(x));
            assert(plain_token("TAS"@));
        },
        State::VIC => {
            assert(state_code(x) == "VIC"@);
            assert(state_from("VIC"@) == Some(x));
            assert(plain_token("VIC"@));
        },
        State::WA => {
            assert(state_code(x) == "WA"@);
            assert(state_from("WA"@) == Some(x));
            assert(plain_token("WA"@));
        },
    }
}

/// Decoding the code of a value yields the value back, and the
/// code is a plain token.
pub proof fn lemma_state_round_trip(x: State)
    ensures
        state_from(state_code(x)) == Some(x),
        plain_token(state_code(x)),
{
    match x {
        State::ACT | State::NSW | State::NT | State::QLD | State::SA | State::TAS | State::VIC | State::WA => lemma_state_round_trip_a(x),
    }
}

} // verus!
