//! The electoral-division enumeration: one variant per known
//! division name. Decoding strips every non-alphabetic character from
//! the input, then matches exactly against the names; an unmatched
//! value is a failure, with no fallback.

use vstd::prelude::*;
use vstd::string::StrSliceExecFns;
use crate::chars::{is_alpha, char_is_alphabetic, chars_to_string, str_chars, str_eq};
use crate::lines::plain_token;

verus! {

#[derive(Clone, Copy, Debug, PartialEq, Eq, Structural)]
pub enum Division {
    Bean,
    Canberra,
    Fenner,
    Banks,
    Barton,
    Bennelong,
    Berowra,
    Blaxland,
    Bradfield,
    Calare,
    Chifley,
    Cook,
    Cowper,
    Cunningham,
    Dobell,
    EdenMonaro,
    Farrer,
    Fowler,
    Gilmore,
    Grayndler,
    Greenway,
    Hughes,
    Hume,
    Hunter,
    KingsfordSmith,
    Lindsay,
    Lyne,
    Macarthur,
    Mackellar,
    Macquarie,
    McMahon,
    Mitchell,
    NewEngland,
    Newcastle,
    NorthSydney,
    Page,
    Parkes,
    Parramatta,
    Paterson,
    Reid,
    Richmond,
    Riverina,
    Robertson,
    Shortland,
    Sydney,
    Warringah,
    Watson,
    Wentworth,
    Werriwa,
    Whitlam,
    Lingiari,
    Solomon,
    Blair,
    Bonner,
    Bowman,
    Brisbane,
    Capricornia,
    Dawson,
    Dickson,
    Fadden,
    Fairfax,
    Fisher,
    Flynn,
    Forde,
    Griffith,
    Groom,
    Herbert,
    Hinkler,
    Kennedy,
    Leichhardt,
    Lilley,
    Longman,
    Maranoa,
    McPherson,
    Moncrieff,
    Moreton,
    Oxley,
    Petrie,
    Rankin,
    Ryan,
    WideBay,
    Wright,
    Adelaide,
    Barker,
    Boothby,
    Grey,
    Hindmarsh,
    Kingston,
    Makin,
    Mayo,
    Spence,
    Sturt,
    Bass,
    Braddon,
    Clark,
    Franklin,
    Lyons,
    Aston,
    Ballarat,
    Bendigo,
    Bruce,
    Calwell,
    Casey,
    Chisholm,
    Cooper,
    Corangamite,
    Corio,
    Deakin,
    Dunkley,
    Flinders,
    Fraser,
    Gellibrand,
    Gippsland,
    Goldstein,
    Gorton,
    Hawke,
    Higgins,
    Holt,
    Hotham,
    Indi,
    Isaacs,
    Jagajaga,
    Kooyong,
    LaTrobe,
    Lalor,
    Macnamara,
    Mallee,
    Maribyrnong,
    McEwen,
    Melbourne,
    Menzies,
    Monash,
    Nicholls,
    Scullin,
    Wannon,
    Wills,
    Brand,
    Burt,
    Canning,
    Cowan,
    Curtin,
    Durack,
    Forrest,
    Fremantle,
    Hasluck,
    Moore,
    OConnor,
    Pearce,
    Perth,
    Swan,
    Tangney,
}

/// The name of each division, as the enumeration spells it.
pub open spec fn division_name(x: Division) -> Seq<char> {
    match x {
        Division::Bean => "Bean"@,
        Division::Canberra => "Canberra"@,
        Division::Fenner => "Fenner"@,
        Division::Banks => "Banks"@,
        Division::Barton => "Barton"@,
        Division::Bennelong => "Bennelong"@,
        Division::Berowra => "Berowra"@,
        Division::Blaxland => "Blaxland"@,
        Division::Bradfield => "Bradfield"@,
        Division::Calare => "Calare"@,
        Division::Chifley => "Chifley"@,
        Division::Cook => "Cook"@,
        Division::Cowper => "Cowper"@,
        Division::Cunningham => "Cunningham"@,
        Division::Dobell => "Dobell"@,
        Division::EdenMonaro => "EdenMonaro"@,
        Division::Farrer => "Farrer"@,
        Division::Fowler => "Fowler"@,
        Division::Gilmore => "Gilmore"@,
        Division::Grayndler => "Grayndler"@,
        Division::Greenway => "Greenway"@,
        Division::Hughes => "Hughes"@,
        Division::Hume => "Hume"@,
        Division::Hunter => "Hunter"@,
        Division::KingsfordSmith => "KingsfordSmith"@,
        Division::Lindsay => "Lindsay"@,
        Division::Lyne => "Lyne"@,
        Division::Macarthur => "Macarthur"@,
        Division::Mackellar => "Mackellar"@,
        Division::Macquarie => "Macquarie"@,
        Division::McMahon => "McMahon"@,
        Division::Mitchell => "Mitchell"@,
        Division::NewEngland => "NewEngland"@,
        Division::Newcastle => "Newcastle"@,
        Division::NorthSydney => "NorthSydney"@,
        Division::Page => "Page"@,
        Division::Parkes => "Parkes"@,
        Division::Parramatta => "Parramatta"@,
        Division::Paterson => "Paterson"@,
        Division::Reid => "Reid"@,
        Division::Richmond => "Richmond"@,
        Division::Riverina => "Riverina"@,
        Division::Robertson => "Robertson"@,
        Division::Shortland => "Shortland"@,
        Division::Sydney => "Sydney"@,
        Division::Warringah => "Warringah"@,
        Division::Watson => "Watson"@,
        Division::Wentworth => "Wentworth"@,
        Division::Werriwa => "Werriwa"@,
        Division::Whitlam => "Whitlam"@,
        Division::Lingiari => "Lingiari"@,
        Division::Solomon => "Solomon"@,
        Division::Blair => "Blair"@,
        Division::Bonner => "Bonner"@,
        Division::Bowman => "Bowman"@,
        Division::Brisbane => "Brisbane"@,
        Division::Capricornia => "Capricornia"@,
        Division::Dawson => "Dawson"@,
        Division::Dickson => "Dickson"@,
        Division::Fadden => "Fadden"@,
        Division::Fairfax => "Fairfax"@,
        Division::Fisher => "Fisher"@,
        Division::Flynn => "Flynn"@,
        Division::Forde => "Forde"@,
        Division::Griffith => "Griffith"@,
        Division::Groom => "Groom"@,
        Division::Herbert => "Herbert"@,
        Division::Hinkler => "Hinkler"@,
        Division::Kennedy => "Kennedy"@,
        Division::Leichhardt => "Leichhardt"@,
        Division::Lilley => "Lilley"@,
        Division::Longman => "Longman"@,
        Division::Maranoa => "Maranoa"@,
        Division::McPherson => "McPherson"@,
        Division::Moncrieff => "Moncrieff"@,
        Division::Moreton => "Moreton"@,
        Division::Oxley => "Oxley"@,
        Division::Petrie => "Petrie"@,
        Division::Rankin => "Rankin"@,
        Division::Ryan => "Ryan"@,
        Division::WideBay => "WideBay"@,
        Division::Wright => "Wright"@,
        Division::Adelaide => "Adelaide"@,
        Division::Barker => "Barker"@,
        Division::Boothby => "Boothby"@,
        Division::Grey => "Grey"@,
        Division::Hindmarsh => "Hindmarsh"@,
        Division::Kingston => "Kingston"@,
        Division::Makin => "Makin"@,
        Division::Mayo => "Mayo"@,
        Division::Spence => "Spence"@,
        Division::Sturt => "Sturt"@,
        Division::Bass => "Bass"@,
        Division::Braddon => "Braddon"@,
        Division::Clark => "Clark"@,
        Division::Franklin => "Franklin"@,
        Division::Lyons => "Lyons"@,
        Division::Aston => "Aston"@,
        Division::Ballarat => "Ballarat"@,
        Division::Bendigo => "Bendigo"@,
        Division::Bruce => "Bruce"@,
        Division::Calwell => "Calwell"@,
        Division::Casey => "Casey"@,
        Division::Chisholm => "Chisholm"@,
        Division::Cooper => "Cooper"@,
        Division::Corangamite => "Corangamite"@,
        Division::Corio => "Corio"@,
        Division::Deakin => "Deakin"@,
        Division::Dunkley => "Dunkley"@,
        Division::Flinders => "Flinders"@,
        Division::Fraser => "Fraser"@,
        Division::Gellibrand => "Gellibrand"@,
        Division::Gippsland => "Gippsland"@,
        Division::Goldstein => "Goldstein"@,
        Division::Gorton => "Gorton"@,
        Division::Hawke => "Hawke"@,
        Division::Higgins => "Higgins"@,
        Division::Holt => "Holt"@,
        Division::Hotham => "Hotham"@,
        Division::Indi => "Indi"@,
        Division::Isaacs => "Isaacs"@,
        Division::Jagajaga => "Jagajaga"@,
        Division::Kooyong => "Kooyong"@,
        Division::LaTrobe => "LaTrobe"@,
        Division::Lalor => "Lalor"@,
        Division::Macnamara => "Macnamara"@,
        Division::Mallee => "Mallee"@,
        Division::Maribyrnong => "Maribyrnong"@,
        Division::McEwen => "McEwen"@,
        Division::Melbourne => "Melbourne"@,
        Division::Menzies => "Menzies"@,
        Division::Monash => "Monash"@,
        Division::Nicholls => "Nicholls"@,
        Division::Scullin => "Scullin"@,
        Division::Wannon => "Wannon"@,
        Division::Wills => "Wills"@,
        Division::Brand => "Brand"@,
        Division::Burt => "Burt"@,
        Division::Canning => "Canning"@,
        Division::Cowan => "Cowan"@,
        Division::Curtin => "Curtin"@,
        Division::Durack => "Durack"@,
        Division::Forrest => "Forrest"@,
        Division::Fremantle => "Fremantle"@,
        Division::Hasluck => "Hasluck"@,
        Division::Moore => "Moore"@,
        Division::OConnor => "OConnor"@,
        Division::Pearce => "Pearce"@,
        Division::Perth => "Perth"@,
        Division::Swan => "Swan"@,
        Division::Tangney => "Tangney"@,
    }
}

/// Exact-match decoding of a division name against the closed
/// enumeration; no fallback.
pub open spec fn division_from(s: Seq<char>) -> Option<Division> {
    if s == "Bean"@ {
        Some(Division::Bean)
    } else if s == "Canberra"@ {
        Some(Division::Canberra)
    } else if s == "Fenner"@ {
        Some(Division::Fenner)
    } else if s == "Banks"@ {
        Some(Division::Banks)
    } else if s == "Barton"@ {
        Some(Division::Barton)
    } else if s == "Bennelong"@ {
        Some(Division::Bennelong)
    } else if s == "Berowra"@ {
        Some(Division::Berowra)
    } else if s == "Blaxland"@ {
        Some(Division::Blaxland)
    } else if s == "Bradfield"@ {
        Some(Division::Bradfield)
    } else if s == "Calare"@ {
        Some(Division::Calare)
    } else if s == "Chifley"@ {
        Some(Division::Chifley)
    } else if s == "Cook"@ {
        Some(Division::Cook)
    } else if s == "Cowper"@ {
        Some(Division::Cowper)
    } else if s == "Cunningham"@ {
        Some(Division::Cunningham)
    } else if s == "Dobell"@ {
        Some(Division::Dobell)
    } else if s == "EdenMonaro"@ {
        Some(Division::EdenMonaro)
    } else if s == "Farrer"@ {
        Some(Division::Farrer)
    } else if s == "Fowler"@ {
        Some(Division::Fowler)
    } else if s == "Gilmore"@ {
        Some(Division::Gilmore)
    } else if s == "Grayndler"@ {
        Some(Division::Grayndler)
    } else if s == "Greenway"@ {
        Some(Division::Greenway)
    } else if s == "Hughes"@ {
        Some(Division::Hughes)
    } else if s == "Hume"@ {
        Some(Division::Hume)
    } else if s == "Hunter"@ {
        Some(Division::Hunter)
    } else if s == "KingsfordSmith"@ {
        Some(Division::KingsfordSmith)
    } else if s == "Lindsay"@ {
        Some(Division::Lindsay)
    } else if s == "Lyne"@ {
        Some(Division::Lyne)
    } else if s == "Macarthur"@ {
        Some(Division::Macarthur)
    } else if s == "Mackellar"@ {
        Some(Division::Mackellar)
    } else if s == "Macquarie"@ {
        Some(Division::Macquarie)
    } else if s == "McMahon"@ {
        Some(Division::McMahon)
    } else if s == "Mitchell"@ {
        Some(Division::Mitchell)
    } else if s == "NewEngland"@ {
        Some(Division::NewEngland)
    } else if s == "Newcastle"@ {
        Some(Division::Newcastle)
    } else if s == "NorthSydney"@ {
        Some(Division::NorthSydney)
    } else if s == "Page"@ {
        Some(Division::Page)
    } else if s == "Parkes"@ {
        Some(Division::Parkes)
    } else if s == "Parramatta"@ {
        Some(Division::Parramatta)
    } else if s == "Paterson"@ {
        Some(Division::Paterson)
    } else if s == "Reid"@ {
        Some(Division::Reid)
    } else if s == "Richmond"@ {
        Some(Division::Richmond)
    } else if s == "Riverina"@ {
        Some(Division::Riverina)
    } else if s == "Robertson"@ {
        Some(Division::Robertson)
    } else if s == "Shortland"@ {
        Some(Division::Shortland)
    } else if s == "Sydney"@ {
        Some(Division::Sydney)
    } else if s == "Warringah"@ {
        Some(Division::Warringah)
    } else if s == "Watson"@ {
        Some(Division::Watson)
    } else if s == "Wentworth"@ {
        Some(Division::Wentworth)
    } else if s == "Werriwa"@ {
        Some(Division::Werriwa)
    } else if s == "Whitlam"@ {
        Some(Division::Whitlam)
    } else if s == "Lingiari"@ {
        Some(Division::Lingiari)
    } else if s == "Solomon"@ {
        Some(Division::Solomon)
    } else if s == "Blair"@ {
        Some(Division::Blair)
    } else if s == "Bonner"@ {
        Some(Division::Bonner)
    } else if s == "Bowman"@ {
        Some(Division::Bowman)
    } else if s == "Brisbane"@ {
        Some(Division::Brisbane)
    } else if s == "Capricornia"@ {
        Some(Division::Capricornia)
    } else if s == "Dawson"@ {
        Some(Division::Dawson)
    } else if s == "Dickson"@ {
        Some(Division::Dickson)
    } else if s == "Fadden"@ {
        Some(Division::Fadden)
    } else if s == "Fairfax"@ {
        Some(Division::Fairfax)
    } else if s == "Fisher"@ {
        Some(Division::Fisher)
    } else if s == "Flynn"@ {
        Some(Division::Flynn)
    } else if s == "Forde"@ {
        Some(Division::Forde)
    } else if s == "Griffith"@ {
        Some(Division::Griffith)
    } else if s == "Groom"@ {
        Some(Division::Groom)
    } else if s == "Herbert"@ {
        Some(Division::Herbert)
    } else if s == "Hinkler"@ {
        Some(Division::Hinkler)
    } else if s == "Kennedy"@ {
        Some(Division::Kennedy)
    } else if s == "Leichhardt"@ {
        Some(Division::Leichhardt)
    } else if s == "Lilley"@ {
        Some(Division::Lilley)
    } else if s == "Longman"@ {
        Some(Division::Longman)
    } else if s == "Maranoa"@ {
        Some(Division::Maranoa)
    } else if s == "McPherson"@ {
        Some(Division::McPherson)
    } else if s == "Moncrieff"@ {
        Some(Division::Moncrieff)
    } else if s == "Moreton"@ {
        Some(Division::Moreton)
    } else if s == "Oxley"@ {
        Some(Division::Oxley)
    } else if s == "Petrie"@ {
        Some(Division::Petrie)
    } else if s == "Rankin"@ {
        Some(Division::Rankin)
    } else if s == "Ryan"@ {
        Some(Division::Ryan)
    } else if s == "WideBay"@ {
        Some(Division::WideBay)
    } else if s == "Wright"@ {
        Some(Division::Wright)
    } else if s == "Adelaide"@ {
        Some(Division::Adelaide)
    } else if s == "Barker"@ {
        Some(Division::Barker)
    } else if s == "Boothby"@ {
        Some(Division::Boothby)
    } else if s == "Grey"@ {
        Some(Division::Grey)
    } else if s == "Hindmarsh"@ {
        Some(Division::Hindmarsh)
    } else if s == "Kingston"@ {
        Some(Division::Kingston)
    } else if s == "Makin"@ {
        Some(Division::Makin)
    } else if s == "Mayo"@ {
        Some(Division::Mayo)
    } else if s == "Spence"@ {
        Some(Division::Spence)
    } else if s == "Sturt"@ {
        Some(Division::Sturt)
    } else if s == "Bass"@ {
        Some(Division::Bass)
    } else if s == "Braddon"@ {
        Some(Division::Braddon)
    } else if s == "Clark"@ {
        Some(Division::Clark)
    } else if s == "Franklin"@ {
        Some(Division::Franklin)
    } else if s == "Lyons"@ {
        Some(Division::Lyons)
    } else if s == "Aston"@ {
        Some(Division::Aston)
    } else if s == "Ballarat"@ {
        Some(Division::Ballarat)
    } else if s == "Bendigo"@ {
        Some(Division::Bendigo)
    } else if s == "Bruce"@ {
        Some(Division::Bruce)
    } else if s == "Calwell"@ {
        Some(Division::Calwell)
    } else if s == "Casey"@ {
        Some(Division::Casey)
    } else if s == "Chisholm"@ {
        Some(Division::Chisholm)
    } else if s == "Cooper"@ {
        Some(Division::Cooper)
    } else if s == "Corangamite"@ {
        Some(Division::Corangamite)
    } else if s == "Corio"@ {
        Some(Division::Corio)
    } else if s == "Deakin"@ {
        Some(Division::Deakin)
    } else if s == "Dunkley"@ {
        Some(Division::Dunkley)
    } else if s == "Flinders"@ {
        Some(Division::Flinders)
    } else if s == "Fraser"@ {
        Some(Division::Fraser)
    } else if s == "Gellibrand"@ {
        Some(Division::Gellibrand)
    } else if s == "Gippsland"@ {
        Some(Division::Gippsland)
    } else if s == "Goldstein"@ {
        Some(Division::Goldstein)
    } else if s == "Gorton"@ {
        Some(Division::Gorton)
    } else if s == "Hawke"@ {
        Some(Division::Hawke)
    } else if s == "Higgins"@ {
        Some(Division::Higgins)
    } else if s == "Holt"@ {
        Some(Division::Holt)
    } else if s == "Hotham"@ {
        Some(Division::Hotham)
    } else if s == "Indi"@ {
        Some(Division::Indi)
    } else if s == "Isaacs"@ {
        Some(Division::Isaacs)
    } else if s == "Jagajaga"@ {
        Some(Division::Jagajaga)
    } else if s == "Kooyong"@ {
        Some(Division::Kooyong)
    } else if s == "LaTrobe"@ {
        Some(Division::LaTrobe)
    } else if s == "Lalor"@ {
        Some(Division::Lalor)
    } else if s == "Macnamara"@ {
        Some(Division::Macnamara)
    } else if s == "Mallee"@ {
        Some(Division::Mallee)
    } else if s == "Maribyrnong"@ {
        Some(Division::Maribyrnong)
    } else if s == "McEwen"@ {
        Some(Division::McEwen)
    } else if s == "Melbourne"@ {
        Some(Division::Melbourne)
    } else if s == "Menzies"@ {
        Some(Division::Menzies)
    } else if s == "Monash"@ {
        Some(Division::Monash)
    } else if s == "Nicholls"@ {
        Some(Division::Nicholls)
    } else if s == "Scullin"@ {
        Some(Division::Scullin)
    } else if s == "Wannon"@ {
        Some(Division::Wannon)
    } else if s == "Wills"@ {
        Some(Division::Wills)
    } else if s == "Brand"@ {
        Some(Division::Brand)
    } else if s == "Burt"@ {
        Some(Division::Burt)
    } else if s == "Canning"@ {
        Some(Division::Canning)
    } else if s == "Cowan"@ {
        Some(Division::Cowan)
    } else if s == "Curtin"@ {
        Some(Division::Curtin)
    } else if s == "Durack"@ {
        Some(Division::Durack)
    } else if s == "Forrest"@ {
        Some(Division::Forrest)
    } else if s == "Fremantle"@ {
        Some(Division::Fremantle)
    } else if s == "Hasluck"@ {
        Some(Division::Hasluck)
    } else if s == "Moore"@ {
        Some(Division::Moore)
    } else if s == "OConnor"@ {
        Some(Division::OConnor)
    } else if s == "Pearce"@ {
        Some(Division::Pearce)
    } else if s == "Perth"@ {
        Some(Division::Perth)
    } else if s == "Swan"@ {
        Some(Division::Swan)
    } else if s == "Tangney"@ {
        Some(Division::Tangney)
    } else {
        None
    }
}

/// `s` with every non-alphabetic character removed.
pub open spec fn strip_alpha(s: Seq<char>) -> Seq<char>
    decreases s.len(),
{
    if s.len() == 0 {
        Seq::empty()
    } else if is_alpha(s.last()) {
        strip_alpha(s.drop_last()).push(s.last())
    } else {
        strip_alpha(s.drop_last())
    }
}

impl Division {
    /// The division's name.
    pub fn name_str(&self) -> (r: String)
        ensures
            r@ == division_name(*self),
    {
        match self {
            Division::Bean => "Bean".to_owned(),
            Division::Canberra => "Canberra".to_owned(),
            Division::Fenner => "Fenner".to_owned(),
            Division::Banks => "Banks".to_owned(),
            Division::Barton => "Barton".to_owned(),
            Division::Bennelong => "Bennelong".to_owned(),
            Division::Berowra => "Berowra".to_owned(),
            Division::Blaxland => "Blaxland".to_owned(),
            Division::Bradfield => "Bradfield".to_owned(),
            Division::Calare => "Calare".to_owned(),
            Division::Chifley => "Chifley".to_owned(),
            Division::Cook => "Cook".to_owned(),
            Division::Cowper => "Cowper".to_owned(),
            Division::Cunningham => "Cunningham".to_owned(),
            Division::Dobell => "Dobell".to_owned(),
            Division::EdenMonaro => "EdenMonaro".to_owned(),
            Division::Farrer => "Farrer".to_owned(),
            Division::Fowler => "Fowler".to_owned(),
            Division::Gilmore => "Gilmore".to_owned(),
            Division::Grayndler => "Grayndler".to_owned(),
            Division::Greenway => "Greenway".to_owned(),
            Division::Hughes => "Hughes".to_owned(),
            Division::Hume => "Hume".to_owned(),
            Division::Hunter => "Hunter".to_owned(),
            Division::KingsfordSmith => "KingsfordSmith".to_owned(),
            Division::Lindsay => "Lindsay".to_owned(),
            Division::Lyne => "Lyne".to_owned(),
            Division::Macarthur => "Macarthur".to_owned(),
            Division::Mackellar => "Mackellar".to_owned(),
            Division::Macquarie => "Macquarie".to_owned(),
            Division::McMahon => "McMahon".to_owned(),
            Division::Mitchell => "Mitchell".to_owned(),
            Division::NewEngland => "NewEngland".to_owned(),
            Division::Newcastle => "Newcastle".to_owned(),
            Division::NorthSydney => "NorthSydney".to_owned(),
            Division::Page => "Page".to_owned(),
            Division::Parkes => "Parkes".to_owned(),
            Division::Parramatta => "Parramatta".to_owned(),
            Division::Paterson => "Paterson".to_owned(),
            Division::Reid => "Reid".to_owned(),
            Division::Richmond => "Richmond".to_owned(),
            Division::Riverina => "Riverina".to_owned(),
            Division::Robertson => "Robertson".to_owned(),
            Division::Shortland => "Shortland".to_owned(),
            Division::Sydney => "Sydney".to_owned(),
            Division::Warringah => "Warringah".to_owned(),
            Division::Watson => "Watson".to_owned(),
            Division::Wentworth => "Wentworth".to_owned(),
            Division::Werriwa => "Werriwa".to_owned(),
            Division::Whitlam => "Whitlam".to_owned(),
            Division::Lingiari => "Lingiari".to_owned(),
            Division::Solomon => "Solomon".to_owned(),
            Division::Blair => "Blair".to_owned(),
            Division::Bonner => "Bonner".to_owned(),
            Division::Bowman => "Bowman".to_owned(),
            Division::Brisbane => "Brisbane".to_owned(),
            Division::Capricornia => "Capricornia".to_owned(),
            Division::Dawson => "Dawson".to_owned(),
            Division::Dickson => "Dickson".to_owned(),
            Division::Fadden => "Fadden".to_owned(),
            Division::Fairfax => "Fairfax".to_owned(),
            Division::Fisher => "Fisher".to_owned(),
            Division::Flynn => "Flynn".to_owned(),
            Division::Forde => "Forde".to_owned(),
            Division::Griffith => "Griffith".to_owned(),
            Division::Groom => "Groom".to_owned(),
            Division::Herbert => "Herbert".to_owned(),
            Division::Hinkler => "Hinkler".to_owned(),
            Division::Kennedy => "Kennedy".to_owned(),
            Division::Leichhardt => "Leichhardt".to_owned(),
            Division::Lilley => "Lilley".to_owned(),
            Division::Longman => "Longman".to_owned(),
            Division::Maranoa => "Maranoa".to_owned(),
            Division::McPherson => "McPherson".to_owned(),
            Division::Moncrieff => "Moncrieff".to_owned(),
            Division::Moreton => "Moreton".to_owned(),
            Division::Oxley => "Oxley".to_owned(),
            Division::Petrie => "Petrie".to_owned(),
            Division::Rankin => "Rankin".to_owned(),
            Division::Ryan => "Ryan".to_owned(),
            Division::WideBay => "WideBay".to_owned(),
            Division::Wright => "Wright".to_owned(),
            Division::Adelaide => "Adelaide".to_owned(),
            Division::Barker => "Barker".to_owned(),
            Division::Boothby => "Boothby".to_owned(),
            Division::Grey => "Grey".to_owned(),
            Division::Hindmarsh => "Hindmarsh".to_owned(),
            Division::Kingston => "Kingston".to_owned(),
            Division::Makin => "Makin".to_owned(),
            Division::Mayo => "Mayo".to_owned(),
            Division::Spence => "Spence".to_owned(),
            Division::Sturt => "Sturt".to_owned(),
            Division::Bass => "Bass".to_owned(),
            Division::Braddon => "Braddon".to_owned(),
            Division::Clark => "Clark".to_owned(),
            Division::Franklin => "Franklin".to_owned(),
            Division::Lyons => "Lyons".to_owned(),
            Division::Aston => "Aston".to_owned(),
            Division::Ballarat => "Ballarat".to_owned(),
            Division::Bendigo => "Bendigo".to_owned(),
            Division::Bruce => "Bruce".to_owned(),
            Division::Calwell => "Calwell".to_owned(),
            Division::Casey => "Casey".to_owned(),
            Division::Chisholm => "Chisholm".to_owned(),
            Division::Cooper => "Cooper".to_owned(),
            Division::Corangamite => "Corangamite".to_owned(),
            Division::Corio => "Corio".to_owned(),
            Division::Deakin => "Deakin".to_owned(),
            Division::Dunkley => "Dunkley".to_owned(),
            Division::Flinders => "Flinders".to_owned(),
            Division::Fraser => "Fraser".to_owned(),
            Division::Gellibrand => "Gellibrand".to_owned(),
            Division::Gippsland => "Gippsland".to_owned(),
            Division::Goldstein => "Goldstein".to_owned(),
            Division::Gorton => "Gorton".to_owned(),
            Division::Hawke => "Hawke".to_owned(),
            Division::Higgins => "Higgins".to_owned(),
            Division::Holt => "Holt".to_owned(),
            Division::Hotham => "Hotham".to_owned(),
            Division::Indi => "Indi".to_owned(),
            Division::Isaacs => "Isaacs".to_owned(),
            Division::Jagajaga => "Jagajaga".to_owned(),
            Division::Kooyong => "Kooyong".to_owned(),
            Division::LaTrobe => "LaTrobe".to_owned(),
            Division::Lalor => "Lalor".to_owned(),
            Division::Macnamara => "Macnamara".to_owned(),
            Division::Mallee => "Mallee".to_owned(),
            Division::Maribyrnong => "Maribyrnong".to_owned(),
            Division::McEwen => "McEwen".to_owned(),
            Division::Melbourne => "Melbourne".to_owned(),
            Division::Menzies => "Menzies".to_owned(),
            Division::Monash => "Monash".to_owned(),
            Division::Nicholls => "Nicholls".to_owned(),
            Division::Scullin => "Scullin".to_owned(),
            Division::Wannon => "Wannon".to_owned(),
            Division::Wills => "Wills".to_owned(),
            Division::Brand => "Brand".to_owned(),
            Division::Burt => "Burt".to_owned(),
            Division::Canning => "Canning".to_owned(),
            Division::Cowan => "Cowan".to_owned(),
            Division::Curtin => "Curtin".to_owned(),
            Division::Durack => "Durack".to_owned(),
            Division::Forrest => "Forrest".to_owned(),
            Division::Fremantle => "Fremantle".to_owned(),
            Division::Hasluck => "Hasluck".to_owned(),
            Division::Moore => "Moore".to_owned(),
            Division::OConnor => "OConnor".to_owned(),
            Division::Pearce => "Pearce".to_owned(),
            Division::Perth => "Perth".to_owned(),
            Division::Swan => "Swan".to_owned(),
            Division::Tangney => "Tangney".to_owned(),
        }
    }
}

/// Removes every non-alphabetic character.
pub fn strip_non_alpha(s: &Vec<char>) -> (r: Vec<char>)
    ensures
        r@ == strip_alpha(s@),
{
    let n = s.len();
    let mut r: Vec<char> = Vec::new();
    proof {
        assert(s@.subrange(0, 0) =~= Seq::<char>::empty());
        assert(strip_alpha(s@.subrange(0, 0)) =~= Seq::<char>::empty());
    }
    let mut i: usize = 0;
    while i < n
        invariant
            i <= n,
            n == s@.len(),
            r@ == strip_alpha(s@.subrange(0, i as int)),
        decreases n - i,
    {
        proof {
            assert(s@.subrange(0, i + 1).drop_last() =~= s@.subrange(0, i as int));
            assert(s@.subrange(0, i + 1).last() == s@[i as int]);
        }
        if char_is_alphabetic(s[i]) {
            r.push(s[i]);
        }
        i = i + 1;
    }
    proof {
        assert(s@.subrange(0, n as int) =~= s@);
    }
    r
}

/// Decodes an exact division name; used by the cache codec, where
/// names are written by the library itself.
#[verifier::rlimit(100)]
#[verifier::spinoff_prover]
pub fn decode_division_exact(s: &str) -> (r: Option<Division>)
    ensures
        r == division_from(s@),
{
    if str_eq(s, "Bean") {
        Some(Division::Bean)
    } else if str_eq(s, "Canberra") {
        Some(Division::Canberra)
    } else if str_eq(s, "Fenner") {
        Some(Division::Fenner)
    } else if str_eq(s, "Banks") {
        Some(Division::Banks)
    } else if str_eq(s, "Barton") {
        Some(Division::Barton)
    } else if str_eq(s, "Bennelong") {
        Some(Division::Bennelong)
    } else if str_eq(s, "Berowra") {
        Some(Division::Berowra)
    } else if str_eq(s, "Blaxland") {
        Some(Division::Blaxland)
    } else if str_eq(s, "Bradfield") {
        Some(Division::Bradfield)
    } else if str_eq(s, "Calare") {
        Some(Division::Calare)
    } else if str_eq(s, "Chifley") {
        Some(Division::Chifley)
    } else if str_eq(s, "Cook") {
        Some(Division::Cook)
    } else if str_eq(s, "Cowper") {
        Some(Division::Cowper)
    } else if str_eq(s, "Cunningham") {
        Some(Division::Cunningham)
    } else if str_eq(s, "Dobell") {
        Some(Division::Dobell)
    } else if str_eq(s, "EdenMonaro") {
        Some(Division::EdenMonaro)
    } else if str_eq(s, "Farrer") {
        Some(Division::Farrer)
    } else if str_eq(s, "Fowler") {
        Some(Division::Fowler)
    } else if str_eq(s, "Gilmore") {
        Some(Division::Gilmore)
    } else if str_eq(s, "Grayndler") {
        Some(Division::Grayndler)
    } else if str_eq(s, "Greenway") {
        Some(Division::Greenway)
    } else if str_eq(s, "Hughes") {
        Some(Division::Hughes)
    } else if str_eq(s, "Hume") {
        Some(Division::Hume)
    } else if str_eq(s, "Hunter") {
        Some(Division::Hunter)
    } else if str_eq(s, "KingsfordSmith") {
        Some(Division::KingsfordSmith)
    } else if str_eq(s, "Lindsay") {
        Some(Division::Lindsay)
    } else if str_eq(s, "Lyne") {
        Some(Division::Lyne)
    } else if str_eq(s, "Macarthur") {
        Some(Division::Macarthur)
    } else if str_eq(s, "Mackellar") {
        Some(Division::Mackellar)
    } else if str_eq(s, "Macquarie") {
        Some(Division::Macquarie)
    } else if str_eq(s, "McMahon") {
        Some(Division::McMahon)
    } else if str_eq(s, "Mitchell") {
        Some(Division::Mitchell)
    } else if str_eq(s, "NewEngland") {
        Some(Division::NewEngland)
    } else if str_eq(s, "Newcastle") {
        Some(Division::Newcastle)
    } else if str_eq(s, "NorthSydney") {
        Some(Division::NorthSydney)
    } else if str_eq(s, "Page") {
        Some(Division::Page)
    } else if str_eq(s, "Parkes") {
        Some(Division::Parkes)
    } else if str_eq(s, "Parramatta") {
        Some(Division::Parramatta)
    } else if str_eq(s, "Paterson") {
        Some(Division::Paterson)
    } else if str_eq(s, "Reid") {
        Some(Division::Reid)
    } else if str_eq(s, "Richmond") {
        Some(Division::Richmond)
    } else if str_eq(s, "Riverina") {
        Some(Division::Riverina)
    } else if str_eq(s, "Robertson") {
        Some(Division::Robertson)
    } else if str_eq(s, "Shortland") {
        Some(Division::Shortland)
    } else if str_eq(s, "Sydney") {
        Some(Division::Sydney)
    } else if str_eq(s, "Warringah") {
        Some(Division::Warringah)
    } else if str_eq(s, "Watson") {
        Some(Division::Watson)
    } else if str_eq(s, "Wentworth") {
        Some(Division::Wentworth)
    } else if str_eq(s, "Werriwa") {
        Some(Division::Werriwa)
    } else if str_eq(s, "Whitlam") {
        Some(Division::Whitlam)
    } else if str_eq(s, "Lingiari") {
        Some(Division::Lingiari)
    } else if str_eq(s, "Solomon") {
        Some(Division::Solomon)
    } else if str_eq(s, "Blair") {
        Some(Division::Blair)
    } else if str_eq(s, "Bonner") {
        Some(Division::Bonner)
    } else if str_eq(s, "Bowman") {
        Some(Division::Bowman)
    } else if str_eq(s, "Brisbane") {
        Some(Division::Brisbane)
    } else if str_eq(s, "Capricornia") {
        Some(Division::Capricornia)
    } else if str_eq(s, "Dawson") {
        Some(Division::Dawson)
    } else if str_eq(s, "Dickson") {
        Some(Division::Dickson)
    } else if str_eq(s, "Fadden") {
        Some(Division::Fadden)
    } else if str_eq(s, "Fairfax") {
        Some(Division::Fairfax)
    } else if str_eq(s, "Fisher") {
        Some(Division::Fisher)
    } else if str_eq(s, "Flynn") {
        Some(Division::Flynn)
    } else if str_eq(s, "Forde") {
        Some(Division::Forde)
    } else if str_eq(s, "Griffith") {
        Some(Division::Griffith)
    } else if str_eq(s, "Groom") {
        Some(Division::Groom)
    } else if str_eq(s, "Herbert") {
        Some(Division::Herbert)
    } else if str_eq(s, "Hinkler") {
        Some(Division::Hinkler)
    } else if str_eq(s, "Kennedy") {
        Some(Division::Kennedy)
    } else if str_eq(s, "Leichhardt") {
        Some(Division::Leichhardt)
    } else if str_eq(s, "Lilley") {
        Some(Division::Lilley)
    } else if str_eq(s, "Longman") {
        Some(Division::Longman)
    } else if str_eq(s, "Maranoa") {
        Some(Division::Maranoa)
    } else if str_eq(s, "McPherson") {
        Some(Division::McPherson)
    } else if str_eq(s, "Moncrieff") {
        Some(Division::Moncrieff)
    } else if str_eq(s, "Moreton") {
        Some(Division::Moreton)
    } else if str_eq(s, "Oxley") {
        Some(Division::Oxley)
    } else if str_eq(s, "Petrie") {
        Some(Division::Petrie)
    } else if str_eq(s, "Rankin") {
        Some(Division::Rankin)
    } else if str_eq(s, "Ryan") {
        Some(Division::Ryan)
    } else if str_eq(s, "WideBay") {
        Some(Division::WideBay)
    } else if str_eq(s, "Wright") {
        Some(Division::Wright)
    } else if str_eq(s, "Adelaide") {
        Some(Division::Adelaide)
    } else if str_eq(s, "Barker") {
        Some(Division::Barker)
    } else if str_eq(s, "Boothby") {
        Some(Division::Boothby)
    } else if str_eq(s, "Grey") {
        Some(Division::Grey)
    } else if str_eq(s, "Hindmarsh") {
        Some(Division::Hindmarsh)
    } else if str_eq(s, "Kingston") {
        Some(Division::Kingston)
    } else if str_eq(s, "Makin") {
        Some(Division::Makin)
    } else if str_eq(s, "Mayo") {
        Some(Division::Mayo)
    } else if str_eq(s, "Spence") {
        Some(Division::Spence)
    } else if str_eq(s, "Sturt") {
        Some(Division::Sturt)
    } else if str_eq(s, "Bass") {
        Some(Division::Bass)
    } else if str_eq(s, "Braddon") {
        Some(Division::Braddon)
    } else if str_eq(s, "Clark") {
        Some(Division::Clark)
    } else if str_eq(s, "Franklin") {
        Some(Division::Franklin)
    } else if str_eq(s, "Lyons") {
        Some(Division::Lyons)
    } else if str_eq(s, "Aston") {
        Some(Division::Aston)
    } else if str_eq(s, "Ballarat") {
        Some(Division::Ballarat)
    } else if str_eq(s, "Bendigo") {
        Some(Division::Bendigo)
    } else if str_eq(s, "Bruce") {
        Some(Division::Bruce)
    } else if str_eq(s, "Calwell") {
        Some(Division::Calwell)
    } else if str_eq(s, "Casey") {
        Some(Division::Casey)
    } else if str_eq(s, "Chisholm") {
        Some(Division::Chisholm)
    } else if str_eq(s, "Cooper") {
        Some(Division::Cooper)
    } else if str_eq(s, "Corangamite") {
        Some(Division::Corangamite)
    } else if str_eq(s, "Corio") {
        Some(Division::Corio)
    } else if str_eq(s, "Deakin") {
        Some(Division::Deakin)
    } else if str_eq(s, "Dunkley") {
        Some(Division::Dunkley)
    } else if str_eq(s, "Flinders") {
        Some(Division::Flinders)
    } else if str_eq(s, "Fraser") {
        Some(Division::Fraser)
    } else if str_eq(s, "Gellibrand") {
        Some(Division::Gellibrand)
    } else if str_eq(s, "Gippsland") {
        Some(Division::Gippsland)
    } else if str_eq(s, "Goldstein") {
        Some(Division::Goldstein)
    } else if str_eq(s, "Gorton") {
        Some(Division::Gorton)
    } else if str_eq(s, "Hawke") {
        Some(Division::Hawke)
    } else if str_eq(s, "Higgins") {
        Some(Division::Higgins)
    } else if str_eq(s, "Holt") {
        Some(Division::Holt)
    } else if str_eq(s, "Hotham") {
        Some(Division::Hotham)
    } else if str_eq(s, "Indi") {
        Some(Division::Indi)
    } else if str_eq(s, "Isaacs") {
        Some(Division::Isaacs)
    } else if str_eq(s, "Jagajaga") {
        Some(Division::Jagajaga)
    } else if str_eq(s, "Kooyong") {
        Some(Division::Kooyong)
    } else if str_eq(s, "LaTrobe") {
        Some(Division::LaTrobe)
    } else if str_eq(s, "Lalor") {
        Some(Division::Lalor)
    } else if str_eq(s, "Macnamara") {
        Some(Division::Macnamara)
    } else if str_eq(s, "Mallee") {
        Some(Division::Mallee)
    } else if str_eq(s, "Maribyrnong") {
        Some(Division::Maribyrnong)
    } else if str_eq(s, "McEwen") {
        Some(Division::McEwen)
    } else if str_eq(s, "Melbourne") {
        Some(Division::Melbourne)
    } else if str_eq(s, "Menzies") {
        Some(Division::Menzies)
    } else if str_eq(s, "Monash") {
        Some(Division::Monash)
    } else if str_eq(s, "Nicholls") {
        Some(Division::Nicholls)
    } else if str_eq(s, "Scullin") {
        Some(Division::Scullin)
    } else if str_eq(s, "Wannon") {
        Some(Division::Wannon)
    } else if str_eq(s, "Wills") {
        Some(Division::Wills)
    } else if str_eq(s, "Brand") {
        Some(Division::Brand)
    } else if str_eq(s, "Burt") {
        Some(Division::Burt)
    } else if str_eq(s, "Canning") {
        Some(Division::Canning)
    } else if str_eq(s, "Cowan") {
        Some(Division::Cowan)
    } else if str_eq(s, "Curtin") {
        Some(Division::Curtin)
    } else if str_eq(s, "Durack") {
        Some(Division::Durack)
    } else if str_eq(s, "Forrest") {
        Some(Division::Forrest)
    } else if str_eq(s, "Fremantle") {
        Some(Division::Fremantle)
    } else if str_eq(s, "Hasluck") {
        Some(Division::Hasluck)
    } else if str_eq(s, "Moore") {
        Some(Division::Moore)
    } else if str_eq(s, "OConnor") {
        Some(Division::OConnor)
    } else if str_eq(s, "Pearce") {
        Some(Division::Pearce)
    } else if str_eq(s, "Perth") {
        Some(Division::Perth)
    } else if str_eq(s, "Swan") {
        Some(Division::Swan)
    } else if str_eq(s, "Tangney") {
        Some(Division::Tangney)
    } else {
        None
    }
}

/// Decodes a division value from a source file: strips every
/// non-alphabetic character, then matches exactly.
pub fn decode_division(s: &str) -> (r: Option<Division>)
    ensures
        r == division_from(strip_alpha(s@)),
{
    let cs = str_chars(s);
    let stripped = strip_non_alpha(&cs);
    let t = chars_to_string(&stripped);
    decode_division_exact(t.as_str())
}

/// The length and characters of some names, for disambiguation.
proof fn division_name_facts_a()
    ensures
        "Bean"@.len() == 4,
        "Bean"@[0] == 'B',
        "Bean"@[1] == 'e',
        "Bean"@[2] == 'a',
        "Bean"@[3] == 'n',
        "Canberra"@.len() == 8,
        "Canberra"@[0] == 'C',
        "Canberra"@[1] == 'a',
        "Canberra"@[2] == 'n',
        "Canberra"@[3] == 'b',
        "Canberra"@[4] == 'e',
        "Canberra"@[5] == 'r',
        "Canberra"@[6] == 'r',
        "Canberra"@[7] == 'a',
        "Fenner"@.len() == 6,
        "Fenner"@[0] == 'F',
        "Fenner"@[1] == 'e',
        "Fenner"@[2] == 'n',
        "Fenner"@[3] == 'n',
        "Fenner"@[4] == 'e',
        "Fenner"@[5] == 'r',
        "Banks"@.len() == 5,
        "Banks"@[0] == 'B',
        "Banks"@[1] == 'a',
        "Banks"@[2] == 'n',
        "Banks"@[3] == 'k',
        "Banks"@[4] == 's',
        "Barton"@.len() == 6,
        "Barton"@[0] == 'B',
        "Barton"@[1] == 'a',
        "Barton"@[2] == 'r',
        "Barton"@[3] == 't',
        "Barton"@[4] == 'o',
        "Barton"@[5] == 'n',
        "Bennelong"@.len() == 9,
        "Bennelong"@[0] == 'B',
        "Bennelong"@[1] == 'e',
        "Bennelong"@[2] == 'n',
        "Bennelong"@[3] == 'n',
        "Bennelong"@[4] == 'e',
        "Bennelong"@[5] == 'l',
        "Bennelong"@[6] == 'o',
        "Bennelong"@[7] == 'n',
        "Bennelong"@[8] == 'g',
        "Berowra"@.len() == 7,
        "Berowra"@[0] == 'B',
        "Berowra"@[1] == 'e',
        "Berowra"@[2] == 'r',
        "Berowra"@[3] == 'o',
        "Berowra"@[4] == 'w',
        "Berowra"@[5] == 'r',
        "Berowra"@[6] == 'a',
        "Blaxland"@.len() == 8,
        "Blaxland"@[0] == 'B',
        "Blaxland"@[1] == 'l',
        "Blaxland"@[2] == 'a',
        "Blaxland"@[3] == 'x',
        "Blaxland"@[4] == 'l',
        "Blaxland"@[5] == 'a',
        "Blaxland"@[6] == 'n',
        "Blaxland"@[7] == 'd',
        "Bradfield"@.len() == 9,
        "Bradfield"@[0] == 'B',
        "Bradfield"@[1] == 'r',
        "Bradfield"@[2] == 'a',
        "Bradfield"@[3] == 'd',
        "Bradfield"@[4] == 'f',
        "Bradfield"@[5] == 'i',
        "Bradfield"@[6] == 'e',
        "Bradfield"@[7] == 'l',
        "Bradfield"@[8] == 'd',
        "Calare"@.len() == 6,
        "Calare"@[0] == 'C',
        "Calare"@[1] == 'a',
        "Calare"@[2] == 'l',
        "Calare"@[3] == 'a',
        "Calare"@[4] == 'r',
        "Calare"@[5] == 'e',
        "Chifley"@.len() == 7,
        "Chifley"@[0] == 'C',
        "Chifley"@[1] == 'h',
        "Chifley"@[2] == 'i',
        "Chifley"@[3] == 'f',
        "Chifley"@[4] == 'l',
        "Chifley"@[5] == 'e',
        "Chifley"@[6] == 'y',
        "Cook"@.len() == 4,
        "Cook"@[0] == 'C',
        "Cook"@[1] == 'o',
        "Cook"@[2] == 'o',
        "Cook"@[3] == 'k',
{
    reveal_strlit("Bean");
    reveal_strlit("Canberra");
    reveal_strlit("Fenner");
    reveal_strlit("Banks");
    reveal_strlit("Barton");
    reveal_strlit("Bennelong");
    reveal_strlit("Berowra");
    reveal_strlit("Blaxland");
    reveal_strlit("Bradfield");
    reveal_strlit("Calare");
    reveal_strlit("Chifley");
    reveal_strlit("Cook");
}

/// The length and characters of some names, for disambiguation.
proof fn division_name_facts_b()
    ensures
        "Cowper"@.len() == 6,
        "Cowper"@[0] == 'C',
        "Cowper"@[1] == 'o',
        "Cowper"@[2] == 'w',
        "Cowper"@[3] == 'p',
        "Cowper"@[4] == 'e',
        "Cowper"@[5] == 'r',
        "Cunningham"@.len() == 10,
        "Cunningham"@[0] == 'C',
        "Cunningham"@[1] == 'u',
        "Cunningham"@[2] == 'n',
        "Cunningham"@[3] == 'n',
        "Cunningham"@[4] == 'i',
        "Cunningham"@[5] == 'n',
        "Cunningham"@[6] == 'g',
        "Cunningham"@[7] == 'h',
        "Cunningham"@[8] == 'a',
        "Cunningham"@[9] == 'm',
        "Dobell"@.len() == 6,
        "Dobell"@[0] == 'D',
        "Dobell"@[1] == 'o',
        "Dobell"@[2] == 'b',
        "Dobell"@[3] == 'e',
        "Dobell"@[4] == 'l',
        "Dobell"@[5] == 'l',
        "EdenMonaro"@.len() == 10,
        "EdenMonaro"@[0] == 'E',
        "EdenMonaro"@[1] == 'd',
        "EdenMonaro"@[2] == 'e',
        "EdenMonaro"@[3] == 'n',
        "EdenMonaro"@[4] == 'M',
        "EdenMonaro"@[5] == 'o',
        "EdenMonaro"@[6] == 'n',
        "EdenMonaro"@[7] == 'a',
        "EdenMonaro"@[8] == 'r',
        "EdenMonaro"@[9] == 'o',
        "Farrer"@.len() == 6,
        "Farrer"@[0] == 'F',
        "Farrer"@[1] == 'a',
        "Farrer"@[2] == 'r',
        "Farrer"@[3] == 'r',
        "Farrer"@[4] == 'e',
        "Farrer"@[5] == 'r',
        "Fowler"@.len() == 6,
        "Fowler"@[0] == 'F',
        "Fowler"@[1] == 'o',
        "Fowler"@[2] == 'w',
        "Fowler"@[3] == 'l',
        "Fowler"@[4] == 'e',
        "Fowler"@[5] == 'r',
        "Gilmore"@.len() == 7,
        "Gilmore"@[0] == 'G',
        "Gilmore"@[1] == 'i',
        "Gilmore"@[2] == 'l',
        "Gilmore"@[3] == 'm',
        "Gilmore"@[4] == 'o',
        "Gilmore"@[5] == 'r',
        "Gilmore"@[6] == 'e',
        "Grayndler"@.len() == 9,
        "Grayndler"@[0] == 'G',
        "Grayndler"@[1] == 'r',
        "Grayndler"@[2] == 'a',
        "Grayndler"@[3] == 'y',
        "Grayndler"@[4] == 'n',
        "Grayndler"@[5] == 'd',
        "Grayndler"@[6] == 'l',
        "Grayndler"@[7] == 'e',
        "Grayndler"@[8] == 'r',
        "Greenway"@.len() == 8,
        "Greenway"@[0] == 'G',
        "Greenway"@[1] == 'r',
        "Greenway"@[2] == 'e',
        "Greenway"@[3] == 'e',
        "Greenway"@[4] == 'n',
        "Greenway"@[5] == 'w',
        "Greenway"@[6] == 'a',
        "Greenway"@[7] == 'y',
        "Hughes"@.len() == 6,
        "Hughes"@[0] == 'H',
        "Hughes"@[1] == 'u',
        "Hughes"@[2] == 'g',
        "Hughes"@[3] == 'h',
        "Hughes"@[4] == 'e',
        "Hughes"@[5] == 's',
        "Hume"@.len() == 4,
        "Hume"@[0] == 'H',
        "Hume"@[1] == 'u',
        "Hume"@[2] == 'm',
        "Hume"@[3] == 'e',
        "Hunter"@.len() == 6,
        "Hunter"@[0] == 'H',
        "Hunter"@[1] == 'u',
        "Hunter"@[2] == 'n',
        "Hunter"@[3] == 't',
        "Hunter"@[4] == 'e',
        "Hunter"@[5] == 'r',
{
    reveal_strlit("Cowper");
    reveal_strlit("Cunningham");
    reveal_strlit("Dobell");
    reveal_strlit("EdenMonaro");
    reveal_strlit("Farrer");
    reveal_strlit("Fowler");
    reveal_strlit("Gilmore");
    reveal_strlit("Grayndler");
    reveal_strlit("Greenway");
    reveal_strlit("Hughes");
    reveal_strlit("Hume");
    reveal_strlit("Hunter");
}

/// The length and characters of some names, for disambiguation.
proof fn division_name_facts_c()
    ensures
        "KingsfordSmith"@.len() == 14,
        "KingsfordSmith"@[0] == 'K',
        "KingsfordSmith"@[1] == 'i',
        "KingsfordSmith"@[2] == 'n',
        "KingsfordSmith"@[3] == 'g',
        "KingsfordSmith"@[4] == 's',
        "KingsfordSmith"@[5] == 'f',
        "KingsfordSmith"@[6] == 'o',
        "KingsfordSmith"@[7] == 'r',
        "KingsfordSmith"@[8] == 'd',
        "KingsfordSmith"@[9] == 'S',
        "KingsfordSmith"@[10] == 'm',
        "KingsfordSmith"@[11] == 'i',
        "KingsfordSmith"@[12] == 't',
        "KingsfordSmith"@[13] == 'h',
        "Lindsay"@.len() == 7,
        "Lindsay"@[0] == 'L',
        "Lindsay"@[1] == 'i',
        "Lindsay"@[2] == 'n',
        "Lindsay"@[3] == 'd',
        "Lindsay"@[4] == 's',
        "Lindsay"@[5] == 'a',
        "Lindsay"@[6] == 'y',
        "Lyne"@.len() == 4,
        "Lyne"@[0] == 'L',
        "Lyne"@[1] == 'y',
        "Lyne"@[2] == 'n',
        "Lyne"@[3] == 'e',
        "Macarthur"@.len() == 9,
        "Macarthur"@[0] == 'M',
        "Macarthur"@[1] == 'a',
        "Macarthur"@[2] == 'c',
        "Macarthur"@[3] == 'a',
        "Macarthur"@[4] == 'r',
        "Macarthur"@[5] == 't',
        "Macarthur"@[6] == 'h',
        "Macarthur"@[7] == 'u',
        "Macarthur"@[8] == 'r',
        "Mackellar"@.len() == 9,
        "Mackellar"@[0] == 'M',
        "Mackellar"@[1] == 'a',
        "Mackellar"@[2] == 'c',
        "Mackellar"@[3] == 'k',
        "Mackellar"@[4] == 'e',
        "Mackellar"@[5] == 'l',
        "Mackellar"@[6] == 'l',
        "Mackellar"@[7] == 'a',
        "Mackellar"@[8] == 'r',
        "Macquarie"@.len() == 9,
        "Macquarie"@[0] == 'M',
        "Macquarie"@[1] == 'a',
        "Macquarie"@[2] == 'c',
        "Macquarie"@[3] == 'q',
        "Macquarie"@[4] == 'u',
        "Macquarie"@[5] == 'a',
        "Macquarie"@[6] == 'r',
        "Macquarie"@[7] == 'i',
        "Macquarie"@[8] == 'e',
        "McMahon"@.len() == 7,
        "McMahon"@[0] == 'M',
        "McMahon"@[1] == 'c',
        "McMahon"@[2] == 'M',
        "McMahon"@[3] == 'a',
        "McMahon"@[4] == 'h',
        "McMahon"@[5] == 'o',
        "McMahon"@[6] == 'n',
        "Mitchell"@.len() == 8,
        "Mitchell"@[0] == 'M',
        "Mitchell"@[1] == 'i',
        "Mitchell"@[2] == 't',
        "Mitchell"@[3] == 'c',
        "Mitchell"@[4] == 'h',
        "Mitchell"@[5] == 'e',
        "Mitchell"@[6] == 'l',
        "Mitchell"@[7] == 'l',
        "NewEngland"@.len() == 10,
        "NewEngland"@[0] == 'N',
        "NewEngland"@[1] == 'e',
        "NewEngland"@[2] == 'w',
        "NewEngland"@[3] == 'E',
        "NewEngland"@[4] == 'n',
        "NewEngland"@[5] == 'g',
        "NewEngland"@[6] == 'l',
        "NewEngland"@[7] == 'a',
        "NewEngland"@[8] == 'n',
        "NewEngland"@[9] == 'd',
        "Newcastle"@.len() == 9,
        "Newcastle"@[0] == 'N',
        "Newcastle"@[1] == 'e',
        "Newcastle"@[2] == 'w',
        "Newcastle"@[3] == 'c',
        "Newcastle"@[4] == 'a',
        "Newcastle"@[5] == 's',
        "Newcastle"@[6] == 't',
        "Newcastle"@[7] == 'l',
        "Newcastle"@[8] == 'e',
        "NorthSydney"@.len() == 11,
        "NorthSydney"@[0] == 'N',
        "NorthSydney"@[1] == 'o',
        "NorthSydney"@[2] == 'r',
        "NorthSydney"@[3] == 't',
        "NorthSydney"@[4] == 'h',
        "NorthSydney"@[5] == 'S',
        "NorthSydney"@[6] == 'y',
        "NorthSydney"@[7] == 'd',
        "NorthSydney"@[8] == 'n',
        "NorthSydney"@[9] == 'e',
        "NorthSydney"@[10] == 'y',
        "Page"@.len() == 4,
        "Page"@[0] == 'P',
        "Page"@[1] == 'a',
        "Page"@[2] == 'g',
        "Page"@[3] == 'e',
{
    reveal_strlit("KingsfordSmith");
    reveal_strlit("Lindsay");
    reveal_strlit("Lyne");
    reveal_strlit("Macarthur");
    reveal_strlit("Mackellar");
    reveal_strlit("Macquarie");
    reveal_strlit("McMahon");
    reveal_strlit("Mitchell");
    reveal_strlit("NewEngland");
    reveal_strlit("Newcastle");
    reveal_strlit("NorthSydney");
    reveal_strlit("Page");
}

/// The length and characters of some names, for disambiguation.
proof fn division_name_facts_d()
    ensures
        "Parkes"@.len() == 6,
        "Parkes"@[0] == 'P',
        "Parkes"@[1] == 'a',
        "Parkes"@[2] == 'r',
        "Parkes"@[3] == 'k',
        "Parkes"@[4] == 'e',
        "Parkes"@[5] == 's',
        "Parramatta"@.len() == 10,
        "Parramatta"@[0] == 'P',
        "Parramatta"@[1] == 'a',
        "Parramatta"@[2] == 'r',
        "Parramatta"@[3] == 'r',
        "Parramatta"@[4] == 'a',
        "Parramatta"@[5] == 'm',
        "Parramatta"@[6] == 'a',
        "Parramatta"@[7] == 't',
        "Parramatta"@[8] == 't',
        "Parramatta"@[9] == 'a',
        "Paterson"@.len() == 8,
        "Paterson"@[0] == 'P',
        "Paterson"@[1] == 'a',
        "Paterson"@[2] == 't',
        "Paterson"@[3] == 'e',
        "Paterson"@[4] == 'r',
        "Paterson"@[5] == 's',
        "Paterson"@[6] == 'o',
        "Paterson"@[7] == 'n',
        "Reid"@.len() == 4,
        "Reid"@[0] == 'R',
        "Reid"@[1] == 'e',
        "Reid"@[2] == 'i',
        "Reid"@[3] == 'd',
        "Richmond"@.len() == 8,
        "Richmond"@[0] == 'R',
        "Richmond"@[1] == 'i',
        "Richmond"@[2] == 'c',
        "Richmond"@[3] == 'h',
        "Richmond"@[4] == 'm',
        "Richmond"@[5] == 'o',
        "Richmond"@[6] == 'n',
        "Richmond"@[7] == 'd',
        "Riverina"@.len() == 8,
        "Riverina"@[0] == 'R',
        "Riverina"@[1] == 'i',
        "Riverina"@[2] == 'v',
        "Riverina"@[3] == 'e',
        "Riverina"@[4] == 'r',
        "Riverina"@[5] == 'i',
        "Riverina"@[6] == 'n',
        "Riverina"@[7] == 'a',
        "Robertson"@.len() == 9,
        "Robertson"@[0] == 'R',
        "Robertson"@[1] == 'o',
        "Robertson"@[2] == 'b',
        "Robertson"@[3] == 'e',
        "Robertson"@[4] == 'r',
        "Robertson"@[5] == 't',
        "Robertson"@[6] == 's',
        "Robertson"@[7] == 'o',
        "Robertson"@[8] == 'n',
        "Shortland"@.len() == 9,
        "Shortland"@[0] == 'S',
        "Shortland"@[1] == 'h',
        "Shortland"@[2] == 'o',
        "Shortland"@[3] == 'r',
        "Shortland"@[4] == 't',
        "Shortland"@[5] == 'l',
        "Shortland"@[6] == 'a',
        "Shortland"@[7] == 'n',
        "Shortland"@[8] == 'd',
        "Sydney"@.len() == 6,
        "Sydney"@[0] == 'S',
        "Sydney"@[1] == 'y',
        "Sydney"@[2] == 'd',
        "Sydney"@[3] == 'n',
        "Sydney"@[4] == 'e',
        "Sydney"@[5] == 'y',
        "Warringah"@.len() == 9,
        "Warringah"@[0] == 'W',
        "Warringah"@[1] == 'a',
        "Warringah"@[2] == 'r',
        "Warringah"@[3] == 'r',
        "Warringah"@[4] == 'i',
        "Warringah"@[5] == 'n',
        "Warringah"@[6] == 'g',
        "Warringah"@[7] == 'a',
        "Warringah"@[8] == 'h',
        "Watson"@.len() == 6,
        "Watson"@[0] == 'W',
        "Watson"@[1] == 'a',
        "Watson"@[2] == 't',
        "Watson"@[3] == 's',
        "Watson"@[4] == 'o',
        "Watson"@[5] == 'n',
        "Wentworth"@.len() == 9,
        "Wentworth"@[0] == 'W',
        "Wentworth"@[1] == 'e',
        "Wentworth"@[2] == 'n',
        "Wentworth"@[3] == 't',
        "Wentworth"@[4] == 'w',
        "Wentworth"@[5] == 'o',
        "Wentworth"@[6] == 'r',
        "Wentworth"@[7] == 't',
        "Wentworth"@[8] == 'h',
{
    reveal_strlit("Parkes");
    reveal_strlit("Parramatta");
    reveal_strlit("Paterson");
    reveal_strlit("Reid");
    reveal_strlit("Richmond");
    reveal_strlit("Riverina");
    reveal_strlit("Robertson");
    reveal_strlit("Shortland");
    reveal_strlit("Sydney");
    reveal_strlit("Warringah");
    reveal_strlit("Watson");
    reveal_strlit("Wentworth");
}

/// The length and characters of some names, for disambiguation.
proof fn division_name_facts_e()
    ensures
        "Werriwa"@.len() == 7,
        "Werriwa"@[0] == 'W',
        "Werriwa"@[1] == 'e',
        "Werriwa"@[2] == 'r',
        "Werriwa"@[3] == 'r',
        "Werriwa"@[4] == 'i',
        "Werriwa"@[5] == 'w',
        "Werriwa"@[6] == 'a',
        "Whitlam"@.len() == 7,
        "Whitlam"@[0] == 'W',
        "Whitlam"@[1] == 'h',
        "Whitlam"@[2] == 'i',
        "Whitlam"@[3] == 't',
        "Whitlam"@[4] == 'l',
        "Whitlam"@[5] == 'a',
        "Whitlam"@[6] == 'm',
        "Lingiari"@.len() == 8,
        "Lingiari"@[0] == 'L',
        "Lingiari"@[1] == 'i',
        "Lingiari"@[2] == 'n',
        "Lingiari"@[3] == 'g',
        "Lingiari"@[4] == 'i',
        "Lingiari"@[5] == 'a',
        "Lingiari"@[6] == 'r',
        "Lingiari"@[7] == 'i',
        "Solomon"@.len() == 7,
        "Solomon"@[0] == 'S',
        "Solomon"@[1] == 'o',
        "Solomon"@[2] == 'l',
        "Solomon"@[3] == 'o',
        "Solomon"@[4] == 'm',
        "Solomon"@[5] == 'o',
        "Solomon"@[6] == 'n',
        "Blair"@.len() == 5,
        "Blair"@[0] == 'B',
        "Blair"@[1] == 'l',
        "Blair"@[2] == 'a',
        "Blair"@[3] == 'i',
        "Blair"@[4] == 'r',
        "Bonner"@.len() == 6,
        "Bonner"@[0] == 'B',
        "Bonner"@[1] == 'o',
        "Bonner"@[2] == 'n',
        "Bonner"@[3] == 'n',
        "Bonner"@[4] == 'e',
        "Bonner"@[5] == 'r',
        "Bowman"@.len() == 6,
        "Bowman"@[0] == 'B',
        "Bowman"@[1] == 'o',
        "Bowman"@[2] == 'w',
        "Bowman"@[3] == 'm',
        "Bowman"@[4] == 'a',
        "Bowman"@[5] == 'n',
        "Brisbane"@.len() == 8,
        "Brisbane"@[0] == 'B',
        "Brisbane"@[1] == 'r',
        "Brisbane"@[2] == 'i',
        "Brisbane"@[3] == 's',
        "Brisbane"@[4] == 'b',
        "Brisbane"@[5] == 'a',
        "Brisbane"@[6] == 'n',
        "Brisbane"@[7] == 'e',
        "Capricornia"@.len() == 11,
        "Capricornia"@[0] == 'C',
        "Capricornia"@[1] == 'a',
        "Capricornia"@[2] == 'p',
        "Capricornia"@[3] == 'r',
        "Capricornia"@[4] == 'i',
        "Capricornia"@[5] == 'c',
        "Capricornia"@[6] == 'o',
        "Capricornia"@[7] == 'r',
        "Capricornia"@[8] == 'n',
        "Capricornia"@[9] == 'i',
        "Capricornia"@[10] == 'a',
        "Dawson"@.len() == 6,
        "Dawson"@[0] == 'D',
        "Dawson"@[1] == 'a',
        "Dawson"@[2] == 'w',
        "Dawson"@[3] == 's',
        "Dawson"@[4] == 'o',
        "Dawson"@[5] == 'n',
        "Dickson"@.len() == 7,
        "Dickson"@[0] == 'D',
        "Dickson"@[1] == 'i',
        "Dickson"@[2] == 'c',
        "Dickson"@[3] == 'k',
        "Dickson"@[4] == 's',
        "Dickson"@[5] == 'o',
        "Dickson"@[6] == 'n',
        "Fadden"@.len() == 6,
        "Fadden"@[0] == 'F',
        "Fadden"@[1] == 'a',
        "Fadden"@[2] == 'd',
        "Fadden"@[3] == 'd',
        "Fadden"@[4] == 'e',
        "Fadden"@[5] == 'n',
{
    reveal_strlit("Werriwa");
    reveal_strlit("Whitlam");
    reveal_strlit("Lingiari");
    reveal_strlit("Solomon");
    reveal_strlit("Blair");
    reveal_strlit("Bonner");
    reveal_strlit("Bowman");
    reveal_strlit("Brisbane");
    reveal_strlit("Capricornia");
    reveal_strlit("Dawson");
    reveal_strlit("Dickson");
    reveal_strlit("Fadden");
}

/// The length and characters of some names, for disambiguation.
proof fn division_name_facts_f()
    ensures
        "Fairfax"@.len() == 7,
        "Fairfax"@[0] == 'F',
        "Fairfax"@[1] == 'a',
        "Fairfax"@[2] == 'i',
        "Fairfax"@[3] == 'r',
        "Fairfax"@[4] == 'f',
        "Fairfax"@[5] == 'a',
        "Fairfax"@[6] == 'x',
        "Fisher"@.len() == 6,
        "Fisher"@[0] == 'F',
        "Fisher"@[1] == 'i',
        "Fisher"@[2] == 's',
        "Fisher"@[3] == 'h',
        "Fisher"@[4] == 'e',
        "Fisher"@[5] == 'r',
        "Flynn"@.len() == 5,
        "Flynn"@[0] == 'F',
        "Flynn"@[1] == 'l',
        "Flynn"@[2] == 'y',
        "Flynn"@[3] == 'n',
        "Flynn"@[4] == 'n',
        "Forde"@.len() == 5,
        "Forde"@[0] == 'F',
        "Forde"@[1] == 'o',
        "Forde"@[2] == 'r',
        "Forde"@[3] == 'd',
        "Forde"@[4] == 'e',
        "Griffith"@.len() == 8,
        "Griffith"@[0] == 'G',
        "Griffith"@[1] == 'r',
        "Griffith"@[2] == 'i',
        "Griffith"@[3] == 'f',
        "Griffith"@[4] == 'f',
        "Griffith"@[5] == 'i',
        "Griffith"@[6] == 't',
        "Griffith"@[7] == 'h',
        "Groom"@.len() == 5,
        "Groom"@[0] == 'G',
        "Groom"@[1] == 'r',
        "Groom"@[2] == 'o',
        "Groom"@[3] == 'o',
        "Groom"@[4] == 'm',
        "Herbert"@.len() == 7,
        "Herbert"@[0] == 'H',
        "Herbert"@[1] == 'e',
        "Herbert"@[2] == 'r',
        "Herbert"@[3] == 'b',
        "Herbert"@[4] == 'e',
        "Herbert"@[5] == 'r',
        "Herbert"@[6] == 't',
        "Hinkler"@.len() == 7,
        "Hinkler"@[0] == 'H',
        "Hinkler"@[1] == 'i',
        "Hinkler"@[2] == 'n',
        "Hinkler"@[3] == 'k',
        "Hinkler"@[4] == 'l',
        "Hinkler"@[5] == 'e',
        "Hinkler"@[6] == 'r',
        "Kennedy"@.len() == 7,
        "Kennedy"@[0] == 'K',
        "Kennedy"@[1] == 'e',
        "Kennedy"@[2] == 'n',
        "Kennedy"@[3] == 'n',
        "Kennedy"@[4] == 'e',
        "Kennedy"@[5] == 'd',
        "Kennedy"@[6] == 'y',
        "Leichhardt"@.len() == 10,
        "Leichhardt"@[0] == 'L',
        "Leichhardt"@[1] == 'e',
        "Leichhardt"@[2] == 'i',
        "Leichhardt"@[3] == 'c',
        "Leichhardt"@[4] == 'h',
        "Leichhardt"@[5] == 'h',
        "Leichhardt"@[6] == 'a',
        "Leichhardt"@[7] == 'r',
        "Leichhardt"@[8] == 'd',
        "Leichhardt"@[9] == 't',
        "Lilley"@.len() == 6,
        "Lilley"@[0] == 'L',
        "Lilley"@[1] == 'i',
        "Lilley"@[2] == 'l',
        "Lilley"@[3] == 'l',
        "Lilley"@[4] == 'e',
        "Lilley"@[5] == 'y',
        "Longman"@.len() == 7,
        "Longman"@[0] == 'L',
        "Longman"@[1] == 'o',
        "Longman"@[2] == 'n',
        "Longman"@[3] == 'g',
        "Longman"@[4] == 'm',
        "Longman"@[5] == 'a',
        "Longman"@[6] == 'n',
{
    reveal_strlit("Fairfax");
    reveal_strlit("Fisher");
    reveal_strlit("Flynn");
    reveal_strlit("Forde");
    reveal_strlit("Griffith");
    reveal_strlit("Groom");
    reveal_strlit("Herbert");
    reveal_strlit("Hinkler");
    reveal_strlit("Kennedy");
    reveal_strlit("Leichhardt");
    reveal_strlit("Lilley");
    reveal_strlit("Longman");
}

/// The length and characters of some names, for disambiguation.
proof fn division_name_facts_g()
    ensures
        "Maranoa"@.len() == 7,
        "Maranoa"@[0] == 'M',
        "Maranoa"@[1] == 'a',
        "Maranoa"@[2] == 'r',
        "Maranoa"@[3] == 'a',
        "Maranoa"@[4] == 'n',
        "Maranoa"@[5] == 'o',
        "Maranoa"@[6] == 'a',
        "McPherson"@.len() == 9,
        "McPherson"@[0] == 'M',
        "McPherson"@[1] == 'c',
        "McPherson"@[2] == 'P',
        "McPherson"@[3] == 'h',
        "McPherson"@[4] == 'e',
        "McPherson"@[5] == 'r',
        "McPherson"@[6] == 's',
        "McPherson"@[7] == 'o',
        "McPherson"@[8] == 'n',
        "Moncrieff"@.len() == 9,
        "Moncrieff"@[0] == 'M',
        "Moncrieff"@[1] == 'o',
        "Moncrieff"@[2] == 'n',
        "Moncrieff"@[3] == 'c',
        "Moncrieff"@[4] == 'r',
        "Moncrieff"@[5] == 'i',
        "Moncrieff"@[6] == 'e',
        "Moncrieff"@[7] == 'f',
        "Moncrieff"@[8] == 'f',
        "Moreton"@.len() == 7,
        "Moreton"@[0] == 'M',
        "Moreton"@[1] == 'o',
        "Moreton"@[2] == 'r',
        "Moreton"@[3] == 'e',
        "Moreton"@[4] == 't',
        "Moreton"@[5] == 'o',
        "Moreton"@[6] == 'n',
        "Oxley"@.len() == 5,
        "Oxley"@[0] == 'O',
        "Oxley"@[1] == 'x',
        "Oxley"@[2] == 'l',
        "Oxley"@[3] == 'e',
        "Oxley"@[4] == 'y',
        "Petrie"@.len() == 6,
        "Petrie"@[0] == 'P',
        "Petrie"@[1] == 'e',
        "Petrie"@[2] == 't',
        "Petrie"@[3] == 'r',
        "Petrie"@[4] == 'i',
        "Petrie"@[5] == 'e',
        "Rankin"@.len() == 6,
        "Rankin"@[0] == 'R',
        "Rankin"@[1] == 'a',
        "Rankin"@[2] == 'n',
        "Rankin"@[3] == 'k',
        "Rankin"@[4] == 'i',
        "Rankin"@[5] == 'n',
        "Ryan"@.len() == 4,
        "Ryan"@[0] == 'R',
        "Ryan"@[1] == 'y',
        "Ryan"@[2] == 'a',
        "Ryan"@[3] == 'n',
        "WideBay"@.len() == 7,
        "WideBay"@[0] == 'W',
        "WideBay"@[1] == 'i',
        "WideBay"@[2] == 'd',
        "WideBay"@[3] == 'e',
        "WideBay"@[4] == 'B',
        "WideBay"@[5] == 'a',
        "WideBay"@[6] == 'y',
        "Wright"@.len() == 6,
        "Wright"@[0] == 'W',
        "Wright"@[1] == 'r',
        "Wright"@[2] == 'i',
        "Wright"@[3] == 'g',
        "Wright"@[4] == 'h',
        "Wright"@[5] == 't',
        "Adelaide"@.len() == 8,
        "Adelaide"@[0] == 'A',
        "Adelaide"@[1] == 'd',
        "Adelaide"@[2] == 'e',
        "Adelaide"@[3] == 'l',
        "Adelaide"@[4] == 'a',
        "Adelaide"@[5] == 'i',
        "Adelaide"@[6] == 'd',
        "Adelaide"@[7] == 'e',
        "Barker"@.len() == 6,
        "Barker"@[0] == 'B',
        "Barker"@[1] == 'a',
        "Barker"@[2] == 'r',
        "Barker"@[3] == 'k',
        "Barker"@[4] == 'e',
        "Barker"@[5] == 'r',
{
    reveal_strlit("Maranoa");
    reveal_strlit("McPherson");
    reveal_strlit("Moncrieff");
    reveal_strlit("Moreton");
    reveal_strlit("Oxley");
    reveal_strlit("Petrie");
    reveal_strlit("Rankin");
    reveal_strlit("Ryan");
    reveal_strlit("WideBay");
    reveal_strlit("Wright");
    reveal_strlit("Adelaide");
    reveal_strlit("Barker");
}

/// The length and characters of some names, for disambiguation.
proof fn division_name_facts_h()
    ensures
        "Boothby"@.len() == 7,
        "Boothby"@[0] == 'B',
        "Boothby"@[1] == 'o',
        "Boothby"@[2] == 'o',
        "Boothby"@[3] == 't',
        "Boothby"@[4] == 'h',
        "Boothby"@[5] == 'b',
        "Boothby"@[6] == 'y',
        "Grey"@.len() == 4,
        "Grey"@[0] == 'G',
        "Grey"@[1] == 'r',
        "Grey"@[2] == 'e',
        "Grey"@[3] == 'y',
        "Hindmarsh"@.len() == 9,
        "Hindmarsh"@[0] == 'H',
        "Hindmarsh"@[1] == 'i',
        "Hindmarsh"@[2] == 'n',
        "Hindmarsh"@[3] == 'd',
        "Hindmarsh"@[4] == 'm',
        "Hindmarsh"@[5] == 'a',
        "Hindmarsh"@[6] == 'r',
        "Hindmarsh"@[7] == 's',
        "Hindmarsh"@[8] == 'h',
        "Kingston"@.len() == 8,
        "Kingston"@[0] == 'K',
        "Kingston"@[1] == 'i',
        "Kingston"@[2] == 'n',
        "Kingston"@[3] == 'g',
        "Kingston"@[4] == 's',
        "Kingston"@[5] == 't',
        "Kingston"@[6] == 'o',
        "Kingston"@[7] == 'n',
        "Makin"@.len() == 5,
        "Makin"@[0] == 'M',
        "Makin"@[1] == 'a',
        "Makin"@[2] == 'k',
        "Makin"@[3] == 'i',
        "Makin"@[4] == 'n',
        "Mayo"@.len() == 4,
        "Mayo"@[0] == 'M',
        "Mayo"@[1] == 'a',
        "Mayo"@[2] == 'y',
        "Mayo"@[3] == 'o',
        "Spence"@.len() == 6,
        "Spence"@[0] == 'S',
        "Spence"@[1] == 'p',
        "Spence"@[2] == 'e',
        "Spence"@[3] == 'n',
        "Spence"@[4] == 'c',
        "Spence"@[5] == 'e',
        "Sturt"@.len() == 5,
        "Sturt"@[0] == 'S',
        "Sturt"@[1] == 't',
        "Sturt"@[2] == 'u',
        "Sturt"@[3] == 'r',
        "Sturt"@[4] == 't',
        "Bass"@.len() == 4,
        "Bass"@[0] == 'B',
        "Bass"@[1] == 'a',
        "Bass"@[2] == 's',
        "Bass"@[3] == 's',
        "Braddon"@.len() == 7,
        "Braddon"@[0] == 'B',
        "Braddon"@[1] == 'r',
        "Braddon"@[2] == 'a',
        "Braddon"@[3] == 'd',
        "Braddon"@[4] == 'd',
        "Braddon"@[5] == 'o',
        "Braddon"@[6] == 'n',
        "Clark"@.len() == 5,
        "Clark"@[0] == 'C',
        "Clark"@[1] == 'l',
        "Clark"@[2] == 'a',
        "Clark"@[3] == 'r',
        "Clark"@[4] == 'k',
        "Franklin"@.len() == 8,
        "Franklin"@[0] == 'F',
        "Franklin"@[1] == 'r',
        "Franklin"@[2] == 'a',
        "Franklin"@[3] == 'n',
        "Franklin"@[4] == 'k',
        "Franklin"@[5] == 'l',
        "Franklin"@[6] == 'i',
        "Franklin"@[7] == 'n',
{
    reveal_strlit("Boothby");
    reveal_strlit("Grey");
    reveal_strlit("Hindmarsh");
    reveal_strlit("Kingston");
    reveal_strlit("Makin");
    reveal_strlit("Mayo");
    reveal_strlit("Spence");
    reveal_strlit("Sturt");
    reveal_strlit("Bass");
    reveal_strlit("Braddon");
    reveal_strlit("Clark");
    reveal_strlit("Franklin");
}

/// The length and characters of some names, for disambiguation.
proof fn division_name_facts_i()
    ensures
        "Lyons"@.len() == 5,
        "Lyons"@[0] == 'L',
        "Lyons"@[1] == 'y',
        "Lyons"@[2] == 'o',
        "Lyons"@[3] == 'n',
        "Lyons"@[4] == 's',
        "Aston"@.len() == 5,
        "Aston"@[0] == 'A',
        "Aston"@[1] == 's',
        "Aston"@[2] == 't',
        "Aston"@[3] == 'o',
        "Aston"@[4] == 'n',
        "Ballarat"@.len() == 8,
        "Ballarat"@[0] == 'B',
        "Ballarat"@[1] == 'a',
        "Ballarat"@[2] == 'l',
        "Ballarat"@[3] == 'l',
        "Ballarat"@[4] == 'a',
        "Ballarat"@[5] == 'r',
        "Ballarat"@[6] == 'a',
        "Ballarat"@[7] == 't',
        "Bendigo"@.len() == 7,
        "Bendigo"@[0] == 'B',
        "Bendigo"@[1] == 'e',
        "Bendigo"@[2] == 'n',
        "Bendigo"@[3] == 'd',
        "Bendigo"@[4] == 'i',
        "Bendigo"@[5] == 'g',
        "Bendigo"@[6] == 'o',
        "Bruce"@.len() == 5,
        "Bruce"@[0] == 'B',
        "Bruce"@[1] == 'r',
        "Bruce"@[2] == 'u',
        "Bruce"@[3] == 'c',
        "Bruce"@[4] == 'e',
        "Calwell"@.len() == 7,
        "Calwell"@[0] == 'C',
        "Calwell"@[1] == 'a',
        "Calwell"@[2] == 'l',
        "Calwell"@[3] == 'w',
        "Calwell"@[4] == 'e',
        "Calwell"@[5] == 'l',
        "Calwell"@[6] == 'l',
        "Casey"@.len() == 5,
        "Casey"@[0] == 'C',
        "Casey"@[1] == 'a',
        "Casey"@[2] == 's',
        "Casey"@[3] == 'e',
        "Casey"@[4] == 'y',
        "Chisholm"@.len() == 8,
        "Chisholm"@[0] == 'C',
        "Chisholm"@[1] == 'h',
        "Chisholm"@[2] == 'i',
        "Chisholm"@[3] == 's',
        "Chisholm"@[4] == 'h',
        "Chisholm"@[5] == 'o',
        "Chisholm"@[6] == 'l',
        "Chisholm"@[7] == 'm',
        "Cooper"@.len() == 6,
        "Cooper"@[0] == 'C',
        "Cooper"@[1] == 'o',
        "Cooper"@[2] == 'o',
        "Cooper"@[3] == 'p',
        "Cooper"@[4] == 'e',
        "Cooper"@[5] == 'r',
        "Corangamite"@.len() == 11,
        "Corangamite"@[0] == 'C',
        "Corangamite"@[1] == 'o',
        "Corangamite"@[2] == 'r',
        "Corangamite"@[3] == 'a',
        "Corangamite"@[4] == 'n',
        "Corangamite"@[5] == 'g',
        "Corangamite"@[6] == 'a',
        "Corangamite"@[7] == 'm',
        "Corangamite"@[8] == 'i',
        "Corangamite"@[9] == 't',
        "Corangamite"@[10] == 'e',
        "Corio"@.len() == 5,
        "Corio"@[0] == 'C',
        "Corio"@[1] == 'o',
        "Corio"@[2] == 'r',
        "Corio"@[3] == 'i',
        "Corio"@[4] == 'o',
        "Deakin"@.len() == 6,
        "Deakin"@[0] == 'D',
        "Deakin"@[1] == 'e',
        "Deakin"@[2] == 'a',
        "Deakin"@[3] == 'k',
        "Deakin"@[4] == 'i',
        "Deakin"@[5] == 'n',
{
    reveal_strlit("Lyons");
    reveal_strlit("Aston");
    reveal_strlit("Ballarat");
    reveal_strlit("Bendigo");
    reveal_strlit("Bruce");
    reveal_strlit("Calwell");
    reveal_strlit("Casey");
    reveal_strlit("Chisholm");
    reveal_strlit("Cooper");
    reveal_strlit("Corangamite");
    reveal_strlit("Corio");
    reveal_strlit("Deakin");
}

/// The length and characters of some names, for disambiguation.
proof fn division_name_facts_j()
    ensures
        "Dunkley"@.len() == 7,
        "Dunkley"@[0] == 'D',
        "Dunkley"@[1] == 'u',
        "Dunkley"@[2] == 'n',
        "Dunkley"@[3] == 'k',
        "Dunkley"@[4] == 'l',
        "Dunkley"@[5] == 'e',
        "Dunkley"@[6] == 'y',
        "Flinders"@.len() == 8,
        "Flinders"@[0] == 'F',
        "Flinders"@[1] == 'l',
        "Flinders"@[2] == 'i',
        "Flinders"@[3] == 'n',
        "Flinders"@[4] == 'd',
        "Flinders"@[5] == 'e',
        "Flinders"@[6] == 'r',
        "Flinders"@[7] == 's',
        "Fraser"@.len() == 6,
        "Fraser"@[0] == 'F',
        "Fraser"@[1] == 'r',
        "Fraser"@[2] == 'a',
        "Fraser"@[3] == 's',
        "Fraser"@[4] == 'e',
        "Fraser"@[5] == 'r',
        "Gellibrand"@.len() == 10,
        "Gellibrand"@[0] == 'G',
        "Gellibrand"@[1] == 'e',
        "Gellibrand"@[2] == 'l',
        "Gellibrand"@[3] == 'l',
        "Gellibrand"@[4] == 'i',
        "Gellibrand"@[5] == 'b',
        "Gellibrand"@[6] == 'r',
        "Gellibrand"@[7] == 'a',
        "Gellibrand"@[8] == 'n',
        "Gellibrand"@[9] == 'd',
        "Gippsland"@.len() == 9,
        "Gippsland"@[0] == 'G',
        "Gippsland"@[1] == 'i',
        "Gippsland"@[2] == 'p',
        "Gippsland"@[3] == 'p',
        "Gippsland"@[4] == 's',
        "Gippsland"@[5] == 'l',
        "Gippsland"@[6] == 'a',
        "Gippsland"@[7] == 'n',
        "Gippsland"@[8] == 'd',
        "Goldstein"@.len() == 9,
        "Goldstein"@[0] == 'G',
        "Goldstein"@[1] == 'o',
        "Goldstein"@[2] == 'l',
        "Goldstein"@[3] == 'd',
        "Goldstein"@[4] == 's',
        "Goldstein"@[5] == 't',
        "Goldstein"@[6] == 'e',
        "Goldstein"@[7] == 'i',
        "Goldstein"@[8] == 'n',
        "Gorton"@.len() == 6,
        "Gorton"@[0] == 'G',
        "Gorton"@[1] == 'o',
        "Gorton"@[2] == 'r',
        "Gorton"@[3] == 't',
        "Gorton"@[4] == 'o',
        "Gorton"@[5] == 'n',
        "Hawke"@.len() == 5,
        "Hawke"@[0] == 'H',
        "Hawke"@[1] == 'a',
        "Hawke"@[2] == 'w',
        "Hawke"@[3] == 'k',
        "Hawke"@[4] == 'e',
        "Higgins"@.len() == 7,
        "Higgins"@[0] == 'H',
        "Higgins"@[1] == 'i',
        "Higgins"@[2] == 'g',
        "Higgins"@[3] == 'g',
        "Higgins"@[4] == 'i',
        "Higgins"@[5] == 'n',
        "Higgins"@[6] == 's',
        "Holt"@.len() == 4,
        "Holt"@[0] == 'H',
        "Holt"@[1] == 'o',
        "Holt"@[2] == 'l',
        "Holt"@[3] == 't',
        "Hotham"@.len() == 6,
        "Hotham"@[0] == 'H',
        "Hotham"@[1] == 'o',
        "Hotham"@[2] == 't',
        "Hotham"@[3] == 'h',
        "Hotham"@[4] == 'a',
        "Hotham"@[5] == 'm',
        "Indi"@.len() == 4,
        "Indi"@[0] == 'I',
        "Indi"@[1] == 'n',
        "Indi"@[2] == 'd',
        "Indi"@[3] == 'i',
{
    reveal_strlit("Dunkley");
    reveal_strlit("Flinders");
    reveal_strlit("Fraser");
    reveal_strlit("Gellibrand");
    reveal_strlit("Gippsland");
    reveal_strlit("Goldstein");
    reveal_strlit("Gorton");
    reveal_strlit("Hawke");
    reveal_strlit("Higgins");
    reveal_strlit("Holt");
    reveal_strlit("Hotham");
    reveal_strlit("Indi");
}

/// The length and characters of some names, for disambiguation.
proof fn division_name_facts_k()
    ensures
        "Isaacs"@.len() == 6,
        "Isaacs"@[0] == 'I',
        "Isaacs"@[1] == 's',
        "Isaacs"@[2] == 'a',
        "Isaacs"@[3] == 'a',
        "Isaacs"@[4] == 'c',
        "Isaacs"@[5] == 's',
        "Jagajaga"@.len() == 8,
        "Jagajaga"@[0] == 'J',
        "Jagajaga"@[1] == 'a',
        "Jagajaga"@[2] == 'g',
        "Jagajaga"@[3] == 'a',
        "Jagajaga"@[4] == 'j',
        "Jagajaga"@[5] == 'a',
        "Jagajaga"@[6] == 'g',
        "Jagajaga"@[7] == 'a',
        "Kooyong"@.len() == 7,
        "Kooyong"@[0] == 'K',
        "Kooyong"@[1] == 'o',
        "Kooyong"@[2] == 'o',
        "Kooyong"@[3] == 'y',
        "Kooyong"@[4] == 'o',
        "Kooyong"@[5] == 'n',
        "Kooyong"@[6] == 'g',
        "LaTrobe"@.len() == 7,
        "LaTrobe"@[0] == 'L',
        "LaTrobe"@[1] == 'a',
        "LaTrobe"@[2] == 'T',
        "LaTrobe"@[3] == 'r',
        "LaTrobe"@[4] == 'o',
        "LaTrobe"@[5] == 'b',
        "LaTrobe"@[6] == 'e',
        "Lalor"@.len() == 5,
        "Lalor"@[0] == 'L',
        "Lalor"@[1] == 'a',
        "Lalor"@[2] == 'l',
        "Lalor"@[3] == 'o',
        "Lalor"@[4] == 'r',
        "Macnamara"@.len() == 9,
        "Macnamara"@[0] == 'M',
        "Macnamara"@[1] == 'a',
        "Macnamara"@[2] == 'c',
        "Macnamara"@[3] == 'n',
        "Macnamara"@[4] == 'a',
        "Macnamara"@[5] == 'm',
        "Macnamara"@[6] == 'a',
        "Macnamara"@[7] == 'r',
        "Macnamara"@[8] == 'a',
        "Mallee"@.len() == 6,
        "Mallee"@[0] == 'M',
        "Mallee"@[1] == 'a',
        "Mallee"@[2] == 'l',
        "Mallee"@[3] == 'l',
        "Mallee"@[4] == 'e',
        "Mallee"@[5] == 'e',
        "Maribyrnong"@.len() == 11,
        "Maribyrnong"@[0] == 'M',
        "Maribyrnong"@[1] == 'a',
        "Maribyrnong"@[2] == 'r',
        "Maribyrnong"@[3] == 'i',
        "Maribyrnong"@[4] == 'b',
        "Maribyrnong"@[5] == 'y',
        "Maribyrnong"@[6] == 'r',
        "Maribyrnong"@[7] == 'n',
        "Maribyrnong"@[8] == 'o',
        "Maribyrnong"@[9] == 'n',
        "Maribyrnong"@[10] == 'g',
        "McEwen"@.len() == 6,
        "McEwen"@[0] == 'M',
        "McEwen"@[1] == 'c',
        "McEwen"@[2] == 'E',
        "McEwen"@[3] == 'w',
        "McEwen"@[4] == 'e',
        "McEwen"@[5] == 'n',
        "Melbourne"@.len() == 9,
        "Melbourne"@[0] == 'M',
        "Melbourne"@[1] == 'e',
        "Melbourne"@[2] == 'l',
        "Melbourne"@[3] == 'b',
        "Melbourne"@[4] == 'o',
        "Melbourne"@[5] == 'u',
        "Melbourne"@[6] == 'r',
        "Melbourne"@[7] == 'n',
        "Melbourne"@[8] == 'e',
        "Menzies"@.len() == 7,
        "Menzies"@[0] == 'M',
        "Menzies"@[1] == 'e',
        "Menzies"@[2] == 'n',
        "Menzies"@[3] == 'z',
        "Menzies"@[4] == 'i',
        "Menzies"@[5] == 'e',
        "Menzies"@[6] == 's',
        "Monash"@.len() == 6,
        "Monash"@[0] == 'M',
        "Monash"@[1] == 'o',
        "Monash"@[2] == 'n',
        "Monash"@[3] == 'a',
        "Monash"@[4] == 's',
        "Monash"@[5] == 'h',
{
    reveal_strlit("Isaacs");
    reveal_strlit("Jagajaga");
    reveal_strlit("Kooyong");
    reveal_strlit("LaTrobe");
    reveal_strlit("Lalor");
    reveal_strlit("Macnamara");
    reveal_strlit("Mallee");
    reveal_strlit("Maribyrnong");
    reveal_strlit("McEwen");
    reveal_strlit("Melbourne");
    reveal_strlit("Menzies");
    reveal_strlit("Monash");
}

/// The length and characters of some names, for disambiguation.
proof fn division_name_facts_l()
    ensures
        "Nicholls"@.len() == 8,
        "Nicholls"@[0] == 'N',
        "Nicholls"@[1] == 'i',
        "Nicholls"@[2] == 'c',
        "Nicholls"@[3] == 'h',
        "Nicholls"@[4] == 'o',
        "Nicholls"@[5] == 'l',
        "Nicholls"@[6] == 'l',
        "Nicholls"@[7] == 's',
        "Scullin"@.len() == 7,
        "Scullin"@[0] == 'S',
        "Scullin"@[1] == 'c',
        "Scullin"@[2] == 'u',
        "Scullin"@[3] == 'l',
        "Scullin"@[4] == 'l',
        "Scullin"@[5] == 'i',
        "Scullin"@[6] == 'n',
        "Wannon"@.len() == 6,
        "Wannon"@[0] == 'W',
        "Wannon"@[1] == 'a',
        "Wannon"@[2] == 'n',
        "Wannon"@[3] == 'n',
        "Wannon"@[4] == 'o',
        "Wannon"@[5] == 'n',
        "Wills"@.len() == 5,
        "Wills"@[0] == 'W',
        "Wills"@[1] == 'i',
        "Wills"@[2] == 'l',
        "Wills"@[3] == 'l',
        "Wills"@[4] == 's',
        "Brand"@.len() == 5,
        "Brand"@[0] == 'B',
        "Brand"@[1] == 'r',
        "Brand"@[2] == 'a',
        "Brand"@[3] == 'n',
        "Brand"@[4] == 'd',
        "Burt"@.len() == 4,
        "Burt"@[0] == 'B',
        "Burt"@[1] == 'u',
        "Burt"@[2] == 'r',
        "Burt"@[3] == 't',
        "Canning"@.len() == 7,
        "Canning"@[0] == 'C',
        "Canning"@[1] == 'a',
        "Canning"@[2] == 'n',
        "Canning"@[3] == 'n',
        "Canning"@[4] == 'i',
        "Canning"@[5] == 'n',
        "Canning"@[6] == 'g',
        "Cowan"@.len() == 5,
        "Cowan"@[0] == 'C',
        "Cowan"@[1] == 'o',
        "Cowan"@[2] == 'w',
        "Cowan"@[3] == 'a',
        "Cowan"@[4] == 'n',
        "Curtin"@.len() == 6,
        "Curtin"@[0] == 'C',
        "Curtin"@[1] == 'u',
        "Curtin"@[2] == 'r',
        "Curtin"@[3] == 't',
        "Curtin"@[4] == 'i',
        "Curtin"@[5] == 'n',
        "Durack"@.len() == 6,
        "Durack"@[0] == 'D',
        "Durack"@[1] == 'u',
        "Durack"@[2] == 'r',
        "Durack"@[3] == 'a',
        "Durack"@[4] == 'c',
        "Durack"@[5] == 'k',
        "Forrest"@.len() == 7,
        "Forrest"@[0] == 'F',
        "Forrest"@[1] == 'o',
        "Forrest"@[2] == 'r',
        "Forrest"@[3] == 'r',
        "Forrest"@[4] == 'e',
        "Forrest"@[5] == 's',
        "Forrest"@[6] == 't',
        "Fremantle"@.len() == 9,
        "Fremantle"@[0] == 'F',
        "Fremantle"@[1] == 'r',
        "Fremantle"@[2] == 'e',
        "Fremantle"@[3] == 'm',
        "Fremantle"@[4] == 'a',
        "Fremantle"@[5] == 'n',
        "Fremantle"@[6] == 't',
        "Fremantle"@[7] == 'l',
        "Fremantle"@[8] == 'e',
{
    reveal_strlit("Nicholls");
    reveal_strlit("Scullin");
    reveal_strlit("Wannon");
    reveal_strlit("Wills");
    reveal_strlit("Brand");
    reveal_strlit("Burt");
    reveal_strlit("Canning");
    reveal_strlit("Cowan");
    reveal_strlit("Curtin");
    reveal_strlit("Durack");
    reveal_strlit("Forrest");
    reveal_strlit("Fremantle");
}

/// The length and characters of some names, for disambiguation.
proof fn division_name_facts_m()
    ensures
        "Hasluck"@.len() == 7,
        "Hasluck"@[0] == 'H',
        "Hasluck"@[1] == 'a',
        "Hasluck"@[2] == 's',
        "Hasluck"@[3] == 'l',
        "Hasluck"@[4] == 'u',
        "Hasluck"@[5] == 'c',
        "Hasluck"@[6] == 'k',
        "Moore"@.len() == 5,
        "Moore"@[0] == 'M',
        "Moore"@[1] == 'o',
        "Moore"@[2] == 'o',
        "Moore"@[3] == 'r',
        "Moore"@[4] == 'e',
        "OConnor"@.len() == 7,
        "OConnor"@[0] == 'O',
        "OConnor"@[1] == 'C',
        "OConnor"@[2] == 'o',
        "OConnor"@[3] == 'n',
        "OConnor"@[4] == 'n',
        "OConnor"@[5] == 'o',
        "OConnor"@[6] == 'r',
        "Pearce"@.len() == 6,
        "Pearce"@[0] == 'P',
        "Pearce"@[1] == 'e',
        "Pearce"@[2] == 'a',
        "Pearce"@[3] == 'r',
        "Pearce"@[4] == 'c',
        "Pearce"@[5] == 'e',
        "Perth"@.len() == 5,
        "Perth"@[0] == 'P',
        "Perth"@[1] == 'e',
        "Perth"@[2] == 'r',
        "Perth"@[3] == 't',
        "Perth"@[4] == 'h',
        "Swan"@.len() == 4,
        "Swan"@[0] == 'S',
        "Swan"@[1] == 'w',
        "Swan"@[2] == 'a',
        "Swan"@[3] == 'n',
        "Tangney"@.len() == 7,
        "Tangney"@[0] == 'T',
        "Tangney"@[1] == 'a',
        "Tangney"@[2] == 'n',
        "Tangney"@[3] == 'g',
        "Tangney"@[4] == 'n',
        "Tangney"@[5] == 'e',
        "Tangney"@[6] == 'y',
{
    reveal_strlit("Hasluck");
    reveal_strlit("Moore");
    reveal_strlit("OConnor");
    reveal_strlit("Pearce");
    reveal_strlit("Perth");
    reveal_strlit("Swan");
    reveal_strlit("Tangney");
}

#[verifier::spinoff_prover]
#[verifier::rlimit(100)]
proof fn lemma_division_round_trip_a(x: Division)
    requires
        x is Bean || x is Canberra || x is Fenner || x is Banks || x is Barton || x is Bennelong || x is Berowra || x is Blaxland || x is Bradfield || x is Calare || x is Chifley || x is Cook,
    ensures
        division_from(division_name(x)) == Some(x),
        plain_token(division_name(x)),
{
    division_name_facts_a();
    division_name_facts_b();
    division_name_facts_c();
    division_name_facts_d();
    division_name_facts_e();
    division_name_facts_f();
    division_name_facts_g();
    division_name_facts_h();
    division_name_facts_i();
    division_name_facts_j();
    division_name_facts_k();
    division_name_facts_l();
    division_name_facts_m();
    match x {
        Division::Bean => {
            assert(division_name(x) == "Bean"@);
            assert(division_from("Bean"@) == Some(Division::Bean));
            assert(plain_token("Bean"@));
        },
        Division::Canberra => {
            assert(division_name(x) == "Canberra"@);
            assert(division_from("Canberra"@) == Some(Division::Canberra));
            assert(plain_token("Canberra"@));
        },
        Division::Fenner => {
            assert(division_name(x) == "Fenner"@);
            assert(division_from("Fenner"@) == Some(Division::Fenner));
            assert(plain_token("Fenner"@));
        },
        Division::Banks => {
            assert(division_name(x) == "Banks"@);
            assert(division_from("Banks"@) == Some(Division::Banks));
            assert(plain_token("Banks"@));
        },
        Division::Barton => {
            assert(division_name(x) == "Barton"@);
            assert(division_from("Barton"@) == Some(Division::Barton));
            assert(plain_token("Barton"@));
        },
        Division::Bennelong => {
            assert(division_name(x) == "Bennelong"@);
            assert(division_from("Bennelong"@) == Some(Division::Bennelong));
            assert(plain_token("Bennelong"@));
        },
        Division::Berowra => {
            assert(division_name(x) == "Berowra"@);
            assert(division_from("Berowra"@) == Some(Division::Berowra));
            assert(plain_token("Berowra"@));
        },
        Division::Blaxland => {
            assert(division_name(x) == "Blaxland"@);
            assert(division_from("Blaxland"@) == Some(Division::Blaxland));
            assert(plain_token("Blaxland"@));
        },
        Division::Bradfield => {
            assert(division_name(x) == "Bradfield"@);
            assert(division_from("Bradfield"@) == Some(Division::Bradfield));
            assert(plain_token("Bradfield"@));
        },
        Division::Calare => {
            assert(division_name(x) == "Calare"@);
            assert(division_from("Calare"@) == Some(Division::Calare));
            assert(plain_token("Calare"@));
        },
        Division::Chifley => {
            assert(division_name(x) == "Chifley"@);
            assert(division_from("Chifley"@) == Some(Division::Chifley));
            assert(plain_token("Chifley"@));
        },
        Division::Cook => {
            assert(division_name(x) == "Cook"@);
            assert(division_from("Cook"@) == Some(Division::Cook));
            assert(plain_token("Cook"@));
        },
        _ => { },
    }
}

#[verifier::spinoff_prover]
#[verifier::rlimit(100)]
proof fn lemma_division_round_trip_b(x: Division)
    requires
        x is Cowper || x is Cunningham || x is Dobell || x is EdenMonaro || x is Farrer || x is Fowler || x is Gilmore || x is Grayndler || x is Greenway || x is Hughes || x is Hume || x is Hunter,
    ensures
        division_from(division_name(x)) == Some(x),
        plain_token(division_name(x)),
{
    division_name_facts_a();
    division_name_facts_b();
    division_name_facts_c();
    division_name_facts_d();
    division_name_facts_e();
    division_name_facts_f();
    division_name_facts_g();
    division_name_facts_h();
    division_name_facts_i();
    division_name_facts_j();
    division_name_facts_k();
    division_name_facts_l();
    division_name_facts_m();
    match x {
        Division::Cowper => {
            assert(division_name(x) == "Cowper"@);
            assert(division_from("Cowper"@) == Some(Division::Cowper));
            assert(plain_token("Cowper"@));
        },
        Division::Cunningham => {
            assert(division_name(x) == "Cunningham"@);
            assert(division_from("Cunningham"@) == Some(Division::Cunningham));
            assert(plain_token("Cunningham"@));
        },
        Division::Dobell => {
            assert(division_name(x) == "Dobell"@);
            assert(division_from("Dobell"@) == Some(Division::Dobell));
            assert(plain_token("Dobell"@));
        },
        Division::EdenMonaro => {
            assert(division_name(x) == "EdenMonaro"@);
            assert(division_from("EdenMonaro"@) == Some(Division::EdenMonaro));
            assert(plain_token("EdenMonaro"@));
        },
        Division::Farrer => {
            assert(division_name(x) == "Farrer"@);
            assert(division_from("Farrer"@) == Some(Division::Farrer));
            assert(plain_token("Farrer"@));
        },
        Division::Fowler => {
            assert(division_name(x) == "Fowler"@);
            assert(division_from("Fowler"@) == Some(Division::Fowler));
            assert(plain_token("Fowler"@));
        },
        Division::Gilmore => {
            assert(division_name(x) == "Gilmore"@);
            assert(division_from("Gilmore"@) == Some(Division::Gilmore));
            assert(plain_token("Gilmore"@));
        },
        Division::Grayndler => {
            assert(division_name(x) == "Grayndler"@);
            assert(division_from("Grayndler"@) == Some(Division::Grayndler));
            assert(plain_token("Grayndler"@));
        },
        Division::Greenway => {
            assert(division_name(x) == "Greenway"@);
            assert(division_from("Greenway"@) == Some(Division::Greenway));
            assert(plain_token("Greenway"@));
        },
        Division::Hughes => {
            assert(division_name(x) == "Hughes"@);
            assert(division_from("Hughes"@) == Some(Division::Hughes));
            assert(plain_token("Hughes"@));
        },
        Division::Hume => {
            assert(division_name(x) == "Hume"@);
            assert(division_from("Hume"@) == Some(Division::Hume));
            assert(plain_token("Hume"@));
        },
        Division::Hunter => {
            assert(division_name(x) == "Hunter"@);
            assert(division_from("Hunter"@) == Some(Division::Hunter));
            assert(plain_token("Hunter"@));
        },
        _ => { },
    }
}

#[verifier::spinoff_prover]
#[verifier::rlimit(100)]
proof fn lemma_division_round_trip_c(x: Division)
    requires
        x is KingsfordSmith || x is Lindsay || x is Lyne || x is Macarthur || x is Mackellar || x is Macquarie || x is McMahon || x is Mitchell || x is NewEngland || x is Newcastle || x is NorthSydney || x is Page,
    ensures
        division_from(division_name(x)) == Some(x),
        plain_token(division_name(x)),
{
    division_name_facts_a();
    division_name_facts_b();
    division_name_facts_c();
    division_name_facts_d();
    division_name_facts_e();
    division_name_facts_f();
    division_name_facts_g();
    division_name_facts_h();
    division_name_facts_i();
    division_name_facts_j();
    division_name_facts_k();
    division_name_facts_l();
    division_name_facts_m();
    match x {
        Division::KingsfordSmith => {
            assert(division_name(x) == "KingsfordSmith"@);
            assert(division_from("KingsfordSmith"@) == Some(Division::KingsfordSmith));
            assert(plain_token("KingsfordSmith"@));
        },
        Division::Lindsay => {
            assert(division_name(x) == "Lindsay"@);
            assert(division_from("Lindsay"@) == Some(Division::Lindsay));
            assert(plain_token("Lindsay"@));
        },
        Division::Lyne => {
            assert(division_name(x) == "Lyne"@);
            assert(division_from("Lyne"@) == Some(Division::Lyne));
            assert(plain_token("Lyne"@));
        },
        Division::Macarthur => {
            assert(division_name(x) == "Macarthur"@);
            assert(division_from("Macarthur"@) == Some(Division::Macarthur));
            assert(plain_token("Macarthur"@));
        },
        Division::Mackellar => {
            assert(division_name(x) == "Mackellar"@);
            assert(division_from("Mackellar"@) == Some(Division::Mackellar));
            assert(plain_token("Mackellar"@));
        },
        Division::Macquarie => {
            assert(division_name(x) == "Macquarie"@);
            assert(division_from("Macquarie"@) == Some(Division::Macquarie));
            assert(plain_token("Macquarie"@));
        },
        Division::McMahon => {
            assert(division_name(x) == "McMahon"@);
            assert(division_from("McMahon"@) == Some(Division::McMahon));
            assert(plain_token("McMahon"@));
        },
        Division::Mitchell => {
            assert(division_name(x) == "Mitchell"@);
            assert(division_from("Mitchell"@) == Some(Division::Mitchell));
            assert(plain_token("Mitchell"@));
        },
        Division::NewEngland => {
            assert(division_name(x) == "NewEngland"@);
            assert(division_from("NewEngland"@) == Some(Division::NewEngland));
            assert(plain_token("NewEngland"@));
        },
        Division::Newcastle => {
            assert(division_name(x) == "Newcastle"@);
            assert(division_from("Newcastle"@) == Some(Division::Newcastle));
            assert(plain_token("Newcastle"@));
        },
        Division::NorthSydney => {
            assert(division_name(x) == "NorthSydney"@);
            assert(division_from("NorthSydney"@) == Some(Division::NorthSydney));
            assert(plain_token("NorthSydney"@));
        },
        Division::Page => {
            assert(division_name(x) == "Page"@);
            assert(division_from("Page"@) == Some(Division::Page));
            assert(plain_token("Page"@));
        },
        _ => { },
    }
}

#[verifier::spinoff_prover]
#[verifier::rlimit(100)]
proof fn lemma_division_round_trip_d(x: Division)
    requires
        x is Parkes || x is Parramatta || x is Paterson || x is Reid || x is Richmond || x is Riverina || x is Robertson || x is Shortland || x is Sydney || x is Warringah || x is Watson || x is Wentworth,
    ensures
        division_from(division_name(x)) == Some(x),
        plain_token(division_name(x)),
{
    division_name_facts_a();
    division_name_facts_b();
    division_name_facts_c();
    division_name_facts_d();
    division_name_facts_e();
    division_name_facts_f();
    division_name_facts_g();
    division_name_facts_h();
    division_name_facts_i();
    division_name_facts_j();
    division_name_facts_k();
    division_name_facts_l();
    division_name_facts_m();
    match x {
        Division::Parkes => {
            assert(division_name(x) == "Parkes"@);
            assert(division_from("Parkes"@) == Some(Division::Parkes));
            assert(plain_token("Parkes"@));
        },
        Division::Parramatta => {
            assert(division_name(x) == "Parramatta"@);
            assert(division_from("Parramatta"@) == Some(Division::Parramatta));
            assert(plain_token("Parramatta"@));
        },
        Division::Paterson => {
            assert(division_name(x) == "Paterson"@);
            assert(division_from("Paterson"@) == Some(Division::Paterson));
            assert(plain_token("Paterson"@));
        },
        Division::Reid => {
            assert(division_name(x) == "Reid"@);
            assert(division_from("Reid"@) == Some(Division::Reid));
            assert(plain_token("Reid"@));
        },
        Division::Richmond => {
            assert(division_name(x) == "Richmond"@);
            assert(division_from("Richmond"@) == Some(Division::Richmond));
            assert(plain_token("Richmond"@));
        },
        Division::Riverina => {
            assert(division_name(x) == "Riverina"@);
            assert(division_from("Riverina"@) == Some(Division::Riverina));
            assert(plain_token("Riverina"@));
        },
        Division::Robertson => {
            assert(division_name(x) == "Robertson"@);
            assert(division_from("Robertson"@) == Some(Division::Robertson));
            assert(plain_token("Robertson"@));
        },
        Division::Shortland => {
            assert(division_name(x) == "Shortland"@);
            assert(division_from("Shortland"@) == Some(Division::Shortland));
            assert(plain_token("Shortland"@));
        },
        Division::Sydney => {
            assert(division_name(x) == "Sydney"@);
            assert(division_from("Sydney"@) == Some(Division::Sydney));
            assert(plain_token("Sydney"@));
        },
        Division::Warringah => {
            assert(division_name(x) == "Warringah"@);
            assert(division_from("Warringah"@) == Some(Division::Warringah));
            assert(plain_token("Warringah"@));
        },
        Division::Watson => {
            assert(division_name(x) == "Watson"@);
            assert(division_from("Watson"@) == Some(Division::Watson));
            assert(plain_token("Watson"@));
        },
        Division::Wentworth => {
            assert(division_name(x) == "Wentworth"@);
            assert(division_from("Wentworth"@) == Some(Division::Wentworth));
            assert(plain_token("Wentworth"@));
        },
        _ => { },
    }
}

#[verifier::spinoff_prover]
#[verifier::rlimit(100)]
proof fn lemma_division_round_trip_e(x: Division)
    requires
        x is Werriwa || x is Whitlam || x is Lingiari || x is Solomon || x is Blair || x is Bonner || x is Bowman || x is Brisbane || x is Capricornia || x is Dawson || x is Dickson || x is Fadden,
    ensures
        division_from(division_name(x)) == Some(x),
        plain_token(division_name(x)),
{
    division_name_facts_a();
    division_name_facts_b();
    division_name_facts_c();
    division_name_facts_d();
    division_name_facts_e();
    division_name_facts_f();
    division_name_facts_g();
    division_name_facts_h();
    division_name_facts_i();
    division_name_facts_j();
    division_name_facts_k();
    division_name_facts_l();
    division_name_facts_m();
    match x {
        Division::Werriwa => {
            assert(division_name(x) == "Werriwa"@);
            assert(division_from("Werriwa"@) == Some(Division::Werriwa));
            assert(plain_token("Werriwa"@));
        },
        Division::Whitlam => {
            assert(division_name(x) == "Whitlam"@);
            assert(division_from("Whitlam"@) == Some(Division::Whitlam));
            assert(plain_token("Whitlam"@));
        },
        Division::Lingiari => {
            assert(division_name(x) == "Lingiari"@);
            assert(division_from("Lingiari"@) == Some(Division::Lingiari));
            assert(plain_token("Lingiari"@));
        },
        Division::Solomon => {
            assert(division_name(x) == "Solomon"@);
            assert(division_from("Solomon"@) == Some(Division::Solomon));
            assert(plain_token("Solomon"@));
        },
        Division::Blair => {
            assert(division_name(x) == "Blair"@);
            assert(division_from("Blair"@) == Some(Division::Blair));
            assert(plain_token("Blair"@));
        },
        Division::Bonner => {
            assert(division_name(x) == "Bonner"@);
            assert(division_from("Bonner"@) == Some(Division::Bonner));
            assert(plain_token("Bonner"@));
        },
        Division::Bowman => {
            assert(division_name(x) == "Bowman"@);
            assert(division_from("Bowman"@) == Some(Division::Bowman));
            assert(plain_token("Bowman"@));
        },
        Division::Brisbane => {
            assert(division_name(x) == "Brisbane"@);
            assert(division_from("Brisbane"@) == Some(Division::Brisbane));
            assert(plain_token("Brisbane"@));
        },
        Division::Capricornia => {
            assert(division_name(x) == "Capricornia"@);
            assert(division_from("Capricornia"@) == Some(Division::Capricornia));
            assert(plain_token("Capricornia"@));
        },
        Division::Dawson => {
            assert(division_name(x) == "Dawson"@);
            assert(division_from("Dawson"@) == Some(Division::Dawson));
            assert(plain_token("Dawson"@));
        },
        Division::Dickson => {
            assert(division_name(x) == "Dickson"@);
            assert(division_from("Dickson"@) == Some(Division::Dickson));
            assert(plain_token("Dickson"@));
        },
        Division::Fadden => {
            assert(division_name(x) == "Fadden"@);
            assert(division_from("Fadden"@) == Some(Division::Fadden));
            assert(plain_token("Fadden"@));
        },
        _ => { },
    }
}

#[verifier::spinoff_prover]
#[verifier::rlimit(100)]
proof fn lemma_division_round_trip_f(x: Division)
    requires
        x is Fairfax || x is Fisher || x is Flynn || x is Forde || x is Griffith || x is Groom || x is Herbert || x is Hinkler || x is Kennedy || x is Leichhardt || x is Lilley || x is Longman,
    ensures
        division_from(division_name(x)) == Some(x),
        plain_token(division_name(x)),
{
    division_name_facts_a();
    division_name_facts_b();
    division_name_facts_c();
    division_name_facts_d();
    division_name_facts_e();
    division_name_facts_f();
    division_name_facts_g();
    division_name_facts_h();
    division_name_facts_i();
    division_name_facts_j();
    division_name_facts_k();
    division_name_facts_l();
    division_name_facts_m();
    match x {
        Division::Fairfax => {
            assert(division_name(x) == "Fairfax"@);
            assert(division_from("Fairfax"@) == Some(Division::Fairfax));
            assert(plain_token("Fairfax"@));
        },
        Division::Fisher => {
            assert(division_name(x) == "Fisher"@);
            assert(division_from("Fisher"@) == Some(Division::Fisher));
            assert(plain_token("Fisher"@));
        },
        Division::Flynn => {
            assert(division_name(x) == "Flynn"@);
            assert(division_from("Flynn"@) == Some(Division::Flynn));
            assert(plain_token("Flynn"@));
        },
        Division::Forde => {
            assert(division_name(x) == "Forde"@);
            assert(division_from("Forde"@) == Some(Division::Forde));
            assert(plain_token("Forde"@));
        },
        Division::Griffith => {
            assert(division_name(x) == "Griffith"@);
            assert(division_from("Griffith"@) == Some(Division::Griffith));
            assert(plain_token("Griffith"@));
        },
        Division::Groom => {
            assert(division_name(x) == "Groom"@);
            assert(division_from("Groom"@) == Some(Division::Groom));
            assert(plain_token("Groom"@));
        },
        Division::Herbert => {
            assert(division_name(x) == "Herbert"@);
            assert(division_from("Herbert"@) == Some(Division::Herbert));
            assert(plain_token("Herbert"@));
        },
        Division::Hinkler => {
            assert(division_name(x) == "Hinkler"@);
            assert(division_from("Hinkler"@) == Some(Division::Hinkler));
            assert(plain_token("Hinkler"@));
        },
        Division::Kennedy => {
            assert(division_name(x) == "Kennedy"@);
            assert(division_from("Kennedy"@) == Some(Division::Kennedy));
            assert(plain_token("Kennedy"@));
        },
        Division::Leichhardt => {
            assert(division_name(x) == "Leichhardt"@);
            assert(division_from("Leichhardt"@) == Some(Division::Leichhardt));
            assert(plain_token("Leichhardt"@));
        },
        Division::Lilley => {
            assert(division_name(x) == "Lilley"@);
            assert(division_from("Lilley"@) == Some(Division::Lilley));
            assert(plain_token("Lilley"@));
        },
        Division::Longman => {
            assert(division_name(x) == "Longman"@);
            assert(division_from("Longman"@) == Some(Division::Longman));
            assert(plain_token("Longman"@));
        },
        _ => { },
    }
}

#[verifier::spinoff_prover]
#[verifier::rlimit(100)]
proof fn lemma_division_round_trip_g(x: Division)
    requires
        x is Maranoa || x is McPherson || x is Moncrieff || x is Moreton || x is Oxley || x is Petrie || x is Rankin || x is Ryan || x is WideBay || x is Wright || x is Adelaide || x is Barker,
    ensures
        division_from(division_name(x)) == Some(x),
        plain_token(division_name(x)),
{
    division_name_facts_a();
    division_name_facts_b();
    division_name_facts_c();
    division_name_facts_d();
    division_name_facts_e();
    division_name_facts_f();
    division_name_facts_g();
    division_name_facts_h();
    division_name_facts_i();
    division_name_facts_j();
    division_name_facts_k();
    division_name_facts_l();
    division_name_facts_m();
    match x {
        Division::Maranoa => {
            assert(division_name(x) == "Maranoa"@);
            assert(division_from("Maranoa"@) == Some(Division::Maranoa));
            assert(plain_token("Maranoa"@));
        },
        Division::McPherson => {
            assert(division_name(x) == "McPherson"@);
            assert(division_from("McPherson"@) == Some(Division::McPherson));
            assert(plain_token("McPherson"@));
        },
        Division::Moncrieff => {
            assert(division_name(x) == "Moncrieff"@);
            assert(division_from("Moncrieff"@) == Some(Division::Moncrieff));
            assert(plain_token("Moncrieff"@));
        },
        Division::Moreton => {
            assert(division_name(x) == "Moreton"@);
            assert(division_from("Moreton"@) == Some(Division::Moreton));
            assert(plain_token("Moreton"@));
        },
        Division::Oxley => {
            assert(division_name(x) == "Oxley"@);
            assert(division_from("Oxley"@) == Some(Division::Oxley));
            assert(plain_token("Oxley"@));
        },
        Division::Petrie => {
            assert(division_name(x) == "Petrie"@);
            assert(division_from("Petrie"@) == Some(Division::Petrie));
            assert(plain_token("Petrie"@));
        },
        Division::Rankin => {
            assert(division_name(x) == "Rankin"@);
            assert(division_from("Rankin"@) == Some(Division::Rankin));
            assert(plain_token("Rankin"@));
        },
        Division::Ryan => {
            assert(division_name(x) == "Ryan"@);
            assert(division_from("Ryan"@) == Some(Division::Ryan));
            assert(plain_token("Ryan"@));
        },
        Division::WideBay => {
            assert(division_name(x) == "WideBay"@);
            assert(division_from("WideBay"@) == Some(Division::WideBay));
            assert(plain_token("WideBay"@));
        },
        Division::Wright => {
            assert(division_name(x) == "Wright"@);
            assert(division_from("Wright"@) == Some(Division::Wright));
            assert(plain_token("Wright"@));
        },
        Division::Adelaide => {
            assert(division_name(x) == "Adelaide"@);
            assert(division_from("Adelaide"@) == Some(Division::Adelaide));
            assert(plain_token("Adelaide"@));
        },
        Division::Barker => {
            assert(division_name(x) == "Barker"@);
            assert(division_from("Barker"@) == Some(Division::Barker));
            assert(plain_token("Barker"@));
        },
        _ => { },
    }
}

#[verifier::spinoff_prover]
#[verifier::rlimit(100)]
proof fn lemma_division_round_trip_h(x: Division)
    requires
        x is Boothby || x is Grey || x is Hindmarsh || x is Kingston || x is Makin || x is Mayo || x is Spence || x is Sturt || x is Bass || x is Braddon || x is Clark || x is Franklin,
    ensures
        division_from(division_name(x)) == Some(x),
        plain_token(division_name(x)),
{
    division_name_facts_a();
    division_name_facts_b();
    division_name_facts_c();
    division_name_facts_d();
    division_name_facts_e();
    division_name_facts_f();
    division_name_facts_g();
    division_name_facts_h();
    division_name_facts_i();
    division_name_facts_j();
    division_name_facts_k();
    division_name_facts_l();
    division_name_facts_m();
    match x {
        Division::Boothby => {
            assert(division_name(x) == "Boothby"@);
            assert(division_from("Boothby"@) == Some(Division::Boothby));
            assert(plain_token("Boothby"@));
        },
        Division::Grey => {
            assert(division_name(x) == "Grey"@);
            assert(division_from("Grey"@) == Some(Division::Grey));
            assert(plain_token("Grey"@));
        },
        Division::Hindmarsh => {
            assert(division_name(x) == "Hindmarsh"@);
            assert(division_from("Hindmarsh"@) == Some(Division::Hindmarsh));
            assert(plain_token("Hindmarsh"@));
        },
        Division::Kingston => {
            assert(division_name(x) == "Kingston"@);
            assert(division_from("Kingston"@) == Some(Division::Kingston));
            assert(plain_token("Kingston"@));
        },
        Division::Makin => {
            assert(division_name(x) == "Makin"@);
            assert(division_from("Makin"@) == Some(Division::Makin));
            assert(plain_token("Makin"@));
        },
        Division::Mayo => {
            assert(division_name(x) == "Mayo"@);
            assert(division_from("Mayo"@) == Some(Division::Mayo));
            assert(plain_token("Mayo"@));
        },
        Division::Spence => {
            assert(division_name(x) == "Spence"@);
            assert(division_from("Spence"@) == Some(Division::Spence));
            assert(plain_token("Spence"@));
        },
        Division::Sturt => {
            assert(division_name(x) == "Sturt"@);
            assert(division_from("Sturt"@) == Some(Division::Sturt));
            assert(plain_token("Sturt"@));
        },
        Division::Bass => {
            assert(division_name(x) == "Bass"@);
            assert(division_from("Bass"@) == Some(Division::Bass));
            assert(plain_token("Bass"@));
        },
        Division::Braddon => {
            assert(division_name(x) == "Braddon"@);
            assert(division_from("Braddon"@) == Some(Division::Braddon));
            assert(plain_token("Braddon"@));
        },
        Division::Clark => {
            assert(division_name(x) == "Clark"@);
            assert(division_from("Clark"@) == Some(Division::Clark));
            assert(plain_token("Clark"@));
        },
        Division::Franklin => {
            assert(division_name(x) == "Franklin"@);
            assert(division_from("Franklin"@) == Some(Division::Franklin));
            assert(plain_token("Franklin"@));
        },
        _ => { },
    }
}

#[verifier::spinoff_prover]
#[verifier::rlimit(100)]
proof fn lemma_division_round_trip_i(x: Division)
    requires
        x is Lyons || x is Aston || x is Ballarat || x is Bendigo || x is Bruce || x is Calwell || x is Casey || x is Chisholm || x is Cooper || x is Corangamite || x is Corio || x is Deakin,
    ensures
        division_from(division_name(x)) == Some(x),
        plain_token(division_name(x)),
{
    division_name_facts_a();
    division_name_facts_b();
    division_name_facts_c();
    division_name_facts_d();
    division_name_facts_e();
    division_name_facts_f();
    division_name_facts_g();
    division_name_facts_h();
    division_name_facts_i();
    division_name_facts_j();
    division_name_facts_k();
    division_name_facts_l();
    division_name_facts_m();
    match x {
        Division::Lyons => {
            assert(division_name(x) == "Lyons"@);
            assert(division_from("Lyons"@) == Some(Division::Lyons));
            assert(plain_token("Lyons"@));
        },
        Division::Aston => {
            assert(division_name(x) == "Aston"@);
            assert(division_from("Aston"@) == Some(Division::Aston));
            assert(plain_token("Aston"@));
        },
        Division::Ballarat => {
            assert(division_name(x) == "Ballarat"@);
            assert(division_from("Ballarat"@) == Some(Division::Ballarat));
            assert(plain_token("Ballarat"@));
        },
        Division::Bendigo => {
            assert(division_name(x) == "Bendigo"@);
            assert(division_from("Bendigo"@) == Some(Division::Bendigo));
            assert(plain_token("Bendigo"@));
        },
        Division::Bruce => {
            assert(division_name(x) == "Bruce"@);
            assert(division_from("Bruce"@) == Some(Division::Bruce));
            assert(plain_token("Bruce"@));
        },
        Division::Calwell => {
            assert(division_name(x) == "Calwell"@);
            assert(division_from("Calwell"@) == Some(Division::Calwell));
            assert(plain_token("Calwell"@));
        },
        Division::Casey => {
            assert(division_name(x) == "Casey"@);
            assert(division_from("Casey"@) == Some(Division::Casey));
            assert(plain_token("Casey"@));
        },
        Division::Chisholm => {
            assert(division_name(x) == "Chisholm"@);
            assert(division_from("Chisholm"@) == Some(Division::Chisholm));
            assert(plain_token("Chisholm"@));
        },
        Division::Cooper => {
            assert(division_name(x) == "Cooper"@);
            assert(division_from("Cooper"@) == Some(Division::Cooper));
            assert(plain_token("Cooper"@));
        },
        Division::Corangamite => {
            assert(division_name(x) == "Corangamite"@);
            assert(division_from("Corangamite"@) == Some(Division::Corangamite));
            assert(plain_token("Corangamite"@));
        },
        Division::Corio => {
            assert(division_name(x) == "Corio"@);
            assert(division_from("Corio"@) == Some(Division::Corio));
            assert(plain_token("Corio"@));
        },
        Division::Deakin => {
            assert(division_name(x) == "Deakin"@);
            assert(division_from("Deakin"@) == Some(Division::Deakin));
            assert(plain_token("Deakin"@));
        },
        _ => { },
    }
}

#[verifier::spinoff_prover]
#[verifier::rlimit(100)]
proof fn lemma_division_round_trip_j(x: Division)
    requires
        x is Dunkley || x is Flinders || x is Fraser || x is Gellibrand || x is Gippsland || x is Goldstein || x is Gorton || x is Hawke || x is Higgins || x is Holt || x is Hotham || x is Indi,
    ensures
        division_from(division_name(x)) == Some(x),
        plain_token(division_name(x)),
{
    division_name_facts_a();
    division_name_facts_b();
    division_name_facts_c();
    division_name_facts_d();
    division_name_facts_e();
    division_name_facts_f();
    division_name_facts_g();
    division_name_facts_h();
    division_name_facts_i();
    division_name_facts_j();
    division_name_facts_k();
    division_name_facts_l();
    division_name_facts_m();
    match x {
        Division::Dunkley => {
            assert(division_name(x) == "Dunkley"@);
            assert(division_from("Dunkley"@) == Some(Division::Dunkley));
            assert(plain_token("Dunkley"@));
        },
        Division::Flinders => {
            assert(division_name(x) == "Flinders"@);
            assert(division_from("Flinders"@) == Some(Division::Flinders));
            assert(plain_token("Flinders"@));
        },
        Division::Fraser => {
            assert(division_name(x) == "Fraser"@);
            assert(division_from("Fraser"@) == Some(Division::Fraser));
            assert(plain_token("Fraser"@));
        },
        Division::Gellibrand => {
            assert(division_name(x) == "Gellibrand"@);
            assert(division_from("Gellibrand"@) == Some(Division::Gellibrand));
            assert(plain_token("Gellibrand"@));
        },
        Division::Gippsland => {
            assert(division_name(x) == "Gippsland"@);
            assert(division_from("Gippsland"@) == Some(Division::Gippsland));
            assert(plain_token("Gippsland"@));
        },
        Division::Goldstein => {
            assert(division_name(x) == "Goldstein"@);
            assert(division_from("Goldstein"@) == Some(Division::Goldstein));
            assert(plain_token("Goldstein"@));
        },
        Division::Gorton => {
            assert(division_name(x) == "Gorton"@);
            assert(division_from("Gorton"@) == Some(Division::Gorton));
            assert(plain_token("Gorton"@));
        },
        Division::Hawke => {
            assert(division_name(x) == "Hawke"@);
            assert(division_from("Hawke"@) == Some(Division::Hawke));
            assert(plain_token("Hawke"@));
        },
        Division::Higgins => {
            assert(division_name(x) == "Higgins"@);
            assert(division_from("Higgins"@) == Some(Division::Higgins));
            assert(plain_token("Higgins"@));
        },
        Division::Holt => {
            assert(division_name(x) == "Holt"@);
            assert(division_from("Holt"@) == Some(Division::Holt));
            assert(plain_token("Holt"@));
        },
        Division::Hotham => {
            assert(division_name(x) == "Hotham"@);
            assert(division_from("Hotham"@) == Some(Division::Hotham));
            assert(plain_token("Hotham"@));
        },
        Division::Indi => {
            assert(division_name(x) == "Indi"@);
            assert(division_from("Indi"@) == Some(Division::Indi));
            assert(plain_token("Indi"@));
        },
        _ => { },
    }
}

#[verifier::spinoff_prover]
#[verifier::rlimit(100)]
proof fn lemma_division_round_trip_k(x: Division)
    requires
        x is Isaacs || x is Jagajaga || x is Kooyong || x is LaTrobe || x is Lalor || x is Macnamara || x is Mallee || x is Maribyrnong || x is McEwen || x is Melbourne || x is Menzies || x is Monash,
    ensures
        division_from(division_name(x)) == Some(x),
        plain_token(division_name(x)),
{
    division_name_facts_a();
    division_name_facts_b();
    division_name_facts_c();
    division_name_facts_d();
    division_name_facts_e();
    division_name_facts_f();
    division_name_facts_g();
    division_name_facts_h();
    division_name_facts_i();
    division_name_facts_j();
    division_name_facts_k();
    division_name_facts_l();
    division_name_facts_m();
    match x {
        Division::Isaacs => {
            assert(division_name(x) == "Isaacs"@);
            assert(division_from("Isaacs"@) == Some(Division::Isaacs));
            assert(plain_token("Isaacs"@));
        },
        Division::Jagajaga => {
            assert(division_name(x) == "Jagajaga"@);
            assert(division_from("Jagajaga"@) == Some(Division::Jagajaga));
            assert(plain_token("Jagajaga"@));
        },
        Division::Kooyong => {
            assert(division_name(x) == "Kooyong"@);
            assert(division_from("Kooyong"@) == Some(Division::Kooyong));
            assert(plain_token("Kooyong"@));
        },
        Division::LaTrobe => {
            assert(division_name(x) == "LaTrobe"@);
            assert(division_from("LaTrobe"@) == Some(Division::LaTrobe));
            assert(plain_token("LaTrobe"@));
        },
        Division::Lalor => {
            assert(division_name(x) == "Lalor"@);
            assert(division_from("Lalor"@) == Some(Division::Lalor));
            assert(plain_token("Lalor"@));
        },
        Division::Macnamara => {
            assert(division_name(x) == "Macnamara"@);
            assert(division_from("Macnamara"@) == Some(Division::Macnamara));
            assert(plain_token("Macnamara"@));
        },
        Division::Mallee => {
            assert(division_name(x) == "Mallee"@);
            assert(division_from("Mallee"@) == Some(Division::Mallee));
            assert(plain_token("Mallee"@));
        },
        Division::Maribyrnong => {
            assert(division_name(x) == "Maribyrnong"@);
            assert(division_from("Maribyrnong"@) == Some(Division::Maribyrnong));
            assert(plain_token("Maribyrnong"@));
        },
        Division::McEwen => {
            assert(division_name(x) == "McEwen"@);
            assert(division_from("McEwen"@) == Some(Division::McEwen));
            assert(plain_token("McEwen"@));
        },
        Division::Melbourne => {
            assert(division_name(x) == "Melbourne"@);
            assert(division_from("Melbourne"@) == Some(Division::Melbourne));
            assert(plain_token("Melbourne"@));
        },
        Division::Menzies => {
            assert(division_name(x) == "Menzies"@);
            assert(division_from("Menzies"@) == Some(Division::Menzies));
            assert(plain_token("Menzies"@));
        },
        Division::Monash => {
            assert(division_name(x) == "Monash"@);
            assert(division_from("Monash"@) == Some(Division::Monash));
            assert(plain_token("Monash"@));
        },
        _ => { },
    }
}

#[verifier::spinoff_prover]
#[verifier::rlimit(100)]
proof fn lemma_division_round_trip_l(x: Division)
    requires
        x is Nicholls || x is Scullin || x is Wannon || x is Wills || x is Brand || x is Burt || x is Canning || x is Cowan || x is Curtin || x is Durack || x is Forrest || x is Fremantle,
    ensures
        division_from(division_name(x)) == Some(x),
        plain_token(division_name(x)),
{
    division_name_facts_a();
    division_name_facts_b();
    division_name_facts_c();
    division_name_facts_d();
    division_name_facts_e();
    division_name_facts_f();
    division_name_facts_g();
    division_name_facts_h();
    division_name_facts_i();
    division_name_facts_j();
    division_name_facts_k();
    division_name_facts_l();
    division_name_facts_m();
    match x {
        Division::Nicholls => {
            assert(division_name(x) == "Nicholls"@);
            assert(division_from("Nicholls"@) == Some(Division::Nicholls));
            assert(plain_token("Nicholls"@));
        },
        Division::Scullin => {
            assert(division_name(x) == "Scullin"@);
            assert(division_from("Scullin"@) == Some(Division::Scullin));
            assert(plain_token("Scullin"@));
        },
        Division::Wannon => {
            assert(division_name(x) == "Wannon"@);
            assert(division_from("Wannon"@) == Some(Division::Wannon));
            assert(plain_token("Wannon"@));
        },
        Division::Wills => {
            assert(division_name(x) == "Wills"@);
            assert(division_from("Wills"@) == Some(Division::Wills));
            assert(plain_token("Wills"@));
        },
        Division::Brand => {
            assert(division_name(x) == "Brand"@);
            assert(division_from("Brand"@) == Some(Division::Brand));
            assert(plain_token("Brand"@));
        },
        Division::Burt => {
            assert(division_name(x) == "Burt"@);
            assert(division_from("Burt"@) == Some(Division::Burt));
            assert(plain_token("Burt"@));
        },
        Division::Canning => {
            assert(division_name(x) == "Canning"@);
            assert(division_from("Canning"@) == Some(Division::Canning));
            assert(plain_token("Canning"@));
        },
        Division::Cowan => {
            assert(division_name(x) == "Cowan"@);
            assert(division_from("Cowan"@) == Some(Division::Cowan));
            assert(plain_token("Cowan"@));
        },
        Division::Curtin => {
            assert(division_name(x) == "Curtin"@);
            assert(division_from("Curtin"@) == Some(Division::Curtin));
            assert(plain_token("Curtin"@));
        },
        Division::Durack => {
            assert(division_name(x) == "Durack"@);
            assert(division_from("Durack"@) == Some(Division::Durack));
            assert(plain_token("Durack"@));
        },
        Division::Forrest => {
            assert(division_name(x) == "Forrest"@);
            assert(division_from("Forrest"@) == Some(Division::Forrest));
            assert(plain_token("Forrest"@));
        },
        Division::Fremantle => {
            assert(division_name(x) == "Fremantle"@);
            assert(division_from("Fremantle"@) == Some(Division::Fremantle));
            assert(plain_token("Fremantle"@));
        },
        _ => { },
    }
}

#[verifier::spinoff_prover]
#[verifier::rlimit(100)]
proof fn lemma_division_round_trip_m(x: Division)
    requires
        x is Hasluck || x is Moore || x is OConnor || x is Pearce || x is Perth || x is Swan || x is Tangney,
    ensures
        division_from(division_name(x)) == Some(x),
        plain_token(division_name(x)),
{
    division_name_facts_a();
    division_name_facts_b();
    division_name_facts_c();
    division_name_facts_d();
    division_name_facts_e();
    division_name_facts_f();
    division_name_facts_g();
    division_name_facts_h();
    division_name_facts_i();
    division_name_facts_j();
    division_name_facts_k();
    division_name_facts_l();
    division_name_facts_m();
    match x {
        Division::Hasluck => {
            assert(division_name(x) == "Hasluck"@);
            assert(division_from("Hasluck"@) == Some(Division::Hasluck));
            assert(plain_token("Hasluck"@));
        },
        Division::Moore => {
            assert(division_name(x) == "Moore"@);
            assert(division_from("Moore"@) == Some(Division::Moore));
            assert(plain_token("Moore"@));
        },
        Division::OConnor => {
            assert(division_name(x) == "OConnor"@);
            assert(division_from("OConnor"@) == Some(Division::OConnor));
            assert(plain_token("OConnor"@));
        },
        Division::Pearce => {
            assert(division_name(x) == "Pearce"@);
            assert(division_from("Pearce"@) == Some(Division::Pearce));
            assert(plain_token("Pearce"@));
        },
        Division::Perth => {
            assert(division_name(x) == "Perth"@);
            assert(division_from("Perth"@) == Some(Division::Perth));
            assert(plain_token("Perth"@));
        },
        Division::Swan => {
            assert(division_name(x) == "Swan"@);
            assert(division_from("Swan"@) == Some(Division::Swan));
            assert(plain_token("Swan"@));
        },
        Division::Tangney => {
            assert(division_name(x) == "Tangney"@);
            assert(division_from("Tangney"@) == Some(Division::Tangney));
            assert(plain_token("Tangney"@));
        },
        _ => { },
    }
}

/// Decoding the name of a division yields the division back, and
/// the name is a plain token.
pub proof fn lemma_division_round_trip(x: Division)
    ensures
        division_from(division_name(x)) == Some(x),
        plain_token(division_name(x)),
{
    match x {
        Division::Bean | Division::Canberra | Division::Fenner | Division::Banks | Division::Barton | Division::Bennelong | Division::Berowra | Division::Blaxland | Division::Bradfield | Division::Calare | Division::Chifley | Division::Cook => lemma_division_round_trip_a(x),
        Division::Cowper | Division::Cunningham | Division::Dobell | Division::EdenMonaro | Division::Farrer | Division::Fowler | Division::Gilmore | Division::Grayndler | Division::Greenway | Division::Hughes | Division::Hume | Division::Hunter => lemma_division_round_trip_b(x),
        Division::KingsfordSmith | Division::Lindsay | Division::Lyne | Division::Macarthur | Division::Mackellar | Division::Macquarie | Division::McMahon | Division::Mitchell | Division::NewEngland | Division::Newcastle | Division::NorthSydney | Division::Page => lemma_division_round_trip_c(x),
        Division::Parkes | Division::Parramatta | Division::Paterson | Division::Reid | Division::Richmond | Division::Riverina | Division::Robertson | Division::Shortland | Division::Sydney | Division::Warringah | Division::Watson | Division::Wentworth => lemma_division_round_trip_d(x),
        Division::Werriwa | Division::Whitlam | Division::Lingiari | Division::Solomon | Division::Blair | Division::Bonner | Division::Bowman | Division::Brisbane | Division::Capricornia | Division::Dawson | Division::Dickson | Division::Fadden => lemma_division_round_trip_e(x),
        Division::Fairfax | Division::Fisher | Division::Flynn | Division::Forde | Division::Griffith | Division::Groom | Division::Herbert | Division::Hinkler | Division::Kennedy | Division::Leichhardt | Division::Lilley | Division::Longman => lemma_division_round_trip_f(x),
        Division::Maranoa | Division::McPherson | Division::Moncrieff | Division::Moreton | Division::Oxley | Division::Petrie | Division::Rankin | Division::Ryan | Division::WideBay | Division::Wright | Division::Adelaide | Division::Barker => lemma_division_round_trip_g(x),
        Division::Boothby | Division::Grey | Division::Hindmarsh | Division::Kingston | Division::Makin | Division::Mayo | Division::Spence | Division::Sturt | Division::Bass | Division::Braddon | Division::Clark | Division::Franklin => lemma_division_round_trip_h(x),
        Division::Lyons | Division::Aston | Division::Ballarat | Division::Bendigo | Division::Bruce | Division::Calwell | Division::Casey | Division::Chisholm | Division::Cooper | Division::Corangamite | Division::Corio | Division::Deakin => lemma_division_round_trip_i(x),
        Division::Dunkley | Division::Flinders | Division::Fraser | Division::Gellibrand | Division::Gippsland | Division::Goldstein | Division::Gorton | Division::Hawke | Division::Higgins | Division::Holt | Division::Hotham | Division::Indi => lemma_division_round_trip_j(x),
        Division::Isaacs | Division::Jagajaga | Division::Kooyong | Division::LaTrobe | Division::Lalor | Division::Macnamara | Division::Mallee | Division::Maribyrnong | Division::McEwen | Division::Melbourne | Division::Menzies | Division::Monash => lemma_division_round_trip_k(x),
        Division::Nicholls | Division::Scullin | Division::Wannon | Division::Wills | Division::Brand | Division::Burt | Division::Canning | Division::Cowan | Division::Curtin | Division::Durack | Division::Forrest | Division::Fremantle => lemma_division_round_trip_l(x),
        Division::Hasluck | Division::Moore | Division::OConnor | Division::Pearce | Division::Perth | Division::Swan | Division::Tangney => lemma_division_round_trip_m(x),
    }
}

} // verus!
