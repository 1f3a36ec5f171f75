//! The decoding pipeline: one file's bytes become typed records. The
//! text is split into lines, a header line is resolved, every data
//! line is tokenized and indexed by column name, rows are grouped by
//! the record kind's group size, and each group decodes independently;
//! a failed group is dropped without failing the file.

use vstd::prelude::*;
use vstd::slice::slice_to_vec;
use vstd::utf8::{valid_utf8, decode_utf8, encode_utf8};
use crate::chars::{str_chars, str_eq, chars_to_string, utf8_to_string};
use crate::division::{Division, division_from, strip_alpha, decode_division};
use crate::lines::{spec_lines, split_lines};
use crate::num::{Decimal, parse_u64_spec, parse_u16_spec, parse_usize_spec, parse_decimal_spec,
    parse_u64, parse_u16, parse_usize, parse_decimal, tail_chars};
use crate::party::{PartyAffilliation, party_from, decode_party};
use crate::tokenize::{tokenize, tokenize_line};
use crate::ty::{FirstPreferences, TcpPP, TwoCandidatePreferred, PrefDistribution};

verus! {

/// A whole-file failure: the file's bytes are not valid text.
#[derive(Clone, Copy, Debug, PartialEq, Eq, Structural)]
pub enum FileError {
    InvalidEncoding,
}

/// Why one group failed to decode.
#[derive(Clone, Copy, Debug, PartialEq, Eq, Structural)]
pub enum ErrKind {
    /// A required column name is absent from the header index.
    MissingField,
    /// A cell's text is not a numeral of the expected type.
    NumericConversion,
    /// A division string matches no known division.
    DivisionUnrecognized,
    /// A trailing group has fewer rows than the kind requires.
    GroupShape,
}

/// A group decode failure: its kind, and the column name or value
/// involved, for reporting.
#[derive(Clone, Debug, PartialEq, Eq)]
pub struct DecodeError {
    pub kind: ErrKind,
    pub detail: String,
}

/// One tokenized data row, indexed by column name: the cells in
/// column order, each paired with its column's name.
#[derive(Clone, Debug, PartialEq, Eq)]
pub struct Row {
    pub cells: Vec<(String, String)>,
}

impl View for Row {
    type V = Seq<(Seq<char>, Seq<char>)>;

    open spec fn view(&self) -> Seq<(Seq<char>, Seq<char>)> {
        Seq::new(self.cells@.len(), |i: int| (self.cells@[i].0@, self.cells@[i].1@))
    }
}

impl DeepView for Row {
    type V = Seq<(Seq<char>, Seq<char>)>;

    open spec fn deep_view(&self) -> Seq<(Seq<char>, Seq<char>)> {
        self.view()
    }
}

/// The cell of the named column: the value paired with the last
/// occurrence of the name, as a repeated column name shadows the
/// earlier ones.
pub open spec fn lookup(row: Seq<(Seq<char>, Seq<char>)>, name: Seq<char>) -> Option<Seq<char>>
    decreases row.len(),
{
    if row.len() == 0 {
        None
    } else if row.last().0 == name {
        Some(row.last().1)
    } else {
        lookup(row.drop_last(), name)
    }
}

impl Row {
    /// Looks a cell up by column name.
    pub fn get(&self, name: &str) -> (r: Option<&String>)
        ensures
            r is Some <==> lookup(self@, name@) is Some,
            r matches Some(s) ==> lookup(self@, name@) == Some(s@),
    {
        let n = self.cells.len();
        let mut i: usize = n;
        proof {
            assert(self@.subrange(0, n as int) =~= self@);
        }
        while i > 0
            invariant
                i <= n,
                n == self.cells@.len(),
                lookup(self@, name@) == lookup(self@.subrange(0, i as int), name@),
            decreases i,
        {
            proof {
                assert(self@.subrange(0, i as int).last() == self@[i - 1]);
                assert(self@.subrange(0, i as int).drop_last() =~= self@.subrange(0, i - 1));
                assert(self@[i - 1].0 == self.cells@[i - 1].0@);
            }
            if str_eq(self.cells[i - 1].0.as_str(), name) {
                return Some(&self.cells[i - 1].1);
            }
            i = i - 1;
        }
        proof {
            assert(self@.subrange(0, 0) =~= Seq::<(Seq<char>, Seq<char>)>::empty());
        }
        None
    }
}

/// The length in bytes of a line's text, as the machine holds it.
pub open spec fn byte_len(s: Seq<char>) -> int {
    (encode_utf8(s).len() as usize) as int
}

/// The line at an index, or the empty line past the end.
pub open spec fn line_at(lines: Seq<Seq<char>>, i: int) -> Seq<char> {
    if 0 <= i < lines.len() {
        lines[i]
    } else {
        Seq::empty()
    }
}

/// The resolved header line. A first line without a comma is a title
/// and is skipped; of the header candidate and the line after it, the
/// one with more bytes is the header.
pub open spec fn header_line(lines: Seq<Seq<char>>) -> Seq<char> {
    if line_at(lines, 0).contains(',') {
        if byte_len(line_at(lines, 1)) > byte_len(line_at(lines, 0)) {
            line_at(lines, 1)
        } else {
            line_at(lines, 0)
        }
    } else {
        if byte_len(line_at(lines, 2)) > byte_len(line_at(lines, 1)) {
            line_at(lines, 2)
        } else {
            line_at(lines, 1)
        }
    }
}

/// Where the data rows start: after the two lines read while
/// resolving the header, or after three when a title line was
/// skipped.
pub open spec fn data_start(lines: Seq<Seq<char>>) -> int {
    if line_at(lines, 0).contains(',') {
        2
    } else {
        3
    }
}

/// The ordered column names of the resolved header.
pub open spec fn header_cols(lines: Seq<Seq<char>>) -> Seq<Seq<char>> {
    tokenize(header_line(lines))
}

/// One data line's cells paired with the column names, truncated to
/// the shorter of the two.
pub open spec fn zip_row(cols: Seq<Seq<char>>, vals: Seq<Seq<char>>) -> Seq<
    (Seq<char>, Seq<char>),
> {
    let m = if cols.len() <= vals.len() {
        cols.len()
    } else {
        vals.len()
    };
    Seq::new(m, |i: int| (cols[i], vals[i]))
}

/// The whole table of one file's text: every data line tokenized and
/// indexed against the resolved header.
pub open spec fn spec_table(text: Seq<char>) -> Seq<Seq<(Seq<char>, Seq<char>)>> {
    let lines = spec_lines(text);
    let ds = data_start(lines);
    if lines.len() < ds {
        Seq::empty()
    } else {
        lines.subrange(ds, lines.len() as int).map_values(
            |l: Seq<char>| zip_row(header_cols(lines), tokenize(l)),
        )
    }
}

/// Whether a character vector contains a character.
fn contains_char(v: &Vec<char>, c: char) -> (r: bool)
    ensures
        r == v@.contains(c),
{
    let n = v.len();
    let mut i: usize = 0;
    while i < n
        invariant
            i <= n,
            n == v@.len(),
            forall|j: int| 0 <= j < i ==> v@[j] != c,
        decreases n - i,
    {
        if v[i] == c {
            proof {
                assert(v@[i as int] == c);
            }
            return true;
        }
        i = i + 1;
    }
    false
}

/// The line at an index, copied, or an empty line past the end.
fn copy_line_at(lines: &Vec<Vec<char>>, i: usize) -> (r: Vec<char>)
    ensures
        r@ == line_at(lines.deep_view(), i as int),
{
    if i < lines.len() {
        proof {
            assert(lines.deep_view()[i as int] == lines@[i as int]@);
        }
        let r = tail_chars(&lines[i], 0);
        proof {
            assert(r@ =~= lines@[i as int]@);
        }
        r
    } else {
        let r: Vec<char> = Vec::new();
        proof {
            assert(r@ =~= Seq::<char>::empty());
        }
        r
    }
}

/// Tokenizes one file's bytes into its table of rows: text decode,
/// line split, header resolution, and per-line tokenization. Fails
/// exactly when the bytes are not valid text.
pub fn csv(data: &[u8]) -> (r: Result<Vec<Row>, FileError>)
    ensures
        r is Ok <==> valid_utf8(data@),
        r matches Ok(rows) ==> rows.deep_view() == spec_table(decode_utf8(data@)),
{
    let ghost tv0 = decode_utf8(data@);
    let bytes = slice_to_vec(data);
    let text = match utf8_to_string(bytes) {
        Some(t) => t,
        None => {
            return Err(FileError::InvalidEncoding);
        },
    };
    let ghost tv = decode_utf8(data@);
    let chars = str_chars(text.as_str());
    let lines = split_lines(&chars);
    let ghost linesv = lines.deep_view();
    let line0 = copy_line_at(&lines, 0);
    let ghost l0 = line0@;
    let has_title = !contains_char(&line0, ',');
    let ds: usize = if has_title {
        3
    } else {
        2
    };
    let cand_h = if has_title {
        copy_line_at(&lines, 1)
    } else {
        line0
    };
    let cand_s = if has_title {
        copy_line_at(&lines, 2)
    } else {
        copy_line_at(&lines, 1)
    };
    let ghost ch = cand_h@;
    let ghost cs = cand_s@;
    let hs = chars_to_string(&cand_h);
    let ss = chars_to_string(&cand_s);
    let hl = hs.as_str().len();
    let sl = ss.as_str().len();
    proof {
        assert(l0 == line_at(linesv, 0));
        assert(has_title == !line_at(linesv, 0).contains(','));
        assert(ch == (if has_title { line_at(linesv, 1) } else { line_at(linesv, 0) }));
        assert(cs == (if has_title { line_at(linesv, 2) } else { line_at(linesv, 1) }));
        assert(hl == byte_len(ch));
        assert(sl == byte_len(cs));
    }
    let header = if sl > hl {
        cand_s
    } else {
        cand_h
    };
    proof {
        assert(header@ == header_line(linesv));
        assert(ds == data_start(linesv));
    }
    let cols = tokenize_line(&header);
    let ghost colsv = header_cols(linesv);
    let mut rows: Vec<Row> = Vec::new();
    let n = lines.len();
    if n < ds {
        proof {
            assert(rows.deep_view() =~= spec_table(tv));
        }
        return Ok(rows);
    }
    let mut i: usize = ds;
    while i < n
        invariant
            ds <= i <= n,
            n == lines@.len(),
            linesv == lines.deep_view(),
            tv == decode_utf8(data@),
            linesv == spec_lines(tv),
            ds == data_start(linesv),
            cols.deep_view() == colsv,
            colsv == header_cols(linesv),
            rows@.len() == i - ds,
            forall|k: int| 0 <= k < rows@.len()
                ==> (#[trigger] rows@[k])@ == zip_row(colsv, tokenize(linesv[ds + k])),
        decreases n - i,
    {
        proof {
            assert(lines.deep_view()[i as int] == lines@[i as int]@);
        }
        let vals = tokenize_line(&lines[i]);
        let m = if cols.len() <= vals.len() {
            cols.len()
        } else {
            vals.len()
        };
        let mut cells: Vec<(String, String)> = Vec::new();
        let mut j: usize = 0;
        while j < m
            invariant
                j <= m,
                m <= cols@.len(),
                m <= vals@.len(),
                cells@.len() == j,
                forall|k: int| 0 <= k < j
                    ==> (#[trigger] cells@[k]).0@ == cols@[k]@ && cells@[k].1@ == vals@[k]@,
            decreases m - j,
        {
            cells.push((cols[j].clone(), vals[j].clone()));
            j = j + 1;
        }
        let row = Row { cells };
        proof {
            assert(row@ =~= zip_row(colsv, tokenize(linesv[i as int]))) by {
                assert(forall|k: int| 0 <= k < cols@.len()
                    ==> colsv[k] == #[trigger] cols@[k]@);
                assert(forall|k: int| 0 <= k < vals@.len()
                    ==> tokenize(linesv[i as int])[k] == #[trigger] vals@[k]@);
            }
        }
        let ghost old_len = rows@.len();
        let ghost old_rows = rows@;
        rows.push(row);
        proof {
            assert(rows@ == old_rows.push(row));
            assert(forall|k: int| 0 <= k < old_len ==> rows@[k] == old_rows[k]);
            assert(rows@[old_len as int] == row);
        }
        i = i + 1;
    }
    proof {
        assert(rows.deep_view() =~= spec_table(tv)) by {
            assert(spec_table(tv) == linesv.subrange(ds as int, linesv.len() as int).map_values(
                |l: Seq<char>| zip_row(header_cols(linesv), tokenize(l)),
            ));
            assert(forall|k: int| 0 <= k < rows@.len()
                ==> linesv.subrange(ds as int, linesv.len() as int)[k] == linesv[ds + k]);
            assert(forall|k: int| 0 <= k < rows@.len()
                ==> rows.deep_view()[k] == (#[trigger] rows@[k])@);
        }
    }
    Ok(rows)
}

/// The named cell read as an unsigned 64-bit numeral.
pub open spec fn field_u64(row: Seq<(Seq<char>, Seq<char>)>, name: Seq<char>) -> Result<
    u64,
    ErrKind,
> {
    match lookup(row, name) {
        Option::None => Result::Err(ErrKind::MissingField),
        Option::Some(s) => match parse_u64_spec(s) {
            Option::None => Result::Err(ErrKind::NumericConversion),
            Option::Some(v) => Result::Ok(v),
        },
    }
}

/// The named cell read as an unsigned 16-bit numeral.
pub open spec fn field_u16(row: Seq<(Seq<char>, Seq<char>)>, name: Seq<char>) -> Result<
    u16,
    ErrKind,
> {
    match lookup(row, name) {
        Option::None => Result::Err(ErrKind::MissingField),
        Option::Some(s) => match parse_u16_spec(s) {
            Option::None => Result::Err(ErrKind::NumericConversion),
            Option::Some(v) => Result::Ok(v),
        },
    }
}

/// The named cell read as a pointer-width unsigned numeral.
pub open spec fn field_usize(row: Seq<(Seq<char>, Seq<char>)>, name: Seq<char>) -> Result<
    usize,
    ErrKind,
> {
    match lookup(row, name) {
        Option::None => Result::Err(ErrKind::MissingField),
        Option::Some(s) => match parse_usize_spec(s) {
            Option::None => Result::Err(ErrKind::NumericConversion),
            Option::Some(v) => Result::Ok(v),
        },
    }
}

/// The named cell read as a signed decimal numeral.
pub open spec fn field_decimal(row: Seq<(Seq<char>, Seq<char>)>, name: Seq<char>) -> Result<
    Decimal,
    ErrKind,
> {
    match lookup(row, name) {
        Option::None => Result::Err(ErrKind::MissingField),
        Option::Some(s) => match parse_decimal_spec(s) {
            Option::None => Result::Err(ErrKind::NumericConversion),
            Option::Some(v) => Result::Ok(v),
        },
    }
}

/// The named cell read as a party code; an unmatched code yields the
/// sentinel, never a failure.
pub open spec fn field_party(row: Seq<(Seq<char>, Seq<char>)>, name: Seq<char>) -> Result<
    PartyAffilliation,
    ErrKind,
> {
    match lookup(row, name) {
        Option::None => Result::Err(ErrKind::MissingField),
        Option::Some(s) => Result::Ok(party_from(s)),
    }
}

/// The named cell read as a division name, stripped of non-alphabetic
/// characters; an unmatched name is a failure.
pub open spec fn field_division(row: Seq<(Seq<char>, Seq<char>)>, name: Seq<char>) -> Result<
    Division,
    ErrKind,
> {
    match lookup(row, name) {
        Option::None => Result::Err(ErrKind::MissingField),
        Option::Some(s) => match division_from(strip_alpha(s)) {
            Option::None => Result::Err(ErrKind::DivisionUnrecognized),
            Option::Some(d) => Result::Ok(d),
        },
    }
}

fn get_u64(row: &Row, name: &str) -> (r: Result<u64, DecodeError>)
    ensures
        field_u64(row@, name@) matches Ok(v) ==> r matches Ok(w) && w == v,
        field_u64(row@, name@) matches Err(k) ==> r matches Err(e) && e.kind == k,
{
    match row.get(name) {
        Option::None => Result::Err(
            DecodeError { kind: ErrKind::MissingField, detail: name.to_owned() },
        ),
        Option::Some(s) => {
            let cs = str_chars(s.as_str());
            match parse_u64(&cs) {
                Option::Some(v) => Result::Ok(v),
                Option::None => Result::Err(
                    DecodeError { kind: ErrKind::NumericConversion, detail: name.to_owned() },
                ),
            }
        },
    }
}

fn get_u16(row: &Row, name: &str) -> (r: Result<u16, DecodeError>)
    ensures
        field_u16(row@, name@) matches Ok(v) ==> r matches Ok(w) && w == v,
        field_u16(row@, name@) matches Err(k) ==> r matches Err(e) && e.kind == k,
{
    match row.get(name) {
        Option::None => Result::Err(
            DecodeError { kind: ErrKind::MissingField, detail: name.to_owned() },
        ),
        Option::Some(s) => {
            let cs = str_chars(s.as_str());
            match parse_u16(&cs) {
                Option::Some(v) => Result::Ok(v),
                Option::None => Result::Err(
                    DecodeError { kind: ErrKind::NumericConversion, detail: name.to_owned() },
                ),
            }
        },
    }
}

fn get_usize(row: &Row, name: &str) -> (r: Result<usize, DecodeError>)
    ensures
        field_usize(row@, name@) matches Ok(v) ==> r matches Ok(w) && w == v,
        field_usize(row@, name@) matches Err(k) ==> r matches Err(e) && e.kind == k,
{
    match row.get(name) {
        Option::None => Result::Err(
            DecodeError { kind: ErrKind::MissingField, detail: name.to_owned() },
        ),
        Option::Some(s) => {
            let cs = str_chars(s.as_str());
            match parse_usize(&cs) {
                Option::Some(v) => Result::Ok(v),
                Option::None => Result::Err(
                    DecodeError { kind: ErrKind::NumericConversion, detail: name.to_owned() },
                ),
            }
        },
    }
}

fn get_decimal(row: &Row, name: &str) -> (r: Result<Decimal, DecodeError>)
    ensures
        field_decimal(row@, name@) matches Ok(v) ==> r matches Ok(w) && w == v,
        field_decimal(row@, name@) matches Err(k) ==> r matches Err(e) && e.kind == k,
        r matches Ok(v) ==> v.wf(),
{
    match row.get(name) {
        Option::None => Result::Err(
            DecodeError { kind: ErrKind::MissingField, detail: name.to_owned() },
        ),
        Option::Some(s) => {
            let cs = str_chars(s.as_str());
            match parse_decimal(&cs) {
                Option::Some(v) => Result::Ok(v),
                Option::None => Result::Err(
                    DecodeError { kind: ErrKind::NumericConversion, detail: name.to_owned() },
                ),
            }
        },
    }
}

fn get_party(row: &Row, name: &str) -> (r: Result<PartyAffilliation, DecodeError>)
    ensures
        field_party(row@, name@) matches Ok(v) ==> r matches Ok(w) && w == v,
        field_party(row@, name@) matches Err(k) ==> r matches Err(e) && e.kind == k,
{
    match row.get(name) {
        Option::None => Result::Err(
            DecodeError { kind: ErrKind::MissingField, detail: name.to_owned() },
        ),
        Option::Some(s) => Result::Ok(decode_party(s.as_str())),
    }
}

fn get_division(row: &Row, name: &str) -> (r: Result<Division, DecodeError>)
    ensures
        field_division(row@, name@) matches Ok(v) ==> r matches Ok(w) && w == v,
        field_division(row@, name@) matches Err(k) ==> r matches Err(e) && e.kind == k,
{
    match row.get(name) {
        Option::None => Result::Err(
            DecodeError { kind: ErrKind::MissingField, detail: name.to_owned() },
        ),
        Option::Some(s) => match decode_division(s.as_str()) {
            Option::Some(d) => Result::Ok(d),
            Option::None => Result::Err(
                DecodeError { kind: ErrKind::DivisionUnrecognized, detail: s.clone() },
            ),
        },
    }
}

/// One first-preference row decoded: party and the five vote counts,
/// then the swing.
pub open spec fn spec_decode_fp(row: Seq<(Seq<char>, Seq<char>)>) -> Result<
    FirstPreferences,
    ErrKind,
> {
    match field_party(row, "PartyAb"@) {
        Result::Err(k) => Result::Err(k),
        Result::Ok(party) => match field_u64(row, "OrdinaryVotes"@) {
            Result::Err(k) => Result::Err(k),
            Result::Ok(ordinary) => match field_u64(row, "AbsentVotes"@) {
                Result::Err(k) => Result::Err(k),
                Result::Ok(absent) => match field_u64(row, "ProvisionalVotes"@) {
                    Result::Err(k) => Result::Err(k),
                    Result::Ok(provisional) => match field_u64(row, "PrePollVotes"@) {
                        Result::Err(k) => Result::Err(k),
                        Result::Ok(prepoll) => match field_u64(row, "PostalVotes"@) {
                            Result::Err(k) => Result::Err(k),
                            Result::Ok(postal) => match field_decimal(row, "TotalSwing"@) {
                                Result::Err(k) => Result::Err(k),
                                Result::Ok(swing) => Result::Ok(
                                    FirstPreferences {
                                        party,
                                        ordinary,
                                        absent,
                                        provisional,
                                        prepoll,
                                        postal,
                                        swing,
                                    },
                                ),
                            },
                        },
                    },
                },
            },
        },
    }
}

/// One candidate's sub-record of a two-candidate-preferred row.
pub open spec fn spec_decode_tcp_pp(row: Seq<(Seq<char>, Seq<char>)>) -> Result<TcpPP, ErrKind> {
    match field_party(row, "PartyAb"@) {
        Result::Err(k) => Result::Err(k),
        Result::Ok(party) => match field_u64(row, "OrdinaryVotes"@) {
            Result::Err(k) => Result::Err(k),
            Result::Ok(ordinary) => match field_decimal(row, "Swing"@) {
                Result::Err(k) => Result::Err(k),
                Result::Ok(swing) => match field_u16(row, "BallotPosition"@) {
                    Result::Err(k) => Result::Err(k),
                    Result::Ok(ballot_position) => Result::Ok(
                        TcpPP { party, ordinary, swing, ballot_position },
                    ),
                },
            },
        },
    }
}

/// A two-row group decoded: the division from the first row, then
/// one sub-record from each row.
pub open spec fn spec_decode_tcp(
    first: Seq<(Seq<char>, Seq<char>)>,
    second: Seq<(Seq<char>, Seq<char>)>,
) -> Result<TwoCandidatePreferred, ErrKind> {
    match field_division(first, "DivisionNm"@) {
        Result::Err(k) => Result::Err(k),
        Result::Ok(division) => match spec_decode_tcp_pp(first) {
            Result::Err(k) => Result::Err(k),
            Result::Ok(p0) => match spec_decode_tcp_pp(second) {
                Result::Err(k) => Result::Err(k),
                Result::Ok(p1) => Result::Ok(
                    TwoCandidatePreferred { division, parties: (p0, p1) },
                ),
            },
        },
    }
}

/// A four-row group decoded: party and division from the first row,
/// the preference count from the first row's calculation value, the
/// transfer count from the last row's.
pub open spec fn spec_decode_pd(
    first: Seq<(Seq<char>, Seq<char>)>,
    last: Seq<(Seq<char>, Seq<char>)>,
) -> Result<PrefDistribution, ErrKind> {
    match field_party(first, "PartyAb"@) {
        Result::Err(k) => Result::Err(k),
        Result::Ok(party) => match field_division(first, "DivisionNm"@) {
            Result::Err(k) => Result::Err(k),
            Result::Ok(division) => match field_usize(first, "CalculationValue"@) {
                Result::Err(k) => Result::Err(k),
                Result::Ok(preference_count) => match field_usize(last, "CalculationValue"@) {
                    Result::Err(k) => Result::Err(k),
                    Result::Ok(transfer_count) => Result::Ok(
                        PrefDistribution { division, party, preference_count, transfer_count },
                    ),
                },
            },
        },
    }
}

/// Decodes one first-preference row.
pub fn decode_first_preferences(row: &Row) -> (r: Result<FirstPreferences, DecodeError>)
    ensures
        spec_decode_fp(row@) matches Ok(v) ==> r matches Ok(w) && w == v,
        spec_decode_fp(row@) matches Err(k) ==> r matches Err(e) && e.kind == k,
        r matches Ok(v) ==> v.wf(),
{
    let party = match get_party(row, "PartyAb") {
        Result::Ok(v) => v,
        Result::Err(e) => {
            return Result::Err(e);
        },
    };
    let ordinary = match get_u64(row, "OrdinaryVotes") {
        Result::Ok(v) => v,
        Result::Err(e) => {
            return Result::Err(e);
        },
    };
    let absent = match get_u64(row, "AbsentVotes") {
        Result::Ok(v) => v,
        Result::Err(e) => {
            return Result::Err(e);
        },
    };
    let provisional = match get_u64(row, "ProvisionalVotes") {
        Result::Ok(v) => v,
        Result::Err(e) => {
            return Result::Err(e);
        },
    };
    let prepoll = match get_u64(row, "PrePollVotes") {
        Result::Ok(v) => v,
        Result::Err(e) => {
            return Result::Err(e);
        },
    };
    let postal = match get_u64(row, "PostalVotes") {
        Result::Ok(v) => v,
        Result::Err(e) => {
            return Result::Err(e);
        },
    };
    let swing = match get_decimal(row, "TotalSwing") {
        Result::Ok(v) => v,
        Result::Err(e) => {
            return Result::Err(e);
        },
    };
    Result::Ok(FirstPreferences { party, ordinary, absent, provisional, prepoll, postal, swing })
}

/// Decodes one candidate's sub-record of a two-candidate-preferred
/// row.
pub fn decode_tcp_pp(row: &Row) -> (r: Result<TcpPP, DecodeError>)
    ensures
        spec_decode_tcp_pp(row@) matches Ok(v) ==> r matches Ok(w) && w == v,
        spec_decode_tcp_pp(row@) matches Err(k) ==> r matches Err(e) && e.kind == k,
        r matches Ok(v) ==> v.wf(),
{
    let party = match get_party(row, "PartyAb") {
        Result::Ok(v) => v,
        Result::Err(e) => {
            return Result::Err(e);
        },
    };
    let ordinary = match get_u64(row, "OrdinaryVotes") {
        Result::Ok(v) => v,
        Result::Err(e) => {
            return Result::Err(e);
        },
    };
    let swing = match get_decimal(row, "Swing") {
        Result::Ok(v) => v,
        Result::Err(e) => {
            return Result::Err(e);
        },
    };
    let ballot_position = match get_u16(row, "BallotPosition") {
        Result::Ok(v) => v,
        Result::Err(e) => {
            return Result::Err(e);
        },
    };
    Result::Ok(TcpPP { party, ordinary, swing, ballot_position })
}

/// Decodes one two-row group; a group short of its second row fails
/// with a shape error.
pub fn decode_two_candidate_preferred(first: &Row, second: Option<&Row>) -> (r: Result<
    TwoCandidatePreferred,
    DecodeError,
>)
    ensures
        second is None ==> (r matches Err(e) && e.kind == ErrKind::GroupShape),
        second matches Some(s) ==> {
            &&& spec_decode_tcp(first@, s@) matches Ok(v) ==> r matches Ok(w) && w == v
            &&& spec_decode_tcp(first@, s@) matches Err(k) ==> r matches Err(e) && e.kind == k
        },
        r matches Ok(v) ==> v.wf(),
{
    let second = match second {
        Option::Some(s) => s,
        Option::None => {
            return Result::Err(
                DecodeError { kind: ErrKind::GroupShape, detail: "TwoCandidatePreferred".to_owned() },
            );
        },
    };
    let division = match get_division(first, "DivisionNm") {
        Result::Ok(v) => v,
        Result::Err(e) => {
            return Result::Err(e);
        },
    };
    let p0 = match decode_tcp_pp(first) {
        Result::Ok(v) => v,
        Result::Err(e) => {
            return Result::Err(e);
        },
    };
    let p1 = match decode_tcp_pp(second) {
        Result::Ok(v) => v,
        Result::Err(e) => {
            return Result::Err(e);
        },
    };
    Result::Ok(TwoCandidatePreferred { division, parties: (p0, p1) })
}

/// Decodes one four-row group from its first and last rows; a group
/// short of its fourth row fails with a shape error.
pub fn decode_pref_distribution(first: &Row, last: Option<&Row>) -> (r: Result<
    PrefDistribution,
    DecodeError,
>)
    ensures
        last is None ==> (r matches Err(e) && e.kind == ErrKind::GroupShape),
        last matches Some(l) ==> {
            &&& spec_decode_pd(first@, l@) matches Ok(v) ==> r matches Ok(w) && w == v
            &&& spec_decode_pd(first@, l@) matches Err(k) ==> r matches Err(e) && e.kind == k
        },
{
    let last = match last {
        Option::Some(l) => l,
        Option::None => {
            return Result::Err(
                DecodeError { kind: ErrKind::GroupShape, detail: "PrefDistribution".to_owned() },
            );
        },
    };
    let party = match get_party(first, "PartyAb") {
        Result::Ok(v) => v,
        Result::Err(e) => {
            return Result::Err(e);
        },
    };
    let division = match get_division(first, "DivisionNm") {
        Result::Ok(v) => v,
        Result::Err(e) => {
            return Result::Err(e);
        },
    };
    let preference_count = match get_usize(first, "CalculationValue") {
        Result::Ok(v) => v,
        Result::Err(e) => {
            return Result::Err(e);
        },
    };
    let transfer_count = match get_usize(last, "CalculationValue") {
        Result::Ok(v) => v,
        Result::Err(e) => {
            return Result::Err(e);
        },
    };
    Result::Ok(PrefDistribution { division, party, preference_count, transfer_count })
}

/// The surviving first-preference records of a table, one group per
/// row, in row order.
pub open spec fn fp_records(rows: Seq<Seq<(Seq<char>, Seq<char>)>>) -> Seq<FirstPreferences>
    decreases rows.len(),
{
    if rows.len() == 0 {
        Seq::empty()
    } else {
        match spec_decode_fp(rows[0]) {
            Result::Ok(v) => seq![v] + fp_records(rows.drop_first()),
            Result::Err(_) => fp_records(rows.drop_first()),
        }
    }
}

/// The surviving two-candidate-preferred records of a table, one
/// group per two consecutive rows; a trailing lone row is a shape
/// failure and is dropped.
pub open spec fn tcp_records(rows: Seq<Seq<(Seq<char>, Seq<char>)>>) -> Seq<
    TwoCandidatePreferred,
>
    decreases rows.len(),
{
    if rows.len() < 2 {
        Seq::empty()
    } else {
        match spec_decode_tcp(rows[0], rows[1]) {
            Result::Ok(v) => seq![v] + tcp_records(rows.skip(2)),
            Result::Err(_) => tcp_records(rows.skip(2)),
        }
    }
}

/// The surviving preference-distribution records of a table, one
/// group per four consecutive rows; a trailing short group is a
/// shape failure and is dropped.
pub open spec fn pd_records(rows: Seq<Seq<(Seq<char>, Seq<char>)>>) -> Seq<PrefDistribution>
    decreases rows.len(),
{
    if rows.len() < 4 {
        Seq::empty()
    } else {
        match spec_decode_pd(rows[0], rows[3]) {
            Result::Ok(v) => seq![v] + pd_records(rows.skip(4)),
            Result::Err(_) => pd_records(rows.skip(4)),
        }
    }
}

/// A record kind that one file's bytes decode into.
pub trait Process: Sized {
    /// What well-formedness means for this kind's records.
    spec fn rec_wf(self) -> bool;

    /// The kind's surviving records of a file's table, in
    /// specifications.
    spec fn spec_records(rows: Seq<Seq<(Seq<char>, Seq<char>)>>) -> Seq<Self>;

    /// Decodes one file's bytes into this kind's records, dropping
    /// every failed group; fails exactly when the bytes are not
    /// valid text. Every returned record is well-formed.
    fn process(data: &[u8]) -> (r: Result<Vec<Self>, FileError>)
        ensures
            r is Ok <==> valid_utf8(data@),
            r matches Ok(v) ==> v@ == Self::spec_records(spec_table(decode_utf8(data@))),
            r matches Ok(v) ==> forall|i: int| 0 <= i < v@.len()
                ==> (#[trigger] v@[i]).rec_wf(),
    ;
}

impl Process for FirstPreferences {
    open spec fn rec_wf(self) -> bool {
        self.wf()
    }

    open spec fn spec_records(rows: Seq<Seq<(Seq<char>, Seq<char>)>>) -> Seq<FirstPreferences> {
        fp_records(rows)
    }

    fn process(data: &[u8]) -> (r: Result<Vec<FirstPreferences>, FileError>) {
        let rows = match csv(data) {
            Result::Ok(rows) => rows,
            Result::Err(e) => {
                return Result::Err(e);
            },
        };
        let ghost rv = rows.deep_view();
        let mut out: Vec<FirstPreferences> = Vec::new();
        let n = rows.len();
        let mut i: usize = 0;
        proof {
            assert(rv.skip(0) =~= rv);
        }
        while i < n
            invariant
                i <= n,
                n == rows@.len(),
                rv == rows.deep_view(),
                fp_records(rv) == out@ + fp_records(rv.skip(i as int)),
                forall|k: int| 0 <= k < out@.len() ==> (#[trigger] out@[k]).wf(),
            decreases n - i,
        {
            proof {
                assert(rows.deep_view()[i as int] == rows@[i as int]@);
                assert(rv.skip(i as int)[0] == rv[i as int]);
                assert(rv.skip(i as int).drop_first() =~= rv.skip(i + 1));
            }
            let ghost old_out = out@;
            match decode_first_preferences(&rows[i]) {
                Result::Ok(v) => {
                    out.push(v);
                    proof {
                        assert(out@ == old_out.push(v));
                        assert(forall|k: int| 0 <= k < old_out.len() ==> out@[k] == old_out[k]);
                        assert(out@ =~= old_out + seq![v]);
                        assert((old_out + seq![v]) + fp_records(rv.skip(i + 1))
                            =~= old_out + (seq![v] + fp_records(rv.skip(i + 1))));
                    }
                },
                Result::Err(_) => {},
            }
            i = i + 1;
        }
        proof {
            assert(rv.skip(n as int) =~= Seq::<Seq<(Seq<char>, Seq<char>)>>::empty());
        }
        Result::Ok(out)
    }
}

impl Process for TwoCandidatePreferred {
    open spec fn rec_wf(self) -> bool {
        self.wf()
    }

    open spec fn spec_records(rows: Seq<Seq<(Seq<char>, Seq<char>)>>) -> Seq<
        TwoCandidatePreferred,
    > {
        tcp_records(rows)
    }

    fn process(data: &[u8]) -> (r: Result<Vec<TwoCandidatePreferred>, FileError>) {
        let rows = match csv(data) {
            Result::Ok(rows) => rows,
            Result::Err(e) => {
                return Result::Err(e);
            },
        };
        let ghost rv = rows.deep_view();
        let mut out: Vec<TwoCandidatePreferred> = Vec::new();
        let n = rows.len();
        let mut i: usize = 0;
        proof {
            assert(rv.skip(0) =~= rv);
        }
        while i < n && n - i >= 2
            invariant
                i <= n,
                n == rows@.len(),
                rv == rows.deep_view(),
                tcp_records(rv) == out@ + tcp_records(rv.skip(i as int)),
                forall|k: int| 0 <= k < out@.len() ==> (#[trigger] out@[k]).wf(),
            decreases n - i,
        {
            proof {
                assert(rows.deep_view()[i as int] == rows@[i as int]@);
                assert(rows.deep_view()[i + 1] == rows@[i + 1]@);
                assert(rv.skip(i as int)[0] == rv[i as int]);
                assert(rv.skip(i as int)[1] == rv[i + 1]);
                assert(rv.skip(i as int).skip(2) =~= rv.skip(i + 2));
            }
            let ghost old_out = out@;
            match decode_two_candidate_preferred(&rows[i], Some(&rows[i + 1])) {
                Result::Ok(v) => {
                    out.push(v);
                    proof {
                        assert(out@ == old_out.push(v));
                        assert(forall|k: int| 0 <= k < old_out.len() ==> out@[k] == old_out[k]);
                        assert(out@ =~= old_out + seq![v]);
                        assert((old_out + seq![v]) + tcp_records(rv.skip(i + 2))
                            =~= old_out + (seq![v] + tcp_records(rv.skip(i + 2))));
                    }
                },
                Result::Err(_) => {},
            }
            i = i + 2;
        }
        proof {
            assert(rv.skip(i as int).len() < 2);
            assert(tcp_records(rv.skip(i as int)) =~= Seq::<TwoCandidatePreferred>::empty());
        }
        Result::Ok(out)
    }
}

impl Process for PrefDistribution {
    open spec fn rec_wf(self) -> bool {
        true
    }

    open spec fn spec_records(rows: Seq<Seq<(Seq<char>, Seq<char>)>>) -> Seq<PrefDistribution> {
        pd_records(rows)
    }

    fn process(data: &[u8]) -> (r: Result<Vec<PrefDistribution>, FileError>) {
        let rows = match csv(data) {
            Result::Ok(rows) => rows,
            Result::Err(e) => {
                return Result::Err(e);
            },
        };
        let ghost rv = rows.deep_view();
        let mut out: Vec<PrefDistribution> = Vec::new();
        let n = rows.len();
        let mut i: usize = 0;
        proof {
            assert(rv.skip(0) =~= rv);
        }
        while i < n && n - i >= 4
            invariant
                i <= n,
                n == rows@.len(),
                rv == rows.deep_view(),
                pd_records(rv) == out@ + pd_records(rv.skip(i as int)),
            decreases n - i,
        {
            proof {
                assert(rows.deep_view()[i as int] == rows@[i as int]@);
                assert(rows.deep_view()[i + 3] == rows@[i + 3]@);
                assert(rv.skip(i as int)[0] == rv[i as int]);
                assert(rv.skip(i as int)[3] == rv[i + 3]);
                assert(rv.skip(i as int).skip(4) =~= rv.skip(i + 4));
            }
            let ghost old_out = out@;
            match decode_pref_distribution(&rows[i], Some(&rows[i + 3])) {
                Result::Ok(v) => {
                    out.push(v);
                    proof {
                        assert(out@ =~= old_out + seq![v]);
                        assert((old_out + seq![v]) + pd_records(rv.skip(i + 4))
                            =~= old_out + (seq![v] + pd_records(rv.skip(i + 4))));
                    }
                },
                Result::Err(_) => {},
            }
            i = i + 4;
        }
        proof {
            assert(rv.skip(i as int).len() < 4);
            assert(pd_records(rv.skip(i as int)) =~= Seq::<PrefDistribution>::empty());
        }
        Result::Ok(out)
    }
}

/// Re-running the pipeline on byte-identical input yields, for each
/// record kind, record collections equal as multisets.
pub proof fn lemma_process_idempotent(d1: Seq<u8>, d2: Seq<u8>)
    requires
        d1 == d2,
    ensures
        fp_records(spec_table(decode_utf8(d1))).to_multiset()
            == fp_records(spec_table(decode_utf8(d2))).to_multiset(),
        tcp_records(spec_table(decode_utf8(d1))).to_multiset()
            == tcp_records(spec_table(decode_utf8(d2))).to_multiset(),
        pd_records(spec_table(decode_utf8(d1))).to_multiset()
            == pd_records(spec_table(decode_utf8(d2))).to_multiset(),
{
}

} // verus!
