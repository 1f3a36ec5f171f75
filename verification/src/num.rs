//! Decimal numerals: parsing of unsigned integers the way the field
//! decoder reads vote counts, rendering used by the cache codec, and
//! an exact signed decimal type that carries a swing percentage.

use vstd::prelude::*;
use vstd::arithmetic::div_mod::lemma_fundamental_div_mod;
use crate::lines::{split_on, split_chars, join_with, lemma_split_join};

verus! {

/// An ASCII decimal digit.
pub open spec fn is_digit(c: char) -> bool {
    48 <= c as u32 && c as u32 <= 57
}

/// The numeric value of a digit character.
pub open spec fn digit_val(c: char) -> nat {
    (c as u32 - 48) as nat
}

/// The digit character of a value below ten.
pub open spec fn digit_char(d: nat) -> char {
    if d == 0 {
        '0'
    } else if d == 1 {
        '1'
    } else if d == 2 {
        '2'
    } else if d == 3 {
        '3'
    } else if d == 4 {
        '4'
    } else if d == 5 {
        '5'
    } else if d == 6 {
        '6'
    } else if d == 7 {
        '7'
    } else if d == 8 {
        '8'
    } else {
        '9'
    }
}

/// Every character of `s` is a decimal digit.
pub open spec fn all_digits(s: Seq<char>) -> bool {
    forall|i: int| 0 <= i < s.len() ==> is_digit(#[trigger] s[i])
}

/// The value of a digit string, most significant digit first.
pub open spec fn digits_val(s: Seq<char>) -> nat
    decreases s.len(),
{
    if s.len() == 0 {
        0
    } else {
        digits_val(s.drop_last()) * 10 + digit_val(s.last())
    }
}

/// The shortest digit string of a value: no leading zero except for
/// the value zero itself.
pub open spec fn u64_digits(n: nat) -> Seq<char>
    decreases n,
{
    if n < 10 {
        seq![digit_char(n)]
    } else {
        u64_digits(n / 10).push(digit_char(n % 10))
    }
}

/// Ten to the `k`.
pub open spec fn pow10(k: nat) -> nat
    decreases k,
{
    if k == 0 {
        1
    } else {
        10 * pow10((k - 1) as nat)
    }
}

/// What parsing a string as an unsigned 64-bit numeral yields: an
/// optional leading plus sign, then one or more digits whose value
/// fits; anything else is a failure.
pub open spec fn parse_u64_spec(s: Seq<char>) -> Option<u64> {
    let t = if s.len() > 0 && s[0] == '+' {
        s.drop_first()
    } else {
        s
    };
    if t.len() > 0 && all_digits(t) && digits_val(t) <= u64::MAX {
        Some(digits_val(t) as u64)
    } else {
        None
    }
}

/// As `parse_u64_spec`, with the 16-bit bound.
pub open spec fn parse_u16_spec(s: Seq<char>) -> Option<u16> {
    let t = if s.len() > 0 && s[0] == '+' {
        s.drop_first()
    } else {
        s
    };
    if t.len() > 0 && all_digits(t) && digits_val(t) <= u16::MAX {
        Some(digits_val(t) as u16)
    } else {
        None
    }
}

/// As `parse_u64_spec`, with the pointer-width bound.
pub open spec fn parse_usize_spec(s: Seq<char>) -> Option<usize> {
    let t = if s.len() > 0 && s[0] == '+' {
        s.drop_first()
    } else {
        s
    };
    if t.len() > 0 && all_digits(t) && digits_val(t) <= usize::MAX {
        Some(digits_val(t) as usize)
    } else {
        None
    }
}

/// Values of longer digit-string prefixes are no smaller.
proof fn lemma_digits_val_prefix_le(s: Seq<char>, i: int, j: int)
    requires
        0 <= i <= j <= s.len(),
    ensures
        digits_val(s.subrange(0, i)) <= digits_val(s.subrange(0, j)),
    decreases j - i,
{
    if i < j {
        lemma_digits_val_prefix_le(s, i, j - 1);
        assert(s.subrange(0, j).drop_last() =~= s.subrange(0, j - 1));
        assert(digits_val(s.subrange(0, j))
            == digits_val(s.subrange(0, j - 1)) * 10 + digit_val(s[j - 1]));
        assert(digits_val(s.subrange(0, j - 1)) * 10 >= digits_val(s.subrange(0, j - 1)));
    }
}

/// The core digit loop: the value of a non-empty all-digit string,
/// when it fits in 64 bits.
pub fn digits_to_u64(s: &Vec<char>) -> (r: Option<u64>)
    ensures
        r == (if s@.len() > 0 && all_digits(s@) && digits_val(s@) <= u64::MAX {
            Some(digits_val(s@) as u64)
        } else {
            None
        }),
{
    let n = s.len();
    if n == 0 {
        return None;
    }
    let mut acc: u64 = 0;
    let mut i: usize = 0;
    proof {
        assert(s@.subrange(0, 0) =~= Seq::<char>::empty());
    }
    while i < n
        invariant
            i <= n,
            n == s@.len(),
            all_digits(s@.subrange(0, i as int)),
            acc == digits_val(s@.subrange(0, i as int)),
        decreases n - i,
    {
        let c = s[i];
        let u = c as u32;
        if u < 48 || u > 57 {
            return None;
        }
        let d: u64 = (u - 48) as u64;
        proof {
            assert(s@.subrange(0, i + 1).drop_last() =~= s@.subrange(0, i as int));
            assert(s@.subrange(0, i + 1).last() == c);
        }
        if acc > (u64::MAX - d) / 10 {
            proof {
                assert(digits_val(s@.subrange(0, i + 1)) > u64::MAX);
                lemma_digits_val_prefix_le(s@, i + 1, n as int);
                assert(s@.subrange(0, n as int) =~= s@);
            }
            return None;
        }
        acc = acc * 10 + d;
        i = i + 1;
    }
    proof {
        assert(s@.subrange(0, n as int) =~= s@);
    }
    Some(acc)
}

/// Copies `s` from `start` on.
pub(crate) fn tail_chars(s: &Vec<char>, start: usize) -> (r: Vec<char>)
    requires
        start <= s@.len(),
    ensures
        r@ == s@.subrange(start as int, s@.len() as int),
{
    let n = s.len();
    let mut r: Vec<char> = Vec::new();
    let mut i: usize = start;
    proof {
        assert(r@ =~= s@.subrange(start as int, start as int));
    }
    while i < n
        invariant
            start <= i <= n,
            n == s@.len(),
            r@ == s@.subrange(start as int, i as int),
        decreases n - i,
    {
        r.push(s[i]);
        proof {
            assert(r@ =~= s@.subrange(start as int, i + 1));
        }
        i = i + 1;
    }
    r
}

/// Parses an unsigned 64-bit numeral.
pub fn parse_u64(s: &Vec<char>) -> (r: Option<u64>)
    ensures
        r == parse_u64_spec(s@),
{
    if s.len() > 0 && s[0] == '+' {
        let t = tail_chars(s, 1);
        proof {
            assert(t@ =~= s@.drop_first());
        }
        digits_to_u64(&t)
    } else {
        digits_to_u64(s)
    }
}

/// Parses an unsigned 16-bit numeral.
pub fn parse_u16(s: &Vec<char>) -> (r: Option<u16>)
    ensures
        r == parse_u16_spec(s@),
{
    let v = parse_u64(s);
    match v {
        Some(x) => {
            if x <= u16::MAX as u64 {
                Some(x as u16)
            } else {
                None
            }
        },
        None => None,
    }
}

/// Parses a pointer-width unsigned numeral.
pub fn parse_usize(s: &Vec<char>) -> (r: Option<usize>)
    ensures
        r == parse_usize_spec(s@),
{
    let v = parse_u64(s);
    match v {
        Some(x) => {
            if x <= usize::MAX as u64 {
                Some(x as usize)
            } else {
                None
            }
        },
        None => None,
    }
}

/// The digit character of a value below ten, executable form.
fn digit_char_of(d: u64) -> (c: char)
    requires
        d < 10,
    ensures
        c == digit_char(d as nat),
{
    if d == 0 {
        '0'
    } else if d == 1 {
        '1'
    } else if d == 2 {
        '2'
    } else if d == 3 {
        '3'
    } else if d == 4 {
        '4'
    } else if d == 5 {
        '5'
    } else if d == 6 {
        '6'
    } else if d == 7 {
        '7'
    } else if d == 8 {
        '8'
    } else {
        '9'
    }
}

/// Renders an unsigned value as its shortest digit string.
pub fn u64_to_chars(n: u64) -> (r: Vec<char>)
    ensures
        r@ == u64_digits(n as nat),
    decreases n,
{
    if n < 10 {
        let mut r: Vec<char> = Vec::new();
        r.push(digit_char_of(n));
        proof {
            assert(r@ =~= seq![digit_char(n as nat)]);
        }
        r
    } else {
        proof {
            assert(n / 10 < n) by (nonlinear_arith)
                requires n >= 10;
        }
        let mut r = u64_to_chars(n / 10);
        r.push(digit_char_of(n % 10));
        r
    }
}

/// The rendered digits of a value: non-empty, all digits, and reading
/// them back yields the value.
pub proof fn lemma_u64_digits(n: nat)
    ensures
        u64_digits(n).len() > 0,
        all_digits(u64_digits(n)),
        digits_val(u64_digits(n)) == n,
    decreases n,
{
    if n < 10 {
        assert(u64_digits(n) == seq![digit_char(n)]);
        assert(u64_digits(n).drop_last() =~= Seq::<char>::empty());
        assert(digit_val(digit_char(n)) == n);
        assert(u64_digits(n).last() == digit_char(n));
        assert(digits_val(Seq::<char>::empty()) == 0);
        assert(digits_val(u64_digits(n)) == n);
    } else {
        lemma_u64_digits(n / 10);
        let s = u64_digits(n / 10).push(digit_char(n % 10));
        assert(u64_digits(n) == s);
        assert(s.drop_last() =~= u64_digits(n / 10));
        assert(s.last() == digit_char(n % 10));
        assert(digit_val(digit_char(n % 10)) == n % 10);
        assert(digits_val(s) == digits_val(u64_digits(n / 10)) * 10 + digit_val(digit_char(n % 10)));
        assert(digits_val(s) == (n / 10) * 10 + n % 10);
        lemma_fundamental_div_mod(n as int, 10);
        assert(digits_val(s) == n);
        assert(digits_val(u64_digits(n)) == n);
        assert(all_digits(u64_digits(n)));
        assert(u64_digits(n).len() > 0);
        assert(all_digits(s)) by {
            assert(forall|i: int| 0 <= i < u64_digits(n / 10).len()
                ==> #[trigger] s[i] == u64_digits(n / 10)[i]);
        }
    }
}

/// Reading a rendered value back as a numeral yields the value.
pub proof fn lemma_u64_round_trip(n: u64)
    ensures
        parse_u64_spec(u64_digits(n as nat)) == Some(n),
{
    lemma_u64_digits(n as nat);
    assert(is_digit(u64_digits(n as nat)[0]));
    assert(u64_digits(n as nat)[0] != '+');
}

/// A signed decimal number held exactly: the value is
/// `mantissa / 10^scale`, negated when `negative` holds. It carries a
/// swing percentage, which the source files write as a decimal
/// numeral.
#[derive(Clone, Copy, Debug, PartialEq, Eq, Structural)]
pub struct Decimal {
    pub negative: bool,
    pub mantissa: u64,
    pub scale: u32,
}

impl Decimal {
    /// A scale this small keeps `10^scale` inside 64 bits.
    pub open spec fn wf(self) -> bool {
        self.scale <= 19
    }
}

/// Powers of ten are positive and grow with the exponent.
pub proof fn lemma_pow10_monotone(i: nat, j: nat)
    requires
        i <= j,
    ensures
        1 <= pow10(i) <= pow10(j),
    decreases j,
{
    if j == 0 {
    } else if i == j {
        lemma_pow10_monotone(0, (j - 1) as nat);
    } else {
        lemma_pow10_monotone(i, (j - 1) as nat);
    }
}

/// Ten to the nineteenth fits in 64 bits.
pub proof fn lemma_pow10_19()
    ensures
        pow10(19) == 10000000000000000000,
{
    reveal_with_fuel(pow10, 20);
}

/// Ten to the `k`, executable form.
pub fn pow10_exec(k: u32) -> (r: u64)
    requires
        k <= 19,
    ensures
        r == pow10(k as nat),
{
    let mut r: u64 = 1;
    let mut i: u32 = 0;
    while i < k
        invariant
            i <= k <= 19,
            r == pow10(i as nat),
        decreases k - i,
    {
        proof {
            lemma_pow10_monotone(i as nat + 1, 19);
            lemma_pow10_19();
        }
        r = r * 10;
        i = i + 1;
    }
    r
}

/// Exactly `k` digits rendering a value below `10^k`, most
/// significant first, padded with leading zeros.
pub open spec fn frac_digits(f: nat, k: nat) -> Seq<char>
    decreases k,
{
    if k == 0 {
        Seq::empty()
    } else {
        frac_digits(f / 10, (k - 1) as nat).push(digit_char(f % 10))
    }
}

/// The fraction digits render their value in exactly `k` digits.
pub proof fn lemma_frac_digits(f: nat, k: nat)
    requires
        f < pow10(k),
    ensures
        frac_digits(f, k).len() == k,
        all_digits(frac_digits(f, k)),
        digits_val(frac_digits(f, k)) == f,
    decreases k,
{
    if k == 0 {
        assert(frac_digits(f, k) =~= Seq::<char>::empty());
    } else {
        lemma_fundamental_div_mod(f as int, 10);
        assert(f / 10 < pow10((k - 1) as nat));
        lemma_frac_digits(f / 10, (k - 1) as nat);
        let s = frac_digits(f / 10, (k - 1) as nat).push(digit_char(f % 10));
        assert(s.drop_last() =~= frac_digits(f / 10, (k - 1) as nat));
        assert(digit_val(digit_char(f % 10)) == f % 10);
        assert(all_digits(s)) by {
            assert(forall|i: int| 0 <= i < s.len() - 1
                ==> #[trigger] s[i] == frac_digits(f / 10, (k - 1) as nat)[i]);
        }
    }
}

/// The value of concatenated digit strings.
pub proof fn lemma_digits_val_append(a: Seq<char>, b: Seq<char>)
    ensures
        digits_val(a + b) == digits_val(a) * pow10(b.len()) + digits_val(b),
    decreases b.len(),
{
    if b.len() == 0 {
        assert(a + b =~= a);
        assert(pow10(b.len()) == 1);
        assert(digits_val(b) == 0);
        assert(digits_val(a + b) == digits_val(a) * pow10(b.len()) + digits_val(b));
    } else {
        lemma_digits_val_append(a, b.drop_last());
        assert((a + b).drop_last() =~= a + b.drop_last());
        assert((a + b).last() == b.last());
        assert(digits_val(a + b)
            == (digits_val(a) * pow10((b.len() - 1) as nat) + digits_val(b.drop_last())) * 10
                + digit_val(b.last()));
        assert(digits_val(a) * pow10((b.len() - 1) as nat) * 10
            == digits_val(a) * pow10(b.len())) by (nonlinear_arith)
            requires pow10(b.len()) == 10 * pow10((b.len() - 1) as nat);
        assert(digits_val(b) == digits_val(b.drop_last()) * 10 + digit_val(b.last()));
        assert((digits_val(a) * pow10((b.len() - 1) as nat) + digits_val(b.drop_last())) * 10
            == digits_val(a) * pow10((b.len() - 1) as nat) * 10
                + digits_val(b.drop_last()) * 10) by (nonlinear_arith);
    }
}

/// What parsing a string as a signed decimal numeral yields: an
/// optional sign, digits with at most one decimal point among them,
/// at least one digit in all, a fraction of at most nineteen digits,
/// and a mantissa that fits in 64 bits.
pub open spec fn parse_decimal_spec(s: Seq<char>) -> Option<Decimal> {
    let neg = s.len() > 0 && s[0] == '-';
    let t = if s.len() > 0 && (s[0] == '-' || s[0] == '+') {
        s.drop_first()
    } else {
        s
    };
    let parts = split_on(t, '.');
    if parts.len() == 1 {
        if parts[0].len() > 0 && all_digits(parts[0]) && digits_val(parts[0]) <= u64::MAX {
            Some(Decimal { negative: neg, mantissa: digits_val(parts[0]) as u64, scale: 0 })
        } else {
            None
        }
    } else if parts.len() == 2 {
        let cat = parts[0] + parts[1];
        if parts[1].len() <= 19 && cat.len() > 0 && all_digits(cat) && digits_val(cat)
            <= u64::MAX {
            Some(Decimal {
                negative: neg,
                mantissa: digits_val(cat) as u64,
                scale: parts[1].len() as u32,
            })
        } else {
            None
        }
    } else {
        None
    }
}

/// The concatenation of two character vectors.
pub fn concat_chars(a: &Vec<char>, b: &Vec<char>) -> (r: Vec<char>)
    ensures
        r@ == a@ + b@,
{
    let mut r: Vec<char> = Vec::new();
    let mut i: usize = 0;
    proof {
        assert(r@ =~= a@.subrange(0, 0));
    }
    while i < a.len()
        invariant
            i <= a@.len(),
            r@ == a@.subrange(0, i as int),
        decreases a@.len() - i,
    {
        r.push(a[i]);
        proof {
            assert(r@ =~= a@.subrange(0, i + 1));
        }
        i = i + 1;
    }
    proof {
        assert(r@ =~= a@);
    }
    let mut j: usize = 0;
    while j < b.len()
        invariant
            j <= b@.len(),
            r@ == a@ + b@.subrange(0, j as int),
        decreases b@.len() - j,
    {
        r.push(b[j]);
        proof {
            assert(r@ =~= a@ + b@.subrange(0, j + 1));
        }
        j = j + 1;
    }
    proof {
        assert(r@ =~= a@ + b@);
    }
    r
}

/// Parses a signed decimal numeral.
pub fn parse_decimal(s: &Vec<char>) -> (r: Option<Decimal>)
    ensures
        r == parse_decimal_spec(s@),
        r matches Some(d) ==> d.wf(),
{
    let neg = s.len() > 0 && s[0] == '-';
    let t = if s.len() > 0 && (s[0] == '-' || s[0] == '+') {
        let t = tail_chars(s, 1);
        proof {
            assert(t@ =~= s@.drop_first());
        }
        t
    } else {
        tail_chars(s, 0)
    };
    proof {
        assert(s@.subrange(0, s@.len() as int) =~= s@);
    }
    let parts = split_chars(&t, '.');
    proof {
        assert(parts.deep_view().len() == parts@.len());
    }
    if parts.len() == 1 {
        proof {
            assert(parts.deep_view()[0] == parts@[0]@);
        }
        match digits_to_u64(&parts[0]) {
            Some(m) => Some(Decimal { negative: neg, mantissa: m, scale: 0 }),
            None => None,
        }
    } else if parts.len() == 2 {
        proof {
            assert(parts.deep_view()[0] == parts@[0]@);
            assert(parts.deep_view()[1] == parts@[1]@);
        }
        if parts[1].len() > 19 {
            return None;
        }
        let cat = concat_chars(&parts[0], &parts[1]);
        let scale = parts[1].len() as u32;
        match digits_to_u64(&cat) {
            Some(m) => Some(Decimal { negative: neg, mantissa: m, scale }),
            None => None,
        }
    } else {
        None
    }
}

/// The rendering of a decimal: sign, integer digits, and, for a
/// positive scale, a point and exactly `scale` fraction digits.
pub open spec fn decimal_chars(d: Decimal) -> Seq<char> {
    let sign: Seq<char> = if d.negative {
        seq!['-']
    } else {
        Seq::empty()
    };
    if d.scale == 0 {
        sign + u64_digits(d.mantissa as nat)
    } else {
        sign + u64_digits(d.mantissa as nat / pow10(d.scale as nat)) + seq!['.'] + frac_digits(
            d.mantissa as nat % pow10(d.scale as nat),
            d.scale as nat,
        )
    }
}

/// Exactly `k` digits of `f`, executable form.
fn frac_chars(f: u64, k: u32) -> (r: Vec<char>)
    ensures
        r@ == frac_digits(f as nat, k as nat),
    decreases k,
{
    if k == 0 {
        let r: Vec<char> = Vec::new();
        proof {
            assert(r@ =~= frac_digits(f as nat, 0));
        }
        r
    } else {
        let mut r = frac_chars(f / 10, k - 1);
        r.push(digit_char_of(f % 10));
        r
    }
}

/// Renders a decimal.
pub fn decimal_to_chars(d: &Decimal) -> (r: Vec<char>)
    requires
        d.wf(),
    ensures
        r@ == decimal_chars(*d),
{
    let mut r: Vec<char> = Vec::new();
    if d.negative {
        r.push('-');
    }
    proof {
        if d.negative {
            assert(r@ =~= seq!['-']);
        } else {
            assert(r@ =~= Seq::<char>::empty());
        }
    }
    if d.scale == 0 {
        let ds = u64_to_chars(d.mantissa);
        let out = concat_chars(&r, &ds);
        proof {
            assert(out@ == decimal_chars(*d));
        }
        out
    } else {
        let p = pow10_exec(d.scale);
        proof {
            lemma_pow10_monotone(1, d.scale as nat);
        }
        let ints = u64_to_chars(d.mantissa / p);
        let mut dot: Vec<char> = Vec::new();
        dot.push('.');
        let fracs = frac_chars(d.mantissa % p, d.scale);
        let a = concat_chars(&r, &ints);
        let b = concat_chars(&a, &dot);
        let out = concat_chars(&b, &fracs);
        proof {
            assert(dot@ =~= seq!['.']);
            assert(out@ =~= decimal_chars(*d));
        }
        out
    }
}

/// Reading a rendered decimal back yields the same decimal.
pub proof fn lemma_decimal_round_trip(d: Decimal)
    requires
        d.wf(),
    ensures
        parse_decimal_spec(decimal_chars(d)) == Some(d),
{
    let s = decimal_chars(d);
    let m = d.mantissa as nat;
    if d.scale == 0 {
        let x = u64_digits(m);
        lemma_u64_digits(m);
        if d.negative {
            assert(s == seq!['-'] + x);
            assert(s[0] == '-');
            assert(s.drop_first() =~= x);
        } else {
            assert(s =~= x);
            assert(is_digit(s[0]));
        }
        let t = if d.negative { s.drop_first() } else { s };
        assert(t == x);
        assert(!x.contains('.')) by {
            assert(forall|i: int| 0 <= i < x.len() ==> is_digit(#[trigger] x[i]) && x[i] != '.');
        }
        lemma_split_join(seq![x], '.');
        assert(join_with(seq![x], '.') == x);
        assert(split_on(t, '.') == seq![x]);
        assert(split_on(t, '.')[0] == x);
    } else {
        let p = pow10(d.scale as nat);
        lemma_pow10_monotone(1, d.scale as nat);
        lemma_fundamental_div_mod(m as int, 10);
        let ints = u64_digits(m / p);
        let fracs = frac_digits(m % p, d.scale as nat);
        lemma_u64_digits(m / p);
        lemma_frac_digits(m % p, d.scale as nat);
        let x = ints + seq!['.'] + fracs;
        if d.negative {
            assert(s == seq!['-'] + x);
            assert(s[0] == '-');
            assert(s.drop_first() =~= x);
        } else {
            assert(s =~= x);
            assert(s[0] == ints[0]);
            assert(is_digit(s[0]));
        }
        let t = if d.negative { s.drop_first() } else { s };
        assert(t == x);
        assert(!ints.contains('.')) by {
            assert(forall|i: int| 0 <= i < ints.len()
                ==> is_digit(#[trigger] ints[i]) && ints[i] != '.');
        }
        assert(!fracs.contains('.')) by {
            assert(forall|i: int| 0 <= i < fracs.len()
                ==> is_digit(#[trigger] fracs[i]) && fracs[i] != '.');
        }
        lemma_split_join(seq![ints, fracs], '.');
        assert(join_with(seq![ints, fracs], '.')
            == ints + seq!['.'] + join_with(seq![fracs], '.')) by {
            assert(seq![ints, fracs].drop_first() =~= seq![fracs]);
        }
        assert(join_with(seq![ints, fracs], '.') =~= x);
        assert(split_on(t, '.') == seq![ints, fracs]);
        let parts = split_on(t, '.');
        assert(parts.len() == 2);
        assert(parts[0] == ints && parts[1] == fracs);
        let cat = ints + fracs;
        lemma_digits_val_append(ints, fracs);
        assert(digits_val(cat) == (m / p) * p + m % p) by {
            assert(pow10(fracs.len()) == p);
        }
        assert((m / p) * p + m % p == m) by {
            lemma_fundamental_div_mod(m as int, p as int);
        }
        assert(all_digits(cat)) by {
            assert(forall|i: int| 0 <= i < cat.len() ==> is_digit(#[trigger] cat[i])) by {
                assert(forall|i: int| 0 <= i < ints.len() ==> #[trigger] cat[i] == ints[i]);
                assert(forall|i: int| ints.len() <= i < cat.len()
                    ==> #[trigger] cat[i] == fracs[i - ints.len()]);
            }
        }
        assert(fracs.len() == d.scale as nat);
        assert(parse_decimal_spec(s) == Some(d));
    }
}

} // verus!

