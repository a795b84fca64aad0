//! App versions: `YYYY.N` (stable) and `YYYY.N-betaB` (beta), their textual
//! form and their order.
use std::cmp::Ordering;
use vstd::prelude::*;

verus! {

/// A released version of the app.
#[derive(Debug, Clone, Copy, PartialEq, Eq, Structural)]
pub enum AppVersion {
    /// `Stable(year, serial)`, written `YYYY.N`.
    Stable(u32, u32),
    /// `Beta(year, serial, beta)`, written `YYYY.N-betaB`.
    Beta(u32, u32, u32),
}

pub open spec fn is_digit(c: char) -> bool {
    48 <= (c as u32) && (c as u32) <= 57
}

pub open spec fn digit_value(c: char) -> nat {
    ((c as u32) - 48) as nat
}

pub open spec fn all_digits(s: Seq<char>) -> bool {
    forall|i: int| 0 <= i < s.len() ==> is_digit(#[trigger] s[i])
}

/// The number written by the decimal digits `s` (most significant first).
pub open spec fn digits_value(s: Seq<char>) -> nat
    decreases s.len(),
{
    if s.len() == 0 {
        0
    } else {
        digits_value(s.drop_last()) * 10 + digit_value(s.last())
    }
}

/// The value of a non-empty run of digits, where it fits in a `u32`.
pub open spec fn u32_of_digits(s: Seq<char>) -> Option<u32> {
    if s.len() > 0 && all_digits(s) && digits_value(s) <= u32::MAX {
        Some(digits_value(s) as u32)
    } else {
        None
    }
}

/// How many digits `s` starts with.
pub open spec fn leading_digits(s: Seq<char>) -> nat
    decreases s.len(),
{
    if s.len() > 0 && is_digit(s[0]) {
        1 + leading_digits(s.drop_first())
    } else {
        0
    }
}

pub open spec fn beta_marker() -> Seq<char> {
    seq!['-', 'b', 'e', 't', 'a']
}

/// What `YYYY.N` or `YYYY.N-betaB` names, with four digits of year and at
/// least one digit in each other number; `None` for any other text and for
/// numbers that do not fit in a `u32`.
pub open spec fn parse_version(s: Seq<char>) -> Option<AppVersion> {
    if s.len() < 6 || s[4] != '.' {
        None
    } else {
        let rest = s.skip(5);
        let k = leading_digits(rest) as int;
        match u32_of_digits(s.take(4)) {
            None => None,
            Some(year) => if k == rest.len() {
                match u32_of_digits(rest) {
                    Some(serial) => Some(AppVersion::Stable(year, serial)),
                    None => None,
                }
            } else if rest.len() > k + 5 && rest.subrange(k, k + 5) == beta_marker() {
                match (u32_of_digits(rest.take(k)), u32_of_digits(rest.skip(k + 5))) {
                    (Some(serial), Some(beta)) => Some(AppVersion::Beta(year, serial, beta)),
                    _ => None,
                }
            } else {
                None
            },
        }
    }
}

pub open spec fn digit_char(d: nat) -> char {
    seq!['0', '1', '2', '3', '4', '5', '6', '7', '8', '9'][d as int]
}

/// The decimal digits of `n`, without leading zeros.
pub open spec fn decimal(n: nat) -> Seq<char>
    decreases n,
{
    if n < 10 {
        seq![digit_char(n)]
    } else {
        decimal(n / 10).push(digit_char(n % 10))
    }
}

/// The text of a version: `YYYY.N` or `YYYY.N-betaB`.
pub open spec fn version_text(v: AppVersion) -> Seq<char> {
    match v {
        AppVersion::Stable(year, serial) => decimal(year as nat) + seq!['.'] + decimal(
            serial as nat,
        ),
        AppVersion::Beta(year, serial, beta) => decimal(year as nat) + seq!['.'] + decimal(
            serial as nat,
        ) + beta_marker() + decimal(beta as nat),
    }
}

proof fn lemma_digits_value_prefix(q: Seq<char>, n: int)
    requires
        0 <= n <= q.len(),
    ensures
        digits_value(q.take(n)) <= digits_value(q),
    decreases q.len(),
{
    if n < q.len() {
        lemma_digits_value_prefix(q.drop_last(), n);
        assert(q.drop_last().take(n) =~= q.take(n));
    } else {
        assert(q.take(n) =~= q);
    }
}

/// Reads the digits `s[start..end]` as a `u32`.
fn parse_digits(s: &str, start: usize, end: usize) -> (r: Option<u32>)
    requires
        start < end <= s@.len(),
        all_digits(s@.subrange(start as int, end as int)),
    ensures
        r == u32_of_digits(s@.subrange(start as int, end as int)),
{
    let ghost full = s@.subrange(start as int, end as int);
    let mut acc: u64 = 0;
    let mut i: usize = start;
    while i < end
        invariant
            start <= i <= end,
            end <= s@.len(),
            full == s@.subrange(start as int, end as int),
            all_digits(full),
            acc == digits_value(s@.subrange(start as int, i as int)),
            acc <= u32::MAX,
        decreases end - i,
    {
        let c = s.get_char(i);
        assert(full[i - start] == c);
        assert(is_digit(c));
        let d = (c as u32 - 48) as u64;
        proof {
            assert(s@.subrange(start as int, i + 1).drop_last() =~= s@.subrange(start as int, i as int));
        }
        acc = acc * 10 + d;
        i = i + 1;
        if acc > 0xffff_ffff {
            proof {
                assert(full.take(i - start) =~= s@.subrange(start as int, i as int));
                lemma_digits_value_prefix(full, i - start);
            }
            return None;
        }
    }
    assert(s@.subrange(start as int, i as int) =~= full);
    Some(acc as u32)
}

proof fn lemma_leading_digits(s: Seq<char>, k: int)
    requires
        0 <= k <= s.len(),
        all_digits(s.take(k)),
        k == s.len() || !is_digit(s[k]),
    ensures
        leading_digits(s) == k,
    decreases k,
{
    if k > 0 {
        assert(s.take(k)[0] == s[0]);
        let t = s.drop_first();
        assert forall|i: int| 0 <= i < k - 1 implies is_digit(#[trigger] t.take(k - 1)[i]) by {
            assert(t.take(k - 1)[i] == s.take(k)[i + 1]);
        }
        if k < s.len() {
            assert(t[k - 1] == s[k]);
        }
        lemma_leading_digits(t, k - 1);
    }
}

fn is_digit_char(c: char) -> (r: bool)
    ensures
        r == is_digit(c),
{
    (c as u32) >= 48 && (c as u32) <= 57
}

/// Whether `s[start..end]` is made of digits only.
fn digits_between(s: &str, start: usize, end: usize) -> (r: bool)
    requires
        start <= end <= s@.len(),
    ensures
        r == all_digits(s@.subrange(start as int, end as int)),
{
    let mut i: usize = start;
    while i < end
        invariant
            start <= i <= end <= s@.len(),
            all_digits(s@.subrange(start as int, i as int)),
        decreases end - i,
    {
        let c = s.get_char(i);
        if !is_digit_char(c) {
            assert(s@.subrange(start as int, end as int)[i - start] == c);
            return false;
        }
        assert forall|j: int| 0 <= j < i + 1 - start implies is_digit(
            #[trigger] s@.subrange(start as int, i + 1)[j],
        ) by {
            if j < i - start {
                assert(s@.subrange(start as int, i + 1)[j] == s@.subrange(start as int, i as int)[j]);
            }
        }
        i = i + 1;
    }
    true
}

/// Reads `s[start..end]` as a number, where it is a non-empty run of digits
/// that fits in a `u32`.
fn number_between(s: &str, start: usize, end: usize) -> (r: Option<u32>)
    requires
        start <= end <= s@.len(),
    ensures
        r == u32_of_digits(s@.subrange(start as int, end as int)),
{
    if start < end && digits_between(s, start, end) {
        parse_digits(s, start, end)
    } else {
        None
    }
}

/// Whether `s[at..at + 5]` is `-beta`.
fn beta_marker_at(s: &str, at: usize) -> (r: bool)
    requires
        at + 5 <= s@.len() <= usize::MAX,
    ensures
        r == (s@.subrange(at as int, at + 5) == beta_marker()),
{
    let ok = s.get_char(at) == '-' && s.get_char(at + 1) == 'b' && s.get_char(at + 2) == 'e'
        && s.get_char(at + 3) == 't' && s.get_char(at + 4) == 'a';
    if ok {
        assert(s@.subrange(at as int, at + 5) =~= beta_marker());
    } else {
        proof {
            if s@.subrange(at as int, at + 5) == beta_marker() {
            assert(s@.subrange(at as int, at + 5)[0] == s@[at as int]);
            assert(s@.subrange(at as int, at + 5)[1] == s@[at + 1]);
            assert(s@.subrange(at as int, at + 5)[2] == s@[at + 2]);
            assert(s@.subrange(at as int, at + 5)[3] == s@[at + 3]);
            assert(s@.subrange(at as int, at + 5)[4] == s@[at + 4]);
            }
        }
    }
    ok
}

impl AppVersion {
    /// Parses `YYYY.N` or `YYYY.N-betaB`; any other text gives `None`.
    pub fn from_str(version: &str) -> (r: Option<AppVersion>)
        ensures
            r == parse_version(version@),
    {
        let len = version.unicode_len();
        if len < 6 || version.get_char(4) != '.' {
            return None;
        }
        let ghost s = version@;
        let ghost rest = s.skip(5);
        assert(s.subrange(0, 4) =~= s.take(4));
        let year = match number_between(version, 0, 4) {
            Some(y) => y,
            None => return None,
        };
        let mut i: usize = 5;
        while i < len && is_digit_char(version.get_char(i))
            invariant
                5 <= i <= len,
                len == s.len(),
                s == version@,
                all_digits(s.subrange(5, i as int)),
            decreases len - i,
        {
            assert forall|j: int| 0 <= j < i + 1 - 5 implies is_digit(
                #[trigger] s.subrange(5, i + 1)[j],
            ) by {
                if j < i - 5 {
                    assert(s.subrange(5, i + 1)[j] == s.subrange(5, i as int)[j]);
                }
            }
            i = i + 1;
        }
        proof {
            let k = i - 5;
            assert(rest.take(k) =~= s.subrange(5, i as int));
            if i < len {
                assert(rest[k] == s[i as int]);
            }
            lemma_leading_digits(rest, k);
        }
        if i == len {
            assert(rest =~= s.subrange(5, len as int));
            match number_between(version, 5, len) {
                Some(serial) => Some(AppVersion::Stable(year, serial)),
                None => None,
            }
        } else if len - i > 5 && beta_marker_at(version, i) {
            assert(rest.subrange(i - 5, i as int) =~= s.subrange(i as int, i + 5));
            assert(rest.take(i - 5) =~= s.subrange(5, i as int));
            assert(rest.skip(i as int) =~= s.subrange(i + 5, len as int));
            let serial = number_between(version, 5, i);
            let beta = number_between(version, i + 5, len);
            match (serial, beta) {
                (Some(serial), Some(beta)) => Some(AppVersion::Beta(year, serial, beta)),
                _ => None,
            }
        } else {
            proof {
                if len - i > 5 {
                    assert(rest.subrange(i - 5, i as int) =~= s.subrange(i as int, i + 5));
                }
            }
            None
        }
    }
}

fn digit_text(d: u32) -> (r: &'static str)
    requires
        d < 10,
    ensures
        r@ == seq![digit_char(d as nat)],
{
    proof {
        reveal_strlit("0");
        reveal_strlit("1");
        reveal_strlit("2");
        reveal_strlit("3");
        reveal_strlit("4");
        reveal_strlit("5");
        reveal_strlit("6");
        reveal_strlit("7");
        reveal_strlit("8");
        reveal_strlit("9");
    }
    let r = if d == 0 {
        "0"
    } else if d == 1 {
        "1"
    } else if d == 2 {
        "2"
    } else if d == 3 {
        "3"
    } else if d == 4 {
        "4"
    } else if d == 5 {
        "5"
    } else if d == 6 {
        "6"
    } else if d == 7 {
        "7"
    } else if d == 8 {
        "8"
    } else {
        "9"
    };
    assert(r@ =~= seq![digit_char(d as nat)]);
    r
}

/// Appends the decimal digits of `n` to `out`.
fn push_decimal(out: &mut String, n: u32)
    ensures
        final(out)@ == old(out)@ + decimal(n as nat),
    decreases n,
{
    if n >= 10 {
        push_decimal(out, n / 10);
    }
    out.append(digit_text(n % 10));
    assert(out@ =~= old(out)@ + decimal(n as nat));
}

impl AppVersion {
    /// The text of this version: `YYYY.N` or `YYYY.N-betaB`.
    pub fn to_string(&self) -> (r: String)
        ensures
            r@ == version_text(*self),
    {
        let mut out = String::new();
        proof {
            reveal_strlit(".");
            reveal_strlit("-beta");
        }
        match *self {
            AppVersion::Stable(year, serial) => {
                push_decimal(&mut out, year);
                out.append(".");
                push_decimal(&mut out, serial);
            },
            AppVersion::Beta(year, serial, beta) => {
                push_decimal(&mut out, year);
                out.append(".");
                push_decimal(&mut out, serial);
                out.append("-beta");
                assert("-beta"@ =~= beta_marker());
                push_decimal(&mut out, beta);
            },
        }
        assert(out@ =~= version_text(*self));
        out
    }
}

pub open spec fn cmp_num(a: u32, b: u32) -> Ordering {
    if a < b {
        Ordering::Less
    } else if a > b {
        Ordering::Greater
    } else {
        Ordering::Equal
    }
}

pub open spec fn year_of(v: AppVersion) -> u32 {
    match v {
        AppVersion::Stable(year, _) => year,
        AppVersion::Beta(year, _, _) => year,
    }
}

pub open spec fn serial_of(v: AppVersion) -> u32 {
    match v {
        AppVersion::Stable(_, serial) => serial,
        AppVersion::Beta(_, serial, _) => serial,
    }
}

/// Versions are ordered by year, then by serial; of the same year and
/// serial, the stable release is above every beta, and betas go by their
/// beta number.
pub open spec fn version_cmp(a: AppVersion, b: AppVersion) -> Ordering {
    if year_of(a) != year_of(b) {
        cmp_num(year_of(a), year_of(b))
    } else if serial_of(a) != serial_of(b) {
        cmp_num(serial_of(a), serial_of(b))
    } else {
        match (a, b) {
            (AppVersion::Stable(..), AppVersion::Stable(..)) => Ordering::Equal,
            (AppVersion::Stable(..), AppVersion::Beta(..)) => Ordering::Greater,
            (AppVersion::Beta(..), AppVersion::Stable(..)) => Ordering::Less,
            (AppVersion::Beta(_, _, x), AppVersion::Beta(_, _, y)) => cmp_num(x, y),
        }
    }
}

fn cmp_u32(a: u32, b: u32) -> (r: Ordering)
    ensures
        r == cmp_num(a, b),
{
    if a < b {
        Ordering::Less
    } else if a > b {
        Ordering::Greater
    } else {
        Ordering::Equal
    }
}

impl AppVersion {
    pub fn year(&self) -> (r: u32)
        ensures
            r == year_of(*self),
    {
        match *self {
            AppVersion::Stable(year, _) => year,
            AppVersion::Beta(year, _, _) => year,
        }
    }

    pub fn serial(&self) -> (r: u32)
        ensures
            r == serial_of(*self),
    {
        match *self {
            AppVersion::Stable(_, serial) => serial,
            AppVersion::Beta(_, serial, _) => serial,
        }
    }

    /// Compares two versions in release order.
    pub fn cmp(&self, other: &AppVersion) -> (r: Ordering)
        ensures
            r == version_cmp(*self, *other),
    {
        if self.year() != other.year() {
            cmp_u32(self.year(), other.year())
        } else if self.serial() != other.serial() {
            cmp_u32(self.serial(), other.serial())
        } else {
            match (*self, *other) {
                (AppVersion::Stable(..), AppVersion::Stable(..)) => Ordering::Equal,
                (AppVersion::Stable(..), AppVersion::Beta(..)) => Ordering::Greater,
                (AppVersion::Beta(..), AppVersion::Stable(..)) => Ordering::Less,
                (AppVersion::Beta(_, _, x), AppVersion::Beta(_, _, y)) => cmp_u32(x, y),
            }
        }
    }
}

impl PartialOrd for AppVersion {
    fn partial_cmp(&self, other: &AppVersion) -> (r: Option<Ordering>)
        ensures
            r == Some(version_cmp(*self, *other)),
    {
        Some(self.cmp(other))
    }
}

impl vstd::std_specs::cmp::PartialOrdSpecImpl for AppVersion {
    open spec fn obeys_partial_cmp_spec() -> bool {
        true
    }

    open spec fn partial_cmp_spec(&self, other: &AppVersion) -> Option<Ordering> {
        Some(version_cmp(*self, *other))
    }
}

proof fn lemma_digit_char(d: nat)
    requires
        d < 10,
    ensures
        is_digit(digit_char(d)),
        digit_value(digit_char(d)) == d,
{
    let t = seq!['0', '1', '2', '3', '4', '5', '6', '7', '8', '9'];
    assert(t[0] == '0' && t[1] == '1' && t[2] == '2' && t[3] == '3' && t[4] == '4');
    assert(t[5] == '5' && t[6] == '6' && t[7] == '7' && t[8] == '8' && t[9] == '9');
}

proof fn lemma_decimal(n: nat)
    ensures
        decimal(n).len() >= 1,
        all_digits(decimal(n)),
        digits_value(decimal(n)) == n,
        n <= u32::MAX ==> u32_of_digits(decimal(n)) == Some(n as u32),
    decreases n,
{
    if n < 10 {
        lemma_digit_char(n);
        assert(decimal(n).drop_last() =~= Seq::<char>::empty());
        assert(digits_value(Seq::<char>::empty()) == 0);
        assert(decimal(n).last() == digit_char(n));
        assert(digits_value(decimal(n)) == digit_value(digit_char(n)));
    } else {
        lemma_decimal(n / 10);
        lemma_digit_char(n % 10);
        let d = decimal(n);
        assert(d.drop_last() =~= decimal(n / 10));
        assert(d.last() == digit_char(n % 10));
        assert(digits_value(d) == digits_value(decimal(n / 10)) * 10 + digit_value(
            digit_char(n % 10),
        ));
        assert(n == (n / 10) * 10 + n % 10);
        assert forall|i: int| 0 <= i < d.len() implies is_digit(#[trigger] d[i]) by {
            if i < d.len() - 1 {
                assert(d[i] == decimal(n / 10)[i]);
            }
        }
    }
}

proof fn lemma_decimal_four_digits(y: nat)
    requires
        1000 <= y <= 9999,
    ensures
        decimal(y).len() == 4,
{
    assert(decimal(y / 1000).len() == 1);
    assert(decimal(y / 100).len() == 2);
    assert(decimal(y / 10).len() == 3);
}

proof fn lemma_leading_digits_concat(t: Seq<char>, u: Seq<char>)
    requires
        all_digits(t),
        u.len() == 0 || !is_digit(u[0]),
    ensures
        leading_digits(t + u) == t.len(),
{
    assert((t + u).take(t.len() as int) =~= t);
    if u.len() > 0 {
        assert((t + u)[t.len() as int] == u[0]);
    }
    lemma_leading_digits(t + u, t.len() as int);
}

/// Reading back the text of a version gives that version, for every year
/// written with four digits.
pub proof fn lemma_version_text_round_trip(v: AppVersion)
    requires
        1000 <= year_of(v) <= 9999,
    ensures
        parse_version(version_text(v)) == Some(v),
{
    let y = decimal(year_of(v) as nat);
    lemma_decimal(year_of(v) as nat);
    lemma_decimal_four_digits(year_of(v) as nat);
    let s = version_text(v);
    match v {
        AppVersion::Stable(year, serial) => {
            let n = decimal(serial as nat);
            lemma_decimal(serial as nat);
            assert(s[4] == '.');
            assert(s.take(4) =~= y);
            assert(s.skip(5) =~= n);
            lemma_leading_digits_concat(n, Seq::<char>::empty());
            assert(n + Seq::<char>::empty() =~= n);
        },
        AppVersion::Beta(year, serial, beta) => {
            let n = decimal(serial as nat);
            let b = decimal(beta as nat);
            lemma_decimal(serial as nat);
            lemma_decimal(beta as nat);
            assert(s[4] == '.');
            assert(s.take(4) =~= y);
            let rest = s.skip(5);
            assert(rest =~= n + (beta_marker() + b));
            assert(!is_digit((beta_marker() + b)[0]));
            lemma_leading_digits_concat(n, beta_marker() + b);
            let k = n.len() as int;
            assert(rest.subrange(k, k + 5) =~= beta_marker());
            assert(rest.take(k) =~= n);
            assert(rest.skip(k + 5) =~= b);
        },
    }
}

} // verus!
