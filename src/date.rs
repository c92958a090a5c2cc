//! Compiler commit dates in `YYYY-MM-DD` form.

use vstd::prelude::*;

verus! {

/// A compiler commit date, ordered by (year, month, day).
#[derive(Clone, Copy, Debug, PartialEq, Eq, Structural)]
pub struct CommitDate {
    pub year: u32,
    pub month: u32,
    pub day: u32,
}

pub open spec fn is_digit(c: char) -> bool {
    '0' <= c && c <= '9'
}

pub open spec fn digit_value(c: char) -> int {
    c as int - '0' as int
}

pub open spec fn all_digits(s: Seq<char>) -> bool {
    forall|i: int| 0 <= i < s.len() ==> is_digit(#[trigger] s[i])
}

/// The number written by a string of decimal digits.
pub open spec fn digits_value(s: Seq<char>) -> int
    decreases s.len(),
{
    if s.len() == 0 {
        0
    } else {
        digits_value(s.drop_last()) * 10 + digit_value(s.last())
    }
}

pub open spec fn digit_chars() -> Seq<char> {
    seq!['0', '1', '2', '3', '4', '5', '6', '7', '8', '9']
}

pub open spec fn digit_char(d: int) -> char {
    digit_chars()[d]
}

/// The last `width` decimal digits of `v`, padded with zeros.
pub open spec fn padded(v: int, width: nat) -> Seq<char>
    decreases width,
{
    if width == 0 {
        Seq::empty()
    } else {
        padded(v / 10, (width - 1) as nat).push(digit_char(v % 10))
    }
}

/// `YYYY-MM-DD`: four digits, a dash, two digits, a dash, two digits.
pub open spec fn is_date_text(s: Seq<char>) -> bool {
    &&& s.len() == 10
    &&& s[4] == '-'
    &&& s[7] == '-'
    &&& all_digits(s.subrange(0, 4))
    &&& all_digits(s.subrange(5, 7))
    &&& all_digits(s.subrange(8, 10))
}

/// The date that a `YYYY-MM-DD` string names.
pub open spec fn date_of_text(s: Seq<char>) -> CommitDate {
    CommitDate {
        year: digits_value(s.subrange(0, 4)) as u32,
        month: digits_value(s.subrange(5, 7)) as u32,
        day: digits_value(s.subrange(8, 10)) as u32,
    }
}

impl CommitDate {
    /// Each field fits the width it is rendered in.
    pub open spec fn wf(self) -> bool {
        self.year < 10000 && self.month < 100 && self.day < 100
    }

    /// The canonical `YYYY-MM-DD` text of the date.
    pub open spec fn text(self) -> Seq<char> {
        padded(self.year as int, 4) + seq!['-'] + padded(self.month as int, 2) + seq!['-']
            + padded(self.day as int, 2)
    }

    /// Strictly earlier, comparing year, then month, then day.
    pub open spec fn earlier(self, other: CommitDate) -> bool {
        self.year < other.year || (self.year == other.year && (self.month < other.month || (
        self.month == other.month && self.day < other.day)))
    }

    /// Reads a `YYYY-MM-DD` string; anything else is refused.
    pub fn parse(date: &str) -> (r: Option<CommitDate>)
        ensures
            r.is_some() <==> is_date_text(date@),
            r.is_some() ==> r == Some(date_of_text(date@)) && r.unwrap().wf(),
    {
        let n = date.unicode_len();
        if n != 10 {
            return None;
        }
        if date.get_char(4) != '-' || date.get_char(7) != '-' {
            return None;
        }
        let year = match read_digits(date, 0, 4) {
            Some(v) => v,
            None => return None,
        };
        let month = match read_digits(date, 5, 7) {
            Some(v) => v,
            None => return None,
        };
        let day = match read_digits(date, 8, 10) {
            Some(v) => v,
            None => return None,
        };
        assert(pow10(4) == 10000 && pow10(2) == 100) by {
            reveal_with_fuel(pow10, 5);
        }
        Some(CommitDate { year, month, day })
    }

    /// The date as `YYYY-MM-DD`, each field padded with zeros.
    pub fn to_string(&self) -> (r: String)
        requires
            self.wf(),
        ensures
            r@ == self.text(),
    {
        assert(pow10(4) == 10000 && pow10(2) == 100) by {
            reveal_with_fuel(pow10, 5);
        }
        let mut out = String::new();
        push_padded(&mut out, self.year, 4);
        out.append("-");
        push_padded(&mut out, self.month, 2);
        out.append("-");
        push_padded(&mut out, self.day, 2);
        proof {
            reveal_strlit("-");
        }
        assert(out@ == self.text());
        out
    }

    /// Whether this date comes strictly before `other`.
    pub fn is_earlier_than(&self, other: &CommitDate) -> (r: bool)
        ensures
            r == self.earlier(*other),
    {
        self.year < other.year || (self.year == other.year && (self.month < other.month || (
        self.month == other.month && self.day < other.day)))
    }
}

/// Appends the last `width` decimal digits of `v`, padded with zeros.
fn push_padded(out: &mut String, v: u32, width: usize)
    requires
        width <= 4,
        v < pow10(width as nat),
    ensures
        final(out)@ == old(out)@ + padded(v as int, width as nat),
    decreases width,
{
    if width > 0 {
        let ghost p = pow10((width - 1) as nat);
        assert(v / 10 < p) by (nonlinear_arith)
            requires
                v < 10 * p,
                0 <= v,
        ;
        push_padded(out, v / 10, width - 1);
        out.append(digit_str(v % 10));
    }
}

/// The one-character string of a decimal digit.
fn digit_str(d: u32) -> (r: &'static str)
    requires
        d < 10,
    ensures
        r@ == seq![digit_char(d as int)],
{
    proof {
        reveal_strlit("0");
        reveal_strlit("1");
        reveal_strlit("2");
        reveal_strlit("3");
        reveal_strlit("4");
        reveal_strlit("5");
        reveal_strlit("6");
        reveal_strlit("7");
        reveal_strlit("8");
        reveal_strlit("9");
    }
    match d {
        0 => "0",
        1 => "1",
        2 => "2",
        3 => "3",
        4 => "4",
        5 => "5",
        6 => "6",
        7 => "7",
        8 => "8",
        _ => "9",
    }
}

proof fn lemma_digit_round_trip(c: char)
    requires
        is_digit(c),
    ensures
        digit_char(digit_value(c)) == c,
{
    let k = digit_value(c);
    assert(0 <= k < 10);
    assert(digit_chars()[k] as int == c as int);
}

proof fn lemma_padded_digits(t: Seq<char>)
    requires
        all_digits(t),
    ensures
        padded(digits_value(t), t.len()) == t,
    decreases t.len(),
{
    lemma_digits_bound(t);
    if t.len() > 0 {
        let p = t.drop_last();
        assert(all_digits(p)) by {
            assert forall|i: int| 0 <= i < p.len() implies is_digit(#[trigger] p[i]) by {
                assert(p[i] == t[i]);
            }
        }
        lemma_padded_digits(p);
        lemma_digits_bound(p);
        assert(is_digit(t[t.len() - 1]));
        lemma_digit_round_trip(t.last());
        let a = digits_value(p);
        let d = digit_value(t.last());
        let v = digits_value(t);
        assert(v / 10 == a && v % 10 == d) by (nonlinear_arith)
            requires
                v == a * 10 + d,
                0 <= a,
                0 <= d < 10,
        ;
        assert(t == p.push(t.last()));
    }
}

/// Rendering a parsed date gives back the text it was parsed from.
pub proof fn lemma_parse_then_render(s: Seq<char>)
    requires
        is_date_text(s),
    ensures
        date_of_text(s).wf(),
        date_of_text(s).text() == s,
{
    let y = s.subrange(0, 4);
    let m = s.subrange(5, 7);
    let d = s.subrange(8, 10);
    lemma_digits_bound(y);
    lemma_digits_bound(m);
    lemma_digits_bound(d);
    assert(pow10(4) == 10000 && pow10(2) == 100) by {
        reveal_with_fuel(pow10, 5);
    }
    lemma_padded_digits(y);
    lemma_padded_digits(m);
    lemma_padded_digits(d);
    assert(s == y + seq!['-'] + m + seq!['-'] + d);
}

proof fn lemma_digits_bound(s: Seq<char>)
    requires
        all_digits(s),
    ensures
        0 <= digits_value(s) < pow10(s.len()),
    decreases s.len(),
{
    if s.len() > 0 {
        let p = s.drop_last();
        assert(all_digits(p)) by {
            assert forall|i: int| 0 <= i < p.len() implies is_digit(#[trigger] p[i]) by {
                assert(p[i] == s[i]);
            }
        }
        lemma_digits_bound(p);
        assert(is_digit(s[s.len() - 1]));
        let a = digits_value(p);
        let d = digit_value(s.last());
        let b = pow10(p.len());
        assert(0 <= a * 10 + d < b * 10) by (nonlinear_arith)
            requires
                0 <= a < b,
                0 <= d < 10,
        ;
    }
}

pub open spec fn pow10(n: nat) -> int
    decreases n,
{
    if n == 0 {
        1
    } else {
        10 * pow10((n - 1) as nat)
    }
}

/// Reads the decimal digits of `s` in `[from, to)`, at most four of them.
fn read_digits(s: &str, from: usize, to: usize) -> (r: Option<u32>)
    requires
        from <= to <= s@.len(),
        to - from <= 4,
    ensures
        r.is_some() <==> all_digits(s@.subrange(from as int, to as int)),
        r.is_some() ==> r.unwrap() as int == digits_value(s@.subrange(from as int, to as int)),
        r.is_some() ==> r.unwrap() < pow10((to - from) as nat),
{
    let mut v: u32 = 0;
    let mut i: usize = from;
    while i < to
        invariant
            from <= i <= to <= s@.len(),
            to - from <= 4,
            all_digits(s@.subrange(from as int, i as int)),
            v as int == digits_value(s@.subrange(from as int, i as int)),
            v < pow10((i - from) as nat),
        decreases to - i,
    {
        let c = s.get_char(i);
        if c < '0' || c > '9' {
            assert(!all_digits(s@.subrange(from as int, to as int))) by {
                assert(s@.subrange(from as int, to as int)[i - from] == c);
            }
            return None;
        }
        let ghost prev = s@.subrange(from as int, i as int);
        let ghost next = s@.subrange(from as int, i + 1);
        assert(next.drop_last() == prev);
        assert(next.last() == c);
        assert(pow10((i - from) as nat) <= 1000) by {
            reveal_with_fuel(pow10, 4);
        }
        let d: u32 = (c as u32) - ('0' as u32);
        v = v * 10 + d;
        i = i + 1;
        assert(all_digits(next)) by {
            assert forall|k: int| 0 <= k < next.len() implies is_digit(#[trigger] next[k]) by {
                if k < prev.len() {
                    assert(next[k] == prev[k]);
                }
            }
        }
    }
    Some(v)
}

} // verus!
