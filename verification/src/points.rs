use vstd::prelude::*;

use crate::strutil::{
    all_digits, dec_rep, dec_val, digit, digit_char, digit_val, is_digit, lemma_dec_rep_digits,
    lemma_dec_val_of_rep, push_char, u64_to_string,
};

verus! {

/// Grading points, a non-negative quantity constrained to multiples of 0.25.
/// Stored as an exact integer count of hundredths of a point, so that
/// arithmetic and equality never suffer from rounding.
#[derive(Debug, Clone, Copy, PartialEq, Eq, Structural, Hash)]
pub struct Points {
    hundredths: u64,
}

impl View for Points {
    type V = nat;

    /// A `Points` value is abstractly its count of hundredths of a point.
    closed spec fn view(&self) -> nat {
        self.hundredths as nat
    }
}

/// The sum of two point values, counted in hundredths.
pub open spec fn points_sum(a: nat, b: nat) -> nat {
    a + b
}

/// The difference of two point values, counted in hundredths.
pub open spec fn points_diff(a: nat, b: nat) -> nat
    recommends
        b <= a,
{
    (a - b) as nat
}

/// The two-decimal rendering of a count of hundredths: the whole part in
/// decimal, a dot, and exactly two fraction digits.
pub open spec fn points_rendered(h: nat) -> Seq<char> {
    dec_rep(h / 100) + seq!['.'] + seq![digit((h % 100) / 10), digit(h % 100 % 10)]
}

/// The index of the first occurrence of `c` in `s`, or a negative value
/// when `c` does not occur.
pub open spec fn find_char(s: Seq<char>, c: char) -> int
    decreases s.len(),
{
    if s.len() == 0 {
        -1
    } else if s[0] == c {
        0
    } else {
        let r = find_char(s.skip(1), c);
        if r < 0 {
            -1
        } else {
            r + 1
        }
    }
}

/// The count of hundredths denoted by a decimal string: digits, optionally
/// followed by a dot and one or two fraction digits. `None` when the string
/// has no such shape.
pub open spec fn points_parsed(s: Seq<char>) -> Option<nat> {
    let i = find_char(s, '.');
    if i < 0 {
        if s.len() > 0 && all_digits(s) {
            Some(dec_val(s) * 100)
        } else {
            None
        }
    } else {
        let ip = s.subrange(0, i);
        let fp = s.subrange(i + 1, s.len() as int);
        if ip.len() > 0 && all_digits(ip) && 1 <= fp.len() <= 2 && all_digits(fp) {
            Some(dec_val(ip) * 100 + dec_val(fp) * (if fp.len() == 1 { 10nat } else { 1nat }))
        } else {
            None
        }
    }
}

impl Points {
    /// A value is well formed when it is a whole number of quarter points.
    pub open spec fn wf(&self) -> bool {
        self@ % 25 == 0
    }

    /// Points worth the given whole number of points.
    pub fn new(points: u64) -> (r: Self)
        requires
            points <= u64::MAX / 100,
        ensures
            r@ == points * 100,
            r.wf(),
    {
        proof {
            assert((points * 100) % 25 == 0) by (nonlinear_arith);
        }
        Self { hundredths: points * 100 }
    }

    /// Points from a raw count of hundredths; `None` when the count is not
    /// a multiple of 25 (not a quarter-point quantity).
    pub fn from_hundredths(hundredths: u64) -> (r: Option<Self>)
        ensures
            match r {
                Some(p) => p@ == hundredths && p.wf(),
                None => hundredths % 25 != 0,
            },
            hundredths % 25 == 0 ==> r is Some,
    {
        if hundredths % 25 == 0 {
            Some(Self { hundredths })
        } else {
            None
        }
    }

    /// The exact value as a count of hundredths of a point.
    pub fn hundredths(&self) -> (r: u64)
        ensures
            r == self@,
    {
        self.hundredths
    }

    /// Whether this value is no larger than `other`.
    pub fn le(&self, other: &Points) -> (r: bool)
        ensures
            r == (self@ <= other@),
    {
        self.hundredths <= other.hundredths
    }

    /// The exact sum of two point values.
    pub fn add(self, rhs: Points) -> (r: Points)
        requires
            self@ + rhs@ <= u64::MAX,
        ensures
            r@ == points_sum(self@, rhs@),
            self.wf() && rhs.wf() ==> r.wf(),
    {
        proof {
            if self.wf() && rhs.wf() {
                vstd::arithmetic::div_mod::lemma_add_mod_noop(
                    self.hundredths as int,
                    rhs.hundredths as int,
                    25,
                );
            }
        }
        Points { hundredths: self.hundredths + rhs.hundredths }
    }

    /// The exact difference of two point values; taking away more than is
    /// held is a caller error.
    pub fn sub(self, rhs: Points) -> (r: Points)
        requires
            rhs@ <= self@,
        ensures
            r@ == points_diff(self@, rhs@),
            self.wf() && rhs.wf() ==> r.wf(),
    {
        proof {
            if self.wf() && rhs.wf() {
                vstd::arithmetic::div_mod::lemma_sub_mod_noop(
                    self.hundredths as int,
                    rhs.hundredths as int,
                    25,
                );
            }
        }
        Points { hundredths: self.hundredths - rhs.hundredths }
    }

    /// The difference of two point values, stopping at zero.
    pub fn saturating_sub(self, rhs: Points) -> (r: Points)
        ensures
            r@ == if rhs@ <= self@ {
                points_diff(self@, rhs@)
            } else {
                0nat
            },
            self.wf() && rhs.wf() ==> r.wf(),
    {
        if rhs.hundredths <= self.hundredths {
            self.sub(rhs)
        } else {
            Points { hundredths: 0 }
        }
    }

    /// Renders the value with exactly two decimal places.
    pub fn render(&self) -> (s: String)
        ensures
            s@ == points_rendered(self@),
    {
        let mut s = u64_to_string(self.hundredths / 100);
        push_char(&mut s, '.');
        push_char(&mut s, digit_char(self.hundredths % 100 / 10));
        push_char(&mut s, digit_char(self.hundredths % 100 % 10));
        proof {
            assert(s@ =~= points_rendered(self@));
        }
        s
    }

    /// Reads a decimal points value, accepting a whole number or one with
    /// one or two fraction digits; the value must be a quarter-point
    /// multiple and fit the representation.
    pub fn parse(s: &str) -> (r: Option<Points>)
        ensures
            match points_parsed(s@) {
                Some(v) => if v <= u64::MAX && v % 25 == 0 {
                    r matches Some(p) && p@ == v && p.wf()
                } else {
                    r is None
                },
                None => r is None,
            },
    {
        let n = s.unicode_len();
        // locate the first dot
        let mut dot: usize = n;
        let mut i: usize = 0;
        while i < n
            invariant
                n == s@.len(),
                0 <= i <= n,
                dot <= n,
                dot == n ==> forall|k: int| 0 <= k < i ==> s@[k] != '.',
                dot < n ==> s@[dot as int] == '.' && dot <= i && forall|k: int|
                    0 <= k < dot ==> s@[k] != '.',
            decreases n - i,
        {
            if dot == n && s.get_char(i) == '.' {
                dot = i;
            }
            i = i + 1;
        }
        proof {
            if dot == n {
                lemma_find_char_absent(s@, '.');
            } else {
                lemma_find_char_at(s@, '.', dot as int);
            }
        }
        if dot == n {
            // a whole number of points
            proof {
                assert(s@.subrange(0, n as int) =~= s@);
                assert(dec_val(s@) * 100 >= dec_val(s@)) by (nonlinear_arith);
            }
            match parse_digits(s, 0, n) {
                Some(v) => {
                    proof {
                        assert(s@.subrange(0, n as int) =~= s@);
                    }
                    if v <= u64::MAX / 100 {
                        Points::from_hundredths(v * 100)
                    } else {
                        proof {
                            assert(dec_val(s@) * 100 > u64::MAX) by (nonlinear_arith)
                                requires
                                    dec_val(s@) > u64::MAX / 100,
                            ;
                        }
                        None
                    }
                },
                None => None,
            }
        } else {
            let flen = n - dot - 1;
            if flen < 1 || flen > 2 {
                return None;
            }
            proof {
                lemma_dec_val_bound(s@.subrange(dot + 1, n as int));
                assert(dec_val(s@.subrange(0, dot as int)) * 100 >= dec_val(
                    s@.subrange(0, dot as int),
                )) by (nonlinear_arith);
            }
            let ip = parse_digits(s, 0, dot);
            let fp = parse_digits(s, dot + 1, n);
            match (ip, fp) {
                (Some(iv), Some(fv)) => {
                    // the fraction has at most two digits, so it is below 100
                    let frac: u64 = if flen == 1 {
                        fv * 10
                    } else {
                        fv
                    };
                    if iv <= u64::MAX / 100 {
                        proof {
                            assert(iv * 100 <= u64::MAX) by (nonlinear_arith)
                                requires
                                    iv <= u64::MAX / 100,
                            ;
                        }
                        let base = iv * 100;
                        if frac <= u64::MAX - base {
                            Points::from_hundredths(base + frac)
                        } else {
                            None
                        }
                    } else {
                        proof {
                            assert(iv * 100 > u64::MAX) by (nonlinear_arith)
                                requires
                                    iv > u64::MAX / 100,
                            ;
                        }
                        None
                    }
                },
                _ => None,
            }
        }
    }
}

/// The digits of a two-digit-or-shorter string denote a value below 100.
proof fn lemma_dec_val_bound(s: Seq<char>)
    ensures
        s.len() <= 1 ==> dec_val(s) <= 9,
        s.len() <= 2 ==> dec_val(s) <= 99,
{
    if s.len() == 1 {
        assert(dec_val(s) == dec_val(s.drop_last()) * 10 + digit_val(s.last()));
        assert(s.drop_last() =~= Seq::<char>::empty());
        assert(dec_val(s.drop_last()) == 0);
        assert(digit_val(s.last()) <= 9);
    } else if s.len() == 2 {
        let a = s.drop_last();
        assert(dec_val(s) == dec_val(a) * 10 + digit_val(s.last()));
        assert(dec_val(a) == dec_val(a.drop_last()) * 10 + digit_val(a.last()));
        assert(a.drop_last() =~= Seq::<char>::empty());
        assert(dec_val(a.drop_last()) == 0);
        assert(digit_val(a.last()) <= 9);
        assert(digit_val(s.last()) <= 9);
    }
}

/// When no position of `s` holds `c`, `find_char` reports no occurrence.
pub proof fn lemma_find_char_absent(s: Seq<char>, c: char)
    requires
        forall|k: int| 0 <= k < s.len() ==> s[k] != c,
    ensures
        find_char(s, c) < 0,
    decreases s.len(),
{
    if s.len() > 0 {
        lemma_find_char_absent(s.skip(1), c);
    }
}

/// `find_char` never reports a position past the end.
pub proof fn lemma_find_char_bound(s: Seq<char>, c: char)
    ensures
        find_char(s, c) < s.len(),
    decreases s.len(),
{
    if s.len() > 0 && s[0] != c {
        lemma_find_char_bound(s.skip(1), c);
    }
}

/// A reported occurrence holds the character, and nothing before it does.
pub proof fn lemma_find_char_is_first(s: Seq<char>, c: char)
    ensures
        find_char(s, c) >= 0 ==> 0 <= find_char(s, c) < s.len() && s[find_char(s, c)] == c
            && forall|k: int| 0 <= k < find_char(s, c) ==> s[k] != c,
    decreases s.len(),
{
    if s.len() > 0 && s[0] != c {
        lemma_find_char_is_first(s.skip(1), c);
        if find_char(s, c) >= 0 {
            let f = find_char(s.skip(1), c);
            assert(s[f + 1] == s.skip(1)[f]);
            assert(forall|k: int| 1 <= k < f + 1 ==> s[k] == s.skip(1)[k - 1]);
        }
    }
}

/// Some position of `s` holding `c` means `find_char` reports an
/// occurrence.
pub proof fn lemma_find_char_found(s: Seq<char>, c: char, i: int)
    requires
        0 <= i < s.len(),
        s[i] == c,
    ensures
        find_char(s, c) >= 0,
    decreases i,
{
    if s[0] != c {
        lemma_find_char_found(s.skip(1), c, i - 1);
    }
}

/// When position `i` holds the first `c`, `find_char` reports `i`.
proof fn lemma_find_char_at(s: Seq<char>, c: char, i: int)
    requires
        0 <= i < s.len(),
        s[i] == c,
        forall|k: int| 0 <= k < i ==> s[k] != c,
    ensures
        find_char(s, c) == i,
    decreases i,
{
    if i > 0 {
        lemma_find_char_at(s.skip(1), c, i - 1);
    }
}

/// Reads the digit characters of `s` between `from` and `to` as a decimal
/// value, reporting `None` on a non-digit, an empty range, or overflow past
/// what the reported bound admits.
pub(crate) fn parse_digits(s: &str, from: usize, to: usize) -> (r: Option<u64>)
    requires
        0 <= from <= to <= s@.len(),
    ensures
        ({
            let part = s@.subrange(from as int, to as int);
            match r {
                Some(v) => part.len() > 0 && all_digits(part) && v == dec_val(part),
                None => part.len() == 0 || !all_digits(part) || dec_val(part) > u64::MAX,
            }
        }),
{
    let ghost part = s@.subrange(from as int, to as int);
    if from == to {
        return None;
    }
    let mut acc: u64 = 0;
    let mut i: usize = from;
    while i < to
        invariant
            0 <= from <= i <= to <= s@.len(),
            part == s@.subrange(from as int, to as int),
            all_digits(part.subrange(0, i - from)),
            acc == dec_val(part.subrange(0, i - from)),
        decreases to - i,
    {
        let c = s.get_char(i);
        let d: u64;
        if c == '0' {
            d = 0;
        } else if c == '1' {
            d = 1;
        } else if c == '2' {
            d = 2;
        } else if c == '3' {
            d = 3;
        } else if c == '4' {
            d = 4;
        } else if c == '5' {
            d = 5;
        } else if c == '6' {
            d = 6;
        } else if c == '7' {
            d = 7;
        } else if c == '8' {
            d = 8;
        } else if c == '9' {
            d = 9;
        } else {
            proof {
                assert(part[i - from] == c);
                assert(!is_digit(c));
            }
            return None;
        }
        proof {
            assert(part[i - from] == c);
            assert(is_digit(c) && digit_val(c) == d);
        }
        if acc > (u64::MAX - d) / 10 {
            proof {
                let prefix = part.subrange(0, i - from + 1);
                assert(prefix.drop_last() =~= part.subrange(0, i - from));
                assert(dec_val(prefix) == acc * 10 + d);
                assert(acc * 10 + d > u64::MAX) by (nonlinear_arith)
                    requires
                        acc > (u64::MAX - d) / 10,
                        d < 10,
                ;
                lemma_dec_val_prefix_monotone(part, i - from + 1);
            }
            return None;
        }
        proof {
            assert(acc * 10 + d <= u64::MAX) by (nonlinear_arith)
                requires
                    acc <= (u64::MAX - d) / 10,
                    d < 10,
            ;
            let prefix = part.subrange(0, i - from + 1);
            assert(prefix.drop_last() =~= part.subrange(0, i - from));
            assert(prefix.last() == c);
            assert(all_digits(prefix));
        }
        acc = acc * 10 + d;
        i = i + 1;
    }
    proof {
        assert(part.subrange(0, to - from) =~= part);
    }
    Some(acc)
}

/// A longer digit string never denotes a smaller value.
proof fn lemma_dec_val_prefix_monotone(s: Seq<char>, k: int)
    requires
        0 <= k <= s.len(),
    ensures
        dec_val(s) >= dec_val(s.subrange(0, k)),
    decreases s.len() - k,
{
    if k < s.len() {
        lemma_dec_val_prefix_monotone(s, k + 1);
        let a = s.subrange(0, k + 1);
        let b = s.subrange(0, k);
        assert(a.drop_last() =~= b);
        assert(dec_val(a) == dec_val(b) * 10 + digit_val(a.last()));
        assert(dec_val(b) * 10 >= dec_val(b)) by (nonlinear_arith);
    } else {
        assert(s.subrange(0, k) =~= s);
    }
}

/// A points value always fits its representation.
pub proof fn lemma_points_bounded(p: Points)
    ensures
        p@ <= u64::MAX,
{
}

/// A partial deduction always fits its representation.
pub proof fn lemma_pq_bounded(q: PointQuantity)
    ensures
        q@ matches Some(v) ==> v <= u64::MAX,
{
}

/// Adding points and then taking the same points away gives the original
/// value back.
pub proof fn lemma_points_add_sub(p: Points, q: Points)
    ensures
        points_diff(points_sum(p@, q@), q@) == p@,
{
}

/// `find_char` finds the seam of a concatenation whose left part is free of
/// the sought character.
proof fn lemma_find_char_concat(x: Seq<char>, y: Seq<char>, c: char)
    requires
        forall|k: int| 0 <= k < x.len() ==> x[k] != c,
    ensures
        find_char(x + seq![c] + y, c) == x.len(),
{
    let s = x + seq![c] + y;
    assert(s[x.len() as int] == c);
    assert forall|k: int| 0 <= k < x.len() implies s[k] != c by {
        assert(s[k] == x[k]);
    }
    lemma_find_char_at(s, c, x.len() as int);
}

/// A rendered points value reads back as the same value: rendering uses
/// exactly two decimal places and the parser inverts it.
pub proof fn lemma_points_render_parse(p: Points)
    ensures
        points_parsed(points_rendered(p@)) == Some(p@),
        points_rendered(p@).len() >= 4,
        points_rendered(p@)[points_rendered(p@).len() - 3] == '.',
        all_digits(points_rendered(p@).subrange(
            points_rendered(p@).len() - 2,
            points_rendered(p@).len() as int,
        )),
{
    let h = p@;
    let s = points_rendered(h);
    let ip = dec_rep(h / 100);
    let fp = seq![digit((h % 100) / 10), digit(h % 100 % 10)];
    lemma_dec_rep_digits(h / 100);
    assert forall|k: int| 0 <= k < ip.len() implies ip[k] != '.' by {
        assert(is_digit(ip[k]));
    }
    lemma_find_char_concat(ip, fp, '.');
    assert(s == ip + seq!['.'] + fp);
    let i = find_char(s, '.');
    assert(i == ip.len());
    assert(s.subrange(0, i) =~= ip);
    assert(s.subrange(i + 1, s.len() as int) =~= fp);
    lemma_dec_val_of_rep(h / 100);
    // the two fraction digits read back as h % 100
    let d1 = seq![digit((h % 100) / 10)];
    assert(fp.len() == 2);
    assert(fp.last() == digit(h % 100 % 10));
    assert(fp.drop_last() =~= d1);
    assert(dec_val(fp) == dec_val(d1) * 10 + digit_val(digit(h % 100 % 10)));
    assert(dec_val(d1) == dec_val(d1.drop_last()) * 10 + digit_val(d1.last()));
    assert(d1.drop_last() =~= Seq::<char>::empty());
    assert(dec_val(d1.drop_last()) == 0);
    assert(dec_val(d1) == digit_val(digit((h % 100) / 10)));
    assert(dec_val(fp) == digit_val(digit((h % 100) / 10)) * 10 + digit_val(digit(h % 100 % 10)));
    assert(digit_val(digit((h % 100) / 10)) == (h % 100) / 10);
    assert(digit_val(digit(h % 100 % 10)) == h % 100 % 10);
    assert((h % 100) / 10 * 10 + h % 100 % 10 == h % 100) by {
        vstd::arithmetic::div_mod::lemma_fundamental_div_mod((h % 100) as int, 10);
    }
    assert(h / 100 * 100 + h % 100 == h) by {
        vstd::arithmetic::div_mod::lemma_fundamental_div_mod(h as int, 100);
    }
    assert(points_parsed(s) == Some((dec_val(ip) * 100 + dec_val(fp) * 1) as nat));
    // the status of the last three characters
    assert(s[s.len() - 3] == '.');
    assert(s.subrange(s.len() - 2, s.len() as int) =~= fp);
    assert(all_digits(fp));
}

impl Default for Points {
    /// No points.
    fn default() -> (r: Self)
        ensures
            r@ == 0,
            r.wf(),
    {
        Points { hundredths: 0 }
    }
}

/// A deduction configured for a stage: either the whole test's worth, or a
/// definite partial amount.
#[derive(Debug, Clone, Copy, PartialEq, Eq, Structural)]
pub enum PointQuantity {
    FullPoints,
    Partial(Points),
}

impl View for PointQuantity {
    type V = Option<nat>;

    /// Abstractly, `None` stands for the full worth of the test and
    /// `Some(h)` for a partial deduction of `h` hundredths.
    open spec fn view(&self) -> Option<nat> {
        match self {
            PointQuantity::FullPoints => None,
            PointQuantity::Partial(p) => Some(p@),
        }
    }
}

/// The sum of two configured deductions: the full worth absorbs any other
/// deduction, and partial deductions add exactly.
pub open spec fn pq_sum(a: Option<nat>, b: Option<nat>) -> Option<nat> {
    match (a, b) {
        (Some(x), Some(y)) => Some((x + y) as nat),
        _ => None,
    }
}

/// The rendering of a configured deduction: the word `fullpoints`, or the
/// two-decimal points value.
pub open spec fn pq_rendered(q: Option<nat>) -> Seq<char> {
    match q {
        None => "fullpoints"@,
        Some(h) => points_rendered(h),
    }
}

impl PointQuantity {
    pub open spec fn wf(&self) -> bool {
        match self {
            PointQuantity::FullPoints => true,
            PointQuantity::Partial(p) => p.wf(),
        }
    }

    /// A deduction of nothing.
    pub fn zero() -> (r: Self)
        ensures
            r@ == Some(0nat),
            r.wf(),
    {
        PointQuantity::Partial(Points::from_hundredths(0).unwrap())
    }

    /// Whether this deduction takes the test's whole worth.
    pub fn is_full_points(&self) -> (r: bool)
        ensures
            r == (self@ is None),
    {
        match self {
            PointQuantity::FullPoints => true,
            PointQuantity::Partial(_) => false,
        }
    }

    /// The sum of two deductions; the full worth absorbs.
    pub fn add(self, rhs: PointQuantity) -> (r: PointQuantity)
        requires
            self@ is Some && rhs@ is Some ==> self@.unwrap() + rhs@.unwrap() <= u64::MAX,
        ensures
            r@ == pq_sum(self@, rhs@),
            self.wf() && rhs.wf() ==> r.wf(),
    {
        match (self, rhs) {
            (PointQuantity::Partial(a), PointQuantity::Partial(b)) => PointQuantity::Partial(
                a.add(b),
            ),
            _ => PointQuantity::FullPoints,
        }
    }

    /// Renders the deduction as written in feedback.
    pub fn render(&self) -> (s: String)
        ensures
            s@ == pq_rendered(self@),
    {
        match self {
            PointQuantity::FullPoints => String::from_str("fullpoints"),
            PointQuantity::Partial(p) => p.render(),
        }
    }
}

} // verus!
