use vstd::prelude::*;

verus! {

// ---------------------------------------------------------------------------
// Appending single characters to a String.
// ---------------------------------------------------------------------------

/// Relies on String::push: appends exactly one character to the string.
#[verifier::external_body]
pub fn push_char(s: &mut String, c: char)
    ensures
        final(s)@ == old(s)@.push(c),
{
    s.push(c);
}

// ---------------------------------------------------------------------------
// Joining parts with a separator.
// ---------------------------------------------------------------------------

/// The sequence `parts` joined by `sep`: empty for no parts, otherwise the
/// parts in order with one separator between each adjacent pair.
pub open spec fn join(parts: Seq<Seq<char>>, sep: Seq<char>) -> Seq<char>
    decreases parts.len(),
{
    if parts.len() == 0 {
        Seq::empty()
    } else if parts.len() == 1 {
        parts[0]
    } else {
        parts[0] + sep + join(parts.skip(1), sep)
    }
}

/// Appending one more part to a join appends a separator (when the join was
/// non-empty) and then the part.
pub proof fn lemma_join_push(parts: Seq<Seq<char>>, sep: Seq<char>, x: Seq<char>)
    ensures
        parts.len() == 0 ==> join(parts.push(x), sep) == x,
        parts.len() > 0 ==> join(parts.push(x), sep) == join(parts, sep) + sep + x,
    decreases parts.len(),
{
    if parts.len() == 0 {
        assert(parts.push(x)[0] == x);
        assert(join(parts.push(x), sep) == x);
    } else if parts.len() == 1 {
        let p = parts.push(x);
        assert(p.len() == 2);
        assert(p.skip(1) =~= seq![x]);
        assert(join(p, sep) == p[0] + sep + join(p.skip(1), sep));
        assert(p[0] == parts[0]);
        assert(join(parts, sep) == parts[0]);
    } else {
        let p = parts.push(x);
        assert(p.skip(1) =~= parts.skip(1).push(x));
        lemma_join_push(parts.skip(1), sep, x);
        assert(join(p, sep) == p[0] + sep + join(p.skip(1), sep));
        assert(join(parts, sep) + sep + x =~= parts[0] + sep + (join(parts.skip(1), sep) + sep
            + x));
    }
}

// ---------------------------------------------------------------------------
// Decimal digits.
// ---------------------------------------------------------------------------

/// The decimal digit character for a value below ten.
pub open spec fn digit(d: nat) -> char {
    if d == 0 {
        '0'
    } else if d == 1 {
        '1'
    } else if d == 2 {
        '2'
    } else if d == 3 {
        '3'
    } else if d == 4 {
        '4'
    } else if d == 5 {
        '5'
    } else if d == 6 {
        '6'
    } else if d == 7 {
        '7'
    } else if d == 8 {
        '8'
    } else {
        '9'
    }
}

pub open spec fn is_digit(c: char) -> bool {
    c == '0' || c == '1' || c == '2' || c == '3' || c == '4' || c == '5' || c == '6' || c == '7'
        || c == '8' || c == '9'
}

pub open spec fn digit_val(c: char) -> nat {
    if c == '0' {
        0
    } else if c == '1' {
        1
    } else if c == '2' {
        2
    } else if c == '3' {
        3
    } else if c == '4' {
        4
    } else if c == '5' {
        5
    } else if c == '6' {
        6
    } else if c == '7' {
        7
    } else if c == '8' {
        8
    } else {
        9
    }
}

/// The decimal rendering of a natural number, most significant digit first,
/// with no leading zeros (a single zero for the value zero).
pub open spec fn dec_rep(n: nat) -> Seq<char>
    decreases n,
{
    if n < 10 {
        seq![digit(n)]
    } else {
        dec_rep(n / 10).push(digit(n % 10))
    }
}

pub open spec fn all_digits(s: Seq<char>) -> bool {
    forall|i: int| 0 <= i < s.len() ==> is_digit(#[trigger] s[i])
}

/// The value of a sequence of decimal digits, most significant first.
pub open spec fn dec_val(s: Seq<char>) -> nat
    decreases s.len(),
{
    if s.len() == 0 {
        0
    } else {
        dec_val(s.drop_last()) * 10 + digit_val(s.last())
    }
}

pub proof fn lemma_dec_rep_digits(n: nat)
    ensures
        all_digits(dec_rep(n)),
        dec_rep(n).len() >= 1,
        n >= 10 ==> dec_rep(n).len() >= 2,
    decreases n,
{
    if n < 10 {
    } else {
        lemma_dec_rep_digits(n / 10);
        assert forall|i: int| 0 <= i < dec_rep(n).len() implies is_digit(#[trigger] dec_rep(n)[i])
        by {
            if i < dec_rep(n / 10).len() {
                assert(dec_rep(n)[i] == dec_rep(n / 10)[i]);
            } else {
                assert(dec_rep(n)[i] == digit(n % 10));
            }
        }
    }
}

/// Rendering a value and reading the digits back gives the value again.
pub proof fn lemma_dec_val_of_rep(n: nat)
    ensures
        dec_val(dec_rep(n)) == n,
    decreases n,
{
    if n < 10 {
        let s = dec_rep(n);
        assert(s == seq![digit(n)]);
        assert(s.drop_last() =~= Seq::<char>::empty());
        assert(dec_val(s.drop_last()) == 0);
        assert(dec_val(s) == digit_val(digit(n)));
        assert(digit_val(digit(n)) == n);
    } else {
        lemma_dec_val_of_rep(n / 10);
        let s = dec_rep(n);
        assert(s == dec_rep(n / 10).push(digit(n % 10)));
        assert(s.drop_last() =~= dec_rep(n / 10));
        assert(s.last() == digit(n % 10));
        assert(digit_val(digit(n % 10)) == n % 10);
        assert(n / 10 * 10 + n % 10 == n) by {
            vstd::arithmetic::div_mod::lemma_fundamental_div_mod(n as int, 10);
        }
        assert(dec_val(s) == dec_val(s.drop_last()) * 10 + digit_val(s.last()));
    }
}

/// Renders a number in decimal.
pub fn u64_to_string(n: u64) -> (s: String)
    ensures
        s@ == dec_rep(n as nat),
    decreases n,
{
    if n < 10 {
        let mut s = String::new();
        push_char(&mut s, digit_char(n));
        assert(s@ =~= seq![digit(n as nat)]);
        s
    } else {
        assert(n / 10 < n) by (nonlinear_arith)
            requires
                n >= 10,
        ;
        let mut s = u64_to_string(n / 10);
        push_char(&mut s, digit_char(n % 10));
        s
    }
}

/// The digit character for a value below ten.
pub fn digit_char(d: u64) -> (c: char)
    requires
        d < 10,
    ensures
        c == digit(d as nat),
{
    if d == 0 {
        '0'
    } else if d == 1 {
        '1'
    } else if d == 2 {
        '2'
    } else if d == 3 {
        '3'
    } else if d == 4 {
        '4'
    } else if d == 5 {
        '5'
    } else if d == 6 {
        '6'
    } else if d == 7 {
        '7'
    } else if d == 8 {
        '8'
    } else {
        '9'
    }
}

/// The decimal rendering padded with leading zeros to at least `width`
/// characters.
pub open spec fn dec_rep_pad(n: nat, width: nat) -> Seq<char>
    decreases width,
{
    if dec_rep(n).len() >= width {
        dec_rep(n)
    } else {
        seq!['0'] + dec_rep_pad(n, (width - 1) as nat)
    }
}

/// Renders a number in decimal, left padded with zeros to at least
/// `width` characters.
pub fn u64_to_string_pad(n: u64, width: usize) -> (s: String)
    ensures
        s@ == dec_rep_pad(n as nat, width as nat),
    decreases width,
{
    let digits = u64_to_string(n);
    if digits.as_str().unicode_len() >= width {
        digits
    } else {
        let mut s = String::new();
        push_char(&mut s, '0');
        let rest = u64_to_string_pad(n, width - 1);
        s.append(rest.as_str());
        assert(s@ =~= seq!['0'] + dec_rep_pad(n as nat, (width - 1) as nat));
        s
    }
}

/// The decimal rendering of an integer, a minus sign first when it is
/// negative.
pub open spec fn int_rendered(v: int) -> Seq<char> {
    if v < 0 {
        seq!['-'] + dec_rep((-v) as nat)
    } else {
        dec_rep(v as nat)
    }
}

/// Renders a signed number in decimal.
pub fn i32_to_string(v: i32) -> (s: String)
    ensures
        s@ == int_rendered(v as int),
{
    if v < 0 {
        let wide: i64 = v as i64;
        let mag: u64 = (-wide) as u64;
        let mut s = String::from_str("-");
        let digits = u64_to_string(mag);
        s.append(digits.as_str());
        proof {
            reveal_strlit("-");
            assert(s@ =~= int_rendered(v as int));
        }
        s
    } else {
        u64_to_string(v as u64)
    }
}

// ---------------------------------------------------------------------------
// Character-level comparison and search.
// ---------------------------------------------------------------------------

/// Whether `needle` occurs as a contiguous subsequence of `hay`.
pub open spec fn contains_seq(hay: Seq<char>, needle: Seq<char>) -> bool {
    exists|i: int|
        0 <= i && i + needle.len() <= hay.len() && #[trigger] hay.subrange(i, i + needle.len())
            == needle
}

/// Whether two string slices hold the same characters.
pub fn str_eq(a: &str, b: &str) -> (r: bool)
    ensures
        r == (a@ == b@),
{
    let alen = a.unicode_len();
    let blen = b.unicode_len();
    if alen != blen {
        return false;
    }
    let mut i: usize = 0;
    while i < alen
        invariant
            alen == a@.len(),
            alen == b@.len(),
            0 <= i <= alen,
            forall|k: int| 0 <= k < i ==> a@[k] == b@[k],
        decreases alen - i,
    {
        if a.get_char(i) != b.get_char(i) {
            return false;
        }
        i = i + 1;
    }
    proof {
        assert(a@ =~= b@);
    }
    true
}

/// Whether `needle` occurs inside `hay`, by characters.
pub fn str_contains(hay: &str, needle: &str) -> (r: bool)
    ensures
        r == contains_seq(hay@, needle@),
{
    let n = hay.unicode_len();
    let m = needle.unicode_len();
    if m == 0 {
        proof {
            assert(hay@.subrange(0, 0 + needle@.len() as int) =~= needle@);
            assert(contains_seq(hay@, needle@));
        }
        return true;
    }
    if m > n {
        return false;
    }
    let mut i: usize = 0;
    while i <= n - m
        invariant
            n == hay@.len(),
            m == needle@.len(),
            1 <= m <= n,
            0 <= i <= n - m + 1,
            forall|ii: int|
                0 <= ii < i ==> #[trigger] hay@.subrange(ii, ii + needle@.len()) != needle@,
        decreases n - i,
    {
        let mut j: usize = 0;
        let mut matched = true;
        while j < m
            invariant
                n == hay@.len(),
                m == needle@.len(),
                0 <= i <= n - m,
                0 <= j <= m,
                matched ==> forall|k: int| 0 <= k < j ==> hay@[i + k] == needle@[k],
                !matched ==> hay@.subrange(i as int, i + needle@.len()) != needle@,
            decreases m - j,
        {
            if matched && hay.get_char(i + j) != needle.get_char(j) {
                proof {
                    let sub = hay@.subrange(i as int, i + needle@.len());
                    assert(sub[j as int] == hay@[i + j]);
                }
                matched = false;
            }
            j = j + 1;
        }
        if matched {
            proof {
                let sub = hay@.subrange(i as int, i + needle@.len());
                assert(sub =~= needle@);
            }
            return true;
        }
        i = i + 1;
    }
    proof {
        assert forall|ii: int| 0 <= ii && ii + needle@.len() <= hay@.len() implies #[trigger] hay@.subrange(
            ii,
            ii + needle@.len(),
        ) != needle@ by {
            assert(ii < i);
        }
    }
    false
}

/// ASCII whitespace, the characters that a blank line may hold.
pub open spec fn is_space_char(c: char) -> bool {
    c == ' ' || c == '\t' || c == '\n' || c == '\r' || c == '\u{b}' || c == '\u{c}'
}

/// Whether the string holds only whitespace characters.
pub open spec fn is_blank(s: Seq<char>) -> bool {
    forall|i: int| 0 <= i < s.len() ==> is_space_char(#[trigger] s[i])
}

/// Whether the string is empty or holds only whitespace.
pub fn str_is_blank(s: &str) -> (r: bool)
    ensures
        r == is_blank(s@),
{
    let n = s.unicode_len();
    let mut i: usize = 0;
    while i < n
        invariant
            n == s@.len(),
            0 <= i <= n,
            forall|k: int| 0 <= k < i ==> is_space_char(#[trigger] s@[k]),
        decreases n - i,
    {
        let c = s.get_char(i);
        if !(c == ' ' || c == '\t' || c == '\n' || c == '\r' || c == '\u{b}' || c == '\u{c}') {
            return false;
        }
        i = i + 1;
    }
    true
}

} // verus!
