//! Text helpers with exact specifications: characters of strings, trimming,
//! searching, equality, decimal numbers and their parsing, joining, and
//! replacement.
use vstd::prelude::*;

verus! {

/// The characters of a string slice, in order.
pub fn chars_of(s: &str) -> (v: Vec<char>)
    ensures
        v@ == s@,
{
    let mut v: Vec<char> = Vec::new();
    for c in it: s.chars()
        invariant
            v@ == it.seq().take(it.index() as int),
            it.seq() == s@,
    {
        v.push(c);
    }
    v
}

/// Appends one character to a string (`String::push`).
#[verifier::external_body]
pub(crate) fn push_char(s: &mut String, c: char)
    ensures
        final(s)@ == old(s)@.push(c),
{
    s.push(c);
}

/// A string holding exactly the given characters.
pub fn string_from_chars(v: &[char]) -> (s: String)
    ensures
        s@ == v@,
{
    let mut s = String::new();
    let mut i: usize = 0;
    while i < v.len()
        invariant
            i <= v@.len(),
            s@ == v@.take(i as int),
        decreases v@.len() - i,
    {
        proof {
            assert(v@.take(i as int).push(v@[i as int]) == v@.take(i + 1));
        }
        push_char(&mut s, v[i]);
        i = i + 1;
    }
    proof {
        assert(v@.take(v@.len() as int) == v@);
    }
    s
}

/// Unicode `White_Space`, the property that `char::is_whitespace` tests.
pub open spec fn is_white_space(c: char) -> bool {
    let u = c as u32;
    ||| 0x09 <= u <= 0x0d
    ||| u == 0x20
    ||| u == 0x85
    ||| u == 0xa0
    ||| u == 0x1680
    ||| 0x2000 <= u <= 0x200a
    ||| u == 0x2028
    ||| u == 0x2029
    ||| u == 0x202f
    ||| u == 0x205f
    ||| u == 0x3000
}

pub fn is_white_space_exec(c: char) -> (b: bool)
    ensures
        b == is_white_space(c),
{
    let u = c as u32;
    (0x09 <= u && u <= 0x0d) || u == 0x20 || u == 0x85 || u == 0xa0 || u == 0x1680 || (0x2000
        <= u && u <= 0x200a) || u == 0x2028 || u == 0x2029 || u == 0x202f || u == 0x205f || u
        == 0x3000
}

/// `s` without its leading white space.
pub open spec fn trim_start(s: Seq<char>) -> Seq<char>
    decreases s.len(),
{
    if s.len() > 0 && is_white_space(s[0]) {
        trim_start(s.drop_first())
    } else {
        s
    }
}

/// `s` without its trailing white space.
pub open spec fn trim_end(s: Seq<char>) -> Seq<char>
    decreases s.len(),
{
    if s.len() > 0 && is_white_space(s.last()) {
        trim_end(s.drop_last())
    } else {
        s
    }
}

/// `s` without leading and trailing white space, as `str::trim` gives it.
pub open spec fn trim(s: Seq<char>) -> Seq<char> {
    trim_end(trim_start(s))
}

proof fn lemma_trim_start_skip(s: Seq<char>, i: int)
    requires
        0 <= i <= s.len(),
        forall|j: int| 0 <= j < i ==> is_white_space(#[trigger] s[j]),
    ensures
        trim_start(s) == trim_start(s.skip(i)),
    decreases i,
{
    if i > 0 {
        assert(is_white_space(s[0]));
        assert(s.drop_first().skip(i - 1) =~= s.skip(i));
        assert forall|j: int| 0 <= j < i - 1 implies is_white_space(#[trigger] s.drop_first()[j]) by {
            assert(s.drop_first()[j] == s[j + 1]);
        }
        lemma_trim_start_skip(s.drop_first(), i - 1);
    } else {
        assert(s.skip(0) =~= s);
    }
}

proof fn lemma_trim_end_take(s: Seq<char>, i: int)
    requires
        0 <= i <= s.len(),
        forall|j: int| i <= j < s.len() ==> is_white_space(#[trigger] s[j]),
    ensures
        trim_end(s) == trim_end(s.take(i)),
    decreases s.len() - i,
{
    if i < s.len() {
        assert(is_white_space(s[s.len() - 1]));
        assert(s.drop_last().take(i) =~= s.take(i));
        assert forall|j: int| i <= j < s.drop_last().len() implies is_white_space(
            #[trigger] s.drop_last()[j],
        ) by {
            assert(s.drop_last()[j] == s[j]);
        }
        lemma_trim_end_take(s.drop_last(), i);
    } else {
        assert(s.take(i) =~= s);
    }
}

/// The characters of `v` with leading and trailing white space removed.
pub fn trim_chars(v: &[char]) -> (r: Vec<char>)
    ensures
        r@ == trim(v@),
{
    let n = v.len();
    let mut a: usize = 0;
    while a < n && is_white_space_exec(v[a])
        invariant
            a <= n == v@.len(),
            forall|j: int| 0 <= j < a ==> is_white_space(#[trigger] v@[j]),
        decreases n - a,
    {
        a = a + 1;
    }
    proof {
        lemma_trim_start_skip(v@, a as int);
        if a < n {
            assert(trim_start(v@.skip(a as int)) == v@.skip(a as int));
        } else {
            assert(v@.skip(a as int).len() == 0);
        }
    }
    let ghost mid = v@.skip(a as int);
    let mut b: usize = n;
    while b > a && is_white_space_exec(v[b - 1])
        invariant
            a <= b <= n == v@.len(),
            mid == v@.skip(a as int),
            forall|j: int| b <= j < n ==> is_white_space(#[trigger] v@[j]),
        decreases b,
    {
        b = b - 1;
    }
    let mut r: Vec<char> = Vec::new();
    let mut i: usize = a;
    while i < b
        invariant
            a <= i <= b <= n == v@.len(),
            r@ == v@.subrange(a as int, i as int),
        decreases b - i,
    {
        r.push(v[i]);
        i = i + 1;
    }
    proof {
        assert forall|j: int| (b - a) <= j < mid.len() implies is_white_space(#[trigger] mid[j]) by {
            assert(mid[j] == v@[j + a]);
        }
        lemma_trim_end_take(mid, b - a);
        assert(mid.take(b - a) =~= r@);
        if b > a {
            assert(r@.last() == v@[b - 1]);
        }
    }
    r
}

/// `str::trim`, as an owned string.
pub fn trim_str(s: &str) -> (r: String)
    ensures
        r@ == trim(s@),
{
    let v = chars_of(s);
    let t = trim_chars(v.as_slice());
    string_from_chars(t.as_slice())
}

} // verus!

verus! {

/// `pat` occurs in `text` at position `i`.
pub open spec fn occurs_at(text: Seq<char>, pat: Seq<char>, i: int) -> bool {
    0 <= i && i + pat.len() <= text.len() && text.subrange(i, i + pat.len()) == pat
}

/// `pat` occurs somewhere in `text` (`str::contains`; the empty pattern occurs everywhere).
pub open spec fn contains_seq(text: Seq<char>, pat: Seq<char>) -> bool {
    exists|i: int| occurs_at(text, pat, i)
}

fn matches_at(text: &[char], pat: &[char], i: usize) -> (b: bool)
    requires
        i + pat@.len() <= text@.len(),
    ensures
        b == occurs_at(text@, pat@, i as int),
{
    let tl = text.len();
    let mut k: usize = 0;
    while k < pat.len()
        invariant
            tl == text@.len(),
            i + pat@.len() <= text@.len(),
            k <= pat@.len(),
            forall|j: int| 0 <= j < k ==> text@[i + j] == pat@[j],
        decreases pat@.len() - k,
    {
        if text[i + k] != pat[k] {
            proof {
                assert(text@.subrange(i as int, i + pat@.len())[k as int] != pat@[k as int]);
            }
            return false;
        }
        k = k + 1;
    }
    proof {
        assert(text@.subrange(i as int, i + pat@.len()) =~= pat@);
    }
    true
}

/// Whether `pat` occurs in `text`.
pub fn contains_chars(text: &[char], pat: &[char]) -> (b: bool)
    ensures
        b == contains_seq(text@, pat@),
{
    if pat.len() > text.len() {
        return false;
    }
    if pat.len() == 0 {
        proof {
            assert(text@.subrange(0, 0) =~= pat@);
            assert(occurs_at(text@, pat@, 0));
        }
        return true;
    }
    let tl = text.len();
    let last = tl - pat.len();
    let mut i: usize = 0;
    while i <= last
        invariant
            tl == text@.len(),
            last + pat@.len() == text@.len(),
            pat@.len() >= 1,
            forall|j: int| 0 <= j < i ==> !occurs_at(text@, pat@, j),
        decreases last + 1 - i,
    {
        if matches_at(text, pat, i) {
            return true;
        }
        i = i + 1;
    }
    false
}

} // verus!

verus! {

/// Whether two character slices are equal.
pub fn chars_eq(a: &[char], b: &[char]) -> (r: bool)
    ensures
        r == (a@ == b@),
{
    if a.len() != b.len() {
        return false;
    }
    let mut i: usize = 0;
    while i < a.len()
        invariant
            a@.len() == b@.len(),
            i <= a@.len(),
            forall|j: int| 0 <= j < i ==> a@[j] == b@[j],
        decreases a@.len() - i,
    {
        if a[i] != b[i] {
            return false;
        }
        i = i + 1;
    }
    proof {
        assert(a@ =~= b@);
    }
    true
}

/// Whether two strings are equal.
pub fn str_eq(a: &str, b: &str) -> (r: bool)
    ensures
        r == (a@ == b@),
{
    let va = chars_of(a);
    let vb = chars_of(b);
    chars_eq(va.as_slice(), vb.as_slice())
}

/// Whether a string is empty.
pub fn str_is_empty(a: &str) -> (r: bool)
    ensures
        r == (a@.len() == 0),
{
    a.unicode_len() == 0
}

} // verus!

verus! {

/// The decimal digit for `d` (0 to 9).
pub open spec fn digit_char(d: int) -> char {
    (48 + d) as char
}

/// `n` in decimal, as `to_string` writes an unsigned integer.
pub open spec fn decimal(n: nat) -> Seq<char>
    decreases n,
{
    if n < 10 {
        seq![digit_char(n as int)]
    } else {
        decimal(n / 10).push(digit_char((n % 10) as int))
    }
}

fn decimal_chars(n: u64) -> (v: Vec<char>)
    ensures
        v@ == decimal(n as nat),
    decreases n,
{
    if n < 10 {
        let mut v: Vec<char> = Vec::new();
        v.push(char_from_digit(n as u8));
        proof {
            assert(v@ =~= seq![digit_char(n as int)]);
        }
        v
    } else {
        let mut v = decimal_chars(n / 10);
        v.push(char_from_digit((n % 10) as u8));
        v
    }
}

fn char_from_digit(d: u8) -> (c: char)
    requires
        d < 10,
    ensures
        c == digit_char(d as int),
{
    if d == 0 { '0' }
    else if d == 1 { '1' }
    else if d == 2 { '2' }
    else if d == 3 { '3' }
    else if d == 4 { '4' }
    else if d == 5 { '5' }
    else if d == 6 { '6' }
    else if d == 7 { '7' }
    else if d == 8 { '8' }
    else { '9' }
}

/// `n.to_string()` for an unsigned integer.
pub fn u64_to_decimal(n: u64) -> (s: String)
    ensures
        s@ == decimal(n as nat),
{
    let v = decimal_chars(n);
    string_from_chars(v.as_slice())
}

/// `n` in decimal with leading zeros up to `width` characters.
pub open spec fn zero_padded(n: nat, width: nat) -> Seq<char> {
    let d = decimal(n);
    if d.len() >= width {
        d
    } else {
        Seq::new((width - d.len()) as nat, |i: int| '0') + d
    }
}

/// `format!("{:0width$}", n)`.
pub fn zero_padded_decimal(n: u64, width: usize) -> (r: Vec<char>)
    ensures
        r@ == zero_padded(n as nat, width as nat),
{
    let d = decimal_chars(n);
    if d.len() >= width {
        return d;
    }
    let k = width - d.len();
    let mut r: Vec<char> = Vec::new();
    let mut i: usize = 0;
    while i < k
        invariant
            i <= k,
            r@ == Seq::new(i as nat, |j: int| '0'),
        decreases k - i,
    {
        r.push('0');
        proof {
            assert(r@ =~= Seq::new((i + 1) as nat, |j: int| '0'));
        }
        i = i + 1;
    }
    let ghost r0 = r@;
    let mut j: usize = 0;
    while j < d.len()
        invariant
            j <= d@.len(),
            r@ == r0 + d@.take(j as int),
        decreases d@.len() - j,
    {
        r.push(d[j]);
        proof {
            assert(d@.take(j + 1) =~= d@.take(j as int).push(d@[j as int]));
        }
        j = j + 1;
    }
    proof {
        assert(d@.take(d@.len() as int) =~= d@);
    }
    r
}

/// A decimal digit character.
pub open spec fn is_digit(c: char) -> bool {
    '0' <= c <= '9'
}

/// The value of a string of decimal digits.
pub open spec fn digits_value(d: Seq<char>) -> nat
    decreases d.len(),
{
    if d.len() == 0 {
        0
    } else {
        digits_value(d.drop_last()) * 10 + ((d.last() as int) - 48) as nat
    }
}

/// The part of a number after an optional leading `+`.
pub open spec fn unsigned_digits(s: Seq<char>) -> Seq<char> {
    if s.len() > 0 && s[0] == '+' {
        s.drop_first()
    } else {
        s
    }
}

/// Every character is a decimal digit.
pub open spec fn all_digits(d: Seq<char>) -> bool {
    forall|i: int| 0 <= i < d.len() ==> is_digit(#[trigger] d[i])
}

/// `str::parse::<usize>`: an optional `+`, then at least one decimal digit,
/// and a value that fits in `usize`.
pub open spec fn parse_usize(s: Seq<char>) -> Option<usize> {
    let d = unsigned_digits(s);
    if d.len() == 0 || !all_digits(d) {
        None
    } else if digits_value(d) <= usize::MAX {
        Some(digits_value(d) as usize)
    } else {
        None
    }
}

proof fn lemma_digits_value_monotone(d: Seq<char>, i: int, j: int)
    requires
        0 <= i <= j <= d.len(),
        forall|k: int| 0 <= k < d.len() ==> is_digit(#[trigger] d[k]),
    ensures
        digits_value(d.take(i)) <= digits_value(d.take(j)),
    decreases j - i,
{
    if i < j {
        lemma_digits_value_monotone(d, i, j - 1);
        assert(d.take(j).drop_last() =~= d.take(j - 1));
        assert(is_digit(d[j - 1]));
    }
}

fn digit_value(c: char) -> (v: Option<u8>)
    ensures
        is_digit(c) <==> v is Some,
        v is Some ==> v->0 as int == (c as int) - 48,
{
    if '0' <= c && c <= '9' {
        Some(((c as u32) - 48) as u8)
    } else {
        None
    }
}

/// Parse a decimal `usize` as `str::parse` does.
pub fn parse_usize_str(s: &str) -> (r: Option<usize>)
    ensures
        r == parse_usize(s@),
{
    let v = chars_of(s);
    let start: usize = if v.len() > 0 && v[0] == '+' { 1 } else { 0 };
    let ghost d = unsigned_digits(s@);
    proof {
        assert(d =~= v@.skip(start as int));
    }
    if start >= v.len() {
        return None;
    }
    let mut acc: usize = 0;
    let mut i: usize = start;
    while i < v.len()
        invariant
            start <= i <= v@.len(),
            d == v@.skip(start as int),
            d == unsigned_digits(s@),
            v@ == s@,
            d.len() > 0,
            forall|k: int| 0 <= k < i - start ==> is_digit(#[trigger] d[k]),
            acc == digits_value(d.take(i - start)),
        decreases v@.len() - i,
    {
        proof {
            assert(d.take(i - start + 1).drop_last() =~= d.take(i - start));
            assert(d.take(i - start + 1).last() == v@[i as int]);
        }
        match digit_value(v[i]) {
            None => {
                proof {
                    assert(d[i - start] == v@[i as int]);
                    assert(!is_digit(d[i - start]));
                    assert(!all_digits(d));
                }
                return None;
            },
            Some(dv) => {
                if acc > (usize::MAX - dv as usize) / 10 {
                    proof {
                        assert(digits_value(d.take(i - start + 1)) > usize::MAX) by (nonlinear_arith)
                            requires
                                acc > (usize::MAX - dv as usize) / 10,
                                digits_value(d.take(i - start + 1)) == acc * 10 + dv,
                                dv < 10,
                        ;
                        if all_digits(d) {
                            lemma_digits_value_monotone(d, i - start + 1, d.len() as int);
                            assert(d.take(d.len() as int) =~= d);
                            assert(digits_value(d) > usize::MAX);
                        }
                    }
                    return None;
                }
                acc = acc * 10 + dv as usize;
            },
        }
        i = i + 1;
    }
    proof {
        assert(d.take(d.len() as int) =~= d);
    }
    Some(acc)
}

} // verus!

verus! {

/// The items joined by `sep`.
pub open spec fn join_sep(items: Seq<Seq<char>>, sep: Seq<char>) -> Seq<char>
    decreases items.len(),
{
    if items.len() == 0 {
        Seq::empty()
    } else if items.len() == 1 {
        items[0]
    } else {
        join_sep(items.drop_last(), sep) + sep + items.last()
    }
}

/// Append the characters of `b` to `a`.
pub fn append_chars(a: &mut Vec<char>, b: &[char])
    ensures
        final(a)@ == old(a)@ + b@,
{
    let mut k: usize = 0;
    let ghost a0 = a@;
    while k < b.len()
        invariant
            k <= b@.len(),
            a@ == a0 + b@.take(k as int),
        decreases b@.len() - k,
    {
        a.push(b[k]);
        proof {
            assert(b@.take(k + 1) =~= b@.take(k as int).push(b@[k as int]));
        }
        k = k + 1;
    }
    proof {
        assert(b@.take(b@.len() as int) =~= b@);
    }
}

/// Append the characters of a string to `a`.
pub fn append_str(a: &mut Vec<char>, b: &str)
    ensures
        final(a)@ == old(a)@ + b@,
{
    let v = chars_of(b);
    append_chars(a, v.as_slice());
}

/// The items joined by `sep`.
pub fn join_sep_exec(items: &[Vec<char>], sep: &[char]) -> (r: Vec<char>)
    ensures
        r@ == join_sep(items@.map_values(|l: Vec<char>| l@), sep@),
{
    let ghost ls = items@.map_values(|l: Vec<char>| l@);
    let mut r: Vec<char> = Vec::new();
    let mut i: usize = 0;
    while i < items.len()
        invariant
            i <= items@.len(),
            ls == items@.map_values(|l: Vec<char>| l@),
            r@ == join_sep(ls.take(i as int), sep@),
        decreases items@.len() - i,
    {
        proof {
            assert(ls.take(i + 1).drop_last() =~= ls.take(i as int));
            assert(ls.take(i + 1).last() == items@[i as int]@);
        }
        let ghost r_before = r@;
        if i > 0 {
            append_chars(&mut r, sep);
        }
        append_chars(&mut r, items[i].as_slice());
        proof {
            if i == 0 {
                assert(ls.take(1).len() == 1);
                assert(r_before =~= Seq::<char>::empty());
                assert(r@ =~= ls.take(1)[0]);
            } else {
                assert(r@ =~= r_before + sep@ + items@[i as int]@);
            }
        }
        i = i + 1;
    }
    proof {
        assert(ls.take(items@.len() as int) =~= ls);
    }
    r
}

} // verus!

verus! {

/// `n` in decimal with a leading `-` when negative, as `to_string` writes a signed integer.
pub open spec fn signed_decimal(n: int) -> Seq<char> {
    if n < 0 {
        seq!['-'] + decimal((-n) as nat)
    } else {
        decimal(n as nat)
    }
}

/// `n.to_string()` for an `i32`.
pub fn i32_to_decimal(n: i32) -> (s: Vec<char>)
    ensures
        s@ == signed_decimal(n as int),
{
    if n < 0 {
        let m: u64 = (-(n as i64)) as u64;
        let d = decimal_chars(m);
        let mut r: Vec<char> = Vec::new();
        r.push('-');
        append_chars(&mut r, d.as_slice());
        r
    } else {
        decimal_chars(n as u64)
    }
}

} // verus!

verus! {

/// `s` with every occurrence of `pat` replaced by `rep`, scanning from the
/// left without overlaps (`str::replace`, for a non-empty pattern).
pub open spec fn replace_all(s: Seq<char>, pat: Seq<char>, rep: Seq<char>) -> Seq<char>
    decreases s.len(),
{
    if pat.len() == 0 || s.len() < pat.len() {
        s
    } else if s.take(pat.len() as int) == pat {
        rep + replace_all(s.skip(pat.len() as int), pat, rep)
    } else {
        seq![s[0]] + replace_all(s.drop_first(), pat, rep)
    }
}

proof fn lemma_replace_all_short(s: Seq<char>, pat: Seq<char>, rep: Seq<char>)
    requires
        s.len() < pat.len(),
    ensures
        replace_all(s, pat, rep) == s,
{
}

/// Replace every occurrence of `pat` in `s` by `rep` (left to right, without overlaps).
pub fn replace_all_str(s: &str, pat: &str, rep: &str) -> (r: String)
    requires
        pat@.len() > 0,
    ensures
        r@ == replace_all(s@, pat@, rep@),
{
    let sv = chars_of(s);
    let pv = chars_of(pat);
    let n = sv.len();
    let m = pv.len();
    let mut out: Vec<char> = Vec::new();
    let mut i: usize = 0;
    proof {
        assert(sv@.skip(0) =~= sv@);
        assert(out@ + replace_all(sv@, pv@, rep@) =~= replace_all(sv@, pv@, rep@));
    }
    while i < n
        invariant
            n == sv@.len(),
            m == pv@.len(),
            m > 0,
            sv@ == s@,
            pv@ == pat@,
            i <= n,
            out@ + replace_all(sv@.skip(i as int), pv@, rep@) == replace_all(sv@, pv@, rep@),
        decreases n - i,
    {
        let ghost t = sv@.skip(i as int);
        if m <= n - i && matches_at(sv.as_slice(), pv.as_slice(), i) {
            proof {
                assert(t.take(m as int) =~= sv@.subrange(i as int, i + m));
                assert(t.skip(m as int) =~= sv@.skip(i + m));
            }
            let ghost o0 = out@;
            append_str(&mut out, rep);
            proof {
                assert(o0 + (rep@ + replace_all(sv@.skip(i + m), pv@, rep@))
                    =~= out@ + replace_all(sv@.skip(i + m), pv@, rep@));
            }
            i = i + m;
        } else {
            proof {
                if i + m <= n {
                    assert(t.take(m as int) =~= sv@.subrange(i as int, i + m));
                    assert(t.take(m as int) != pv@);
                    assert(t.drop_first() =~= sv@.skip(i + 1));
                } else {
                    lemma_replace_all_short(t, pv@, rep@);
                    lemma_replace_all_short(sv@.skip(i + 1), pv@, rep@);
                    assert(t =~= seq![sv@[i as int]] + sv@.skip(i + 1));
                }
                assert(t[0] == sv@[i as int]);
            }
            let ghost o0 = out@;
            out.push(sv[i]);
            proof {
                assert(o0 + (seq![sv@[i as int]] + replace_all(sv@.skip(i + 1), pv@, rep@))
                    =~= out@ + replace_all(sv@.skip(i + 1), pv@, rep@));
            }
            i = i + 1;
        }
    }
    proof {
        assert(sv@.skip(n as int) =~= Seq::<char>::empty());
        assert(out@ + Seq::<char>::empty() =~= out@);
    }
    string_from_chars(out.as_slice())
}

} // verus!
