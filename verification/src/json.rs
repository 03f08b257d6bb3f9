//! Canonical JSON building blocks for the wire codec.
//!
//! The relay speaks a fixed, canonical JSON layout: objects with their fields
//! in a set order and no interior whitespace.  This module holds the pieces
//! both directions share: string escaping for the encoder, and deterministic
//! scanners for strings and numbers for the decoder.  Every scanner has a
//! spec-level twin over `Seq<char>`; the executable functions are proved to
//! return exactly what their twins describe.

use vstd::prelude::*;

verus! {

/// A control character, which JSON strings may not contain unescaped.
pub open spec fn is_ctl(c: char) -> bool {
    (c as u32) < 32
}

/// The lower-case hex digit for a nibble.
pub open spec fn hex_digit(n: u32) -> char {
    if n == 0 {
        '0'
    } else if n == 1 {
        '1'
    } else if n == 2 {
        '2'
    } else if n == 3 {
        '3'
    } else if n == 4 {
        '4'
    } else if n == 5 {
        '5'
    } else if n == 6 {
        '6'
    } else if n == 7 {
        '7'
    } else if n == 8 {
        '8'
    } else if n == 9 {
        '9'
    } else if n == 10 {
        'a'
    } else if n == 11 {
        'b'
    } else if n == 12 {
        'c'
    } else if n == 13 {
        'd'
    } else if n == 14 {
        'e'
    } else {
        'f'
    }
}

/// How one character appears inside an encoded JSON string: itself, or an
/// escape sequence for quotes, backslashes and control characters.
pub open spec fn esc_char(c: char) -> Seq<char> {
    if c == '"' {
        seq!['\\', '"']
    } else if c == '\\' {
        seq!['\\', '\\']
    } else if c == '\n' {
        seq!['\\', 'n']
    } else if c == '\r' {
        seq!['\\', 'r']
    } else if c == '\t' {
        seq!['\\', 't']
    } else if is_ctl(c) {
        seq!['\\', 'u', '0', '0', hex_digit((c as u32) / 16), hex_digit((c as u32) % 16)]
    } else {
        seq![c]
    }
}

/// A whole string body, escaped character by character.
pub open spec fn escape_seq(s: Seq<char>) -> Seq<char>
    decreases s.len(),
{
    if s.len() == 0 {
        Seq::<char>::empty()
    } else {
        esc_char(s[0]) + escape_seq(s.drop_first())
    }
}

/// An encoded JSON string: the escaped body between double quotes.
pub open spec fn quoted(s: Seq<char>) -> Seq<char> {
    seq!['"'] + escape_seq(s) + seq!['"']
}

pub proof fn lemma_escape_snoc(s: Seq<char>, c: char)
    ensures
        escape_seq(s.push(c)) == escape_seq(s) + esc_char(c),
    decreases s.len(),
{
    if s.len() == 0 {
        assert(s.push(c)[0] == c);
        assert(s.push(c).drop_first() =~= Seq::<char>::empty());
        assert(escape_seq(s.push(c)) == esc_char(c) + escape_seq(Seq::<char>::empty()));
        assert(escape_seq(s.push(c)) =~= escape_seq(s) + esc_char(c));
    } else {
        assert(s.push(c)[0] == s[0]);
        assert(s.push(c).drop_first() =~= s.drop_first().push(c));
        lemma_escape_snoc(s.drop_first(), c);
        assert(escape_seq(s.push(c)) =~= escape_seq(s) + esc_char(c));
    }
}

/// Relies on `String::push` from std: appends exactly the given character.
#[verifier::external_body]
pub fn push_char(out: &mut String, c: char)
    ensures
        final(out)@ == old(out)@.push(c),
{
    out.push(c);
}

/// The characters of a `&str`, in order, as a vector.
pub fn str_chars(s: &str) -> (r: Vec<char>)
    ensures
        r@ == s@,
{
    let n = s.unicode_len();
    let mut r: Vec<char> = Vec::new();
    let mut i: usize = 0;
    while i < n
        invariant
            n == s@.len(),
            i <= n,
            r@ == s@.subrange(0, i as int),
        decreases n - i,
    {
        r.push(s.get_char(i));
        assert(r@ =~= s@.subrange(0, i + 1 as int));
        i = i + 1;
    }
    assert(r@ =~= s@);
    r
}

/// The substring `v[from..to]`, collected into a `String`.
pub fn chars_to_string(v: &Vec<char>, from: usize, to: usize) -> (r: String)
    requires
        from <= to <= v@.len(),
    ensures
        r@ == v@.subrange(from as int, to as int),
{
    let mut r = String::new();
    let mut i: usize = from;
    while i < to
        invariant
            from <= i <= to <= v@.len(),
            r@ == v@.subrange(from as int, i as int),
        decreases to - i,
    {
        push_char(&mut r, v[i]);
        assert(r@ =~= v@.subrange(from as int, i + 1 as int));
        i = i + 1;
    }
    r
}

/// Whether two string slices hold the same characters.
pub fn str_eq(a: &str, b: &str) -> (r: bool)
    ensures
        r == (a@ == b@),
{
    let n = a.unicode_len();
    if n != b.unicode_len() {
        return false;
    }
    let mut i: usize = 0;
    while i < n
        invariant
            n == a@.len(),
            n == b@.len(),
            i <= n,
            forall|j: int| 0 <= j < i ==> a@[j] == b@[j],
        decreases n - i,
    {
        if a.get_char(i) != b.get_char(i) {
            return false;
        }
        i = i + 1;
    }
    assert(a@ =~= b@);
    true
}

/// Appends `escape_seq(s@)` to `out`: the escaped form of one string body.
pub fn push_escaped(out: &mut String, s: &str)
    ensures
        final(out)@ == old(out)@ + escape_seq(s@),
{
    let n = s.unicode_len();
    let mut i: usize = 0;
    while i < n
        invariant
            n == s@.len(),
            i <= n,
            out@ == old(out)@ + escape_seq(s@.subrange(0, i as int)),
        decreases n - i,
    {
        let c = s.get_char(i);
        let u = c as u32;
        if c == '"' {
            push_char(out, '\\');
            push_char(out, '"');
        } else if c == '\\' {
            push_char(out, '\\');
            push_char(out, '\\');
        } else if c == '\n' {
            push_char(out, '\\');
            push_char(out, 'n');
        } else if c == '\r' {
            push_char(out, '\\');
            push_char(out, 'r');
        } else if c == '\t' {
            push_char(out, '\\');
            push_char(out, 't');
        } else if u < 32 {
            push_char(out, '\\');
            push_char(out, 'u');
            push_char(out, '0');
            push_char(out, '0');
            push_char(out, hex_digit_exec(u / 16));
            push_char(out, hex_digit_exec(u % 16));
        } else {
            push_char(out, c);
        }
        proof {
            assert(s@.subrange(0, i + 1 as int) =~= s@.subrange(0, i as int).push(c));
            lemma_escape_snoc(s@.subrange(0, i as int), c);
            assert(out@ =~= old(out)@ + escape_seq(s@.subrange(0, i + 1 as int)));
        }
        i = i + 1;
    }
    assert(s@.subrange(0, n as int) =~= s@);
}

/// The lower-case hex digit for a nibble, as executable code.
pub fn hex_digit_exec(n: u32) -> (c: char)
    requires
        n < 16,
    ensures
        c == hex_digit(n),
{
    if n == 0 {
        '0'
    } else if n == 1 {
        '1'
    } else if n == 2 {
        '2'
    } else if n == 3 {
        '3'
    } else if n == 4 {
        '4'
    } else if n == 5 {
        '5'
    } else if n == 6 {
        '6'
    } else if n == 7 {
        '7'
    } else if n == 8 {
        '8'
    } else if n == 9 {
        '9'
    } else if n == 10 {
        'a'
    } else if n == 11 {
        'b'
    } else if n == 12 {
        'c'
    } else if n == 13 {
        'd'
    } else if n == 14 {
        'e'
    } else {
        'f'
    }
}

/// A decimal digit.
pub open spec fn is_digit(c: char) -> bool {
    48 <= (c as u32) && (c as u32) <= 57
}

/// The end of the run of digits starting at `i`.
pub open spec fn skip_digits(s: Seq<char>, i: int) -> int
    decreases s.len() - i,
{
    if i < s.len() && is_digit(s[i]) {
        skip_digits(s, i + 1)
    } else {
        i
    }
}

pub proof fn lemma_skip_digits_bounds(s: Seq<char>, i: int)
    requires
        0 <= i <= s.len(),
    ensures
        i <= skip_digits(s, i) <= s.len(),
    decreases s.len() - i,
{
    if i < s.len() && is_digit(s[i]) {
        lemma_skip_digits_bounds(s, i + 1);
    }
}

/// The end of an optional fraction part (`.` and digits) starting at `k`, or
/// `None` if a lone `.` has no digits after it.
pub open spec fn frac_end(s: Seq<char>, k: int) -> Option<int> {
    if k < s.len() && s[k] == '.' {
        let m = skip_digits(s, k + 1);
        if m == k + 1 {
            None
        } else {
            Some(m)
        }
    } else {
        Some(k)
    }
}

/// The end of an optional exponent part starting at `k`, or `None` if an `e`
/// is not followed by digits.
pub open spec fn exp_end(s: Seq<char>, k: int) -> Option<int> {
    if k < s.len() && (s[k] == 'e' || s[k] == 'E') {
        let j = if k + 1 < s.len() && (s[k + 1] == '+' || s[k + 1] == '-') {
            k + 2
        } else {
            k + 1
        };
        let m = skip_digits(s, j);
        if m == j {
            None
        } else {
            Some(m)
        }
    } else {
        Some(k)
    }
}

/// The end of a JSON number starting at `i`: an optional minus sign, digits,
/// an optional fraction and an optional exponent.  `None` when no number
/// starts at `i`.
pub open spec fn number_end(s: Seq<char>, i: int) -> Option<int> {
    let j = if i < s.len() && s[i] == '-' {
        i + 1
    } else {
        i
    };
    let k = skip_digits(s, j);
    if k == j {
        None
    } else {
        match frac_end(s, k) {
            None => None,
            Some(l) => exp_end(s, l),
        }
    }
}

/// A whole character sequence that is one JSON number.
pub open spec fn is_number_text(s: Seq<char>) -> bool {
    number_end(s, 0) == Some(s.len() as int)
}

pub proof fn lemma_number_end_bounds(s: Seq<char>, i: int)
    requires
        0 <= i <= s.len(),
        number_end(s, i) is Some,
    ensures
        i < number_end(s, i)->0 <= s.len(),
{
    let j = if i < s.len() && s[i] == '-' {
        i + 1
    } else {
        i
    };
    lemma_skip_digits_bounds(s, j);
    let k = skip_digits(s, j);
    if frac_end(s, k) is Some {
        let l = frac_end(s, k)->0;
        if k < s.len() && s[k] == '.' {
            lemma_skip_digits_bounds(s, k + 1);
        }
        assert(k <= l <= s.len());
        if l < s.len() && (s[l] == 'e' || s[l] == 'E') {
            let j2 = if l + 1 < s.len() && (s[l + 1] == '+' || s[l + 1] == '-') {
                l + 2
            } else {
                l + 1
            };
            if j2 <= s.len() {
                lemma_skip_digits_bounds(s, j2);
            }
        }
    }
}

/// The run of digits starting at `i`, as executable code.
pub fn skip_digits_exec(v: &Vec<char>, i: usize) -> (r: usize)
    requires
        i <= v@.len(),
    ensures
        r == skip_digits(v@, i as int),
        i <= r <= v@.len(),
    decreases v@.len() - i,
{
    proof {
        lemma_skip_digits_bounds(v@, i as int);
    }
    if i < v.len() {
        let u = v[i] as u32;
        if 48 <= u && u <= 57 {
            return skip_digits_exec(v, i + 1);
        }
    }
    i
}

/// The end of a JSON number starting at `i`, as executable code.
pub fn number_end_exec(v: &Vec<char>, i: usize) -> (r: Option<usize>)
    requires
        i <= v@.len(),
    ensures
        match r {
            Some(e) => number_end(v@, i as int) == Some(e as int) && i < e <= v@.len(),
            None => number_end(v@, i as int) is None,
        },
{
    let j = if i < v.len() && v[i] == '-' {
        i + 1
    } else {
        i
    };
    let k = skip_digits_exec(v, j);
    if k == j {
        return None;
    }
    // optional fraction part
    let l = if k < v.len() && v[k] == '.' {
        let m = skip_digits_exec(v, k + 1);
        if m == k + 1 {
            return None;
        }
        m
    } else {
        k
    };
    assert(frac_end(v@, k as int) == Some(l as int));
    // optional exponent part
    if l < v.len() && (v[l] == 'e' || v[l] == 'E') {
        let j2 = if l + 1 < v.len() && (v[l + 1] == '+' || v[l + 1] == '-') {
            l + 2
        } else {
            l + 1
        };
        let m = skip_digits_exec(v, j2);
        if m == j2 {
            return None;
        }
        assert(exp_end(v@, l as int) == Some(m as int));
        Some(m)
    } else {
        assert(exp_end(v@, l as int) == Some(l as int));
        Some(l)
    }
}

pub proof fn lemma_skip_digits_sub(s: Seq<char>, a: int, b: int, i: int)
    requires
        0 <= a <= i <= b <= s.len(),
        skip_digits(s, i) <= b,
    ensures
        skip_digits(s.subrange(a, b), i - a) == skip_digits(s, i) - a,
    decreases b - i,
{
    let sub = s.subrange(a, b);
    lemma_skip_digits_bounds(s, i);
    if i < b && is_digit(s[i]) {
        assert(sub[i - a] == s[i]);
        lemma_skip_digits_sub(s, a, b, i + 1);
    } else if i == b {
        if i < s.len() && is_digit(s[i]) {
            lemma_skip_digits_bounds(s, i + 1);
            assert(false);
        }
    } else {
        assert(sub[i - a] == s[i]);
    }
}

/// A number recognised inside a larger sequence is, taken by itself, a whole
/// well-formed number text.
pub proof fn lemma_number_text_sub(s: Seq<char>, j: int, m: int)
    requires
        0 <= j <= s.len(),
        number_end(s, j) == Some(m),
    ensures
        j < m <= s.len(),
        is_number_text(s.subrange(j, m)),
{
    lemma_number_end_bounds(s, j);
    let sub = s.subrange(j, m);
    let j1 = if j < s.len() && s[j] == '-' {
        j + 1
    } else {
        j
    };
    let k = skip_digits(s, j1);
    lemma_skip_digits_bounds(s, j1);
    let l = frac_end(s, k)->0;
    if k < s.len() && s[k] == '.' {
        lemma_skip_digits_bounds(s, k + 1);
    }
    assert(k <= l <= s.len());
    assert(exp_end(s, l) == Some(m));
    if l < s.len() && (s[l] == 'e' || s[l] == 'E') {
        let j2 = if l + 1 < s.len() && (s[l + 1] == '+' || s[l + 1] == '-') {
            l + 2
        } else {
            l + 1
        };
        lemma_skip_digits_bounds(s, j2);
        assert(m == skip_digits(s, j2));
        assert(l < j2 <= m);
    } else {
        assert(l == m);
    }
    // the leading sign
    let j1s = if 0 < sub.len() && sub[0] == '-' {
        1 as int
    } else {
        0 as int
    };
    assert(sub[0] == s[j]);
    assert(j1s == j1 - j);
    // the integer digits
    assert(k <= m);
    lemma_skip_digits_sub(s, j, m, j1);
    assert(skip_digits(sub, j1 - j) == k - j);
    // the fraction
    if k < s.len() && s[k] == '.' {
        assert(l == skip_digits(s, k + 1) && l != k + 1);
        assert(k < m);
        assert(sub[k - j] == s[k]);
        lemma_skip_digits_sub(s, j, m, k + 1);
        assert(frac_end(sub, k - j) == Some(l - j));
    } else {
        assert(l == k);
        if k - j < sub.len() {
            assert(sub[k - j] == s[k]);
        }
        assert(frac_end(sub, k - j) == Some(k - j));
    }
    // the exponent
    if l < s.len() && (s[l] == 'e' || s[l] == 'E') {
        let j2 = if l + 1 < s.len() && (s[l + 1] == '+' || s[l + 1] == '-') {
            l + 2
        } else {
            l + 1
        };
        assert(m == skip_digits(s, j2) && m != j2);
        assert(l < m);
        assert(sub[l - j] == s[l]);
        assert(j2 <= m);
        if l + 1 < s.len() && (s[l + 1] == '+' || s[l + 1] == '-') {
            assert(l + 1 < m);
            assert(sub[l + 1 - j] == s[l + 1]);
        } else {
            if l + 1 < m {
                assert(sub[l + 1 - j] == s[l + 1]);
            }
        }
        lemma_skip_digits_sub(s, j, m, j2);
        assert(exp_end(sub, l - j) == Some(m - j));
    } else {
        assert(exp_end(sub, l - j) == Some(m - j));
    }
    assert(number_end(sub, 0) == Some(m - j));
    assert(sub.len() == m - j);
}

/// Whether `s` is, as a whole, one JSON number.  Callers that build snapshot
/// values from outside data can check them here before handing them in.
pub fn check_number_text(s: &str) -> (b: bool)
    ensures
        b == is_number_text(s@),
{
    let v = str_chars(s);
    match number_end_exec(&v, 0) {
        Some(m) => m == v.len(),
        None => false,
    }
}

/// How one escape character after a backslash decodes, if it is accepted.
pub open spec fn unescape_char(c: char) -> Option<char> {
    if c == '"' {
        Some('"')
    } else if c == '\\' {
        Some('\\')
    } else if c == '/' {
        Some('/')
    } else if c == 'n' {
        Some('\n')
    } else if c == 'r' {
        Some('\r')
    } else if c == 't' {
        Some('\t')
    } else {
        None
    }
}

/// Scans a JSON string body from `i` (just past the opening quote), gathering
/// the decoded characters onto `acc`.  Returns the decoded body and the index
/// just past the closing quote, or `None` for an unterminated string, an
/// unknown escape, or a bare control character.
pub open spec fn string_body_end(s: Seq<char>, i: int, acc: Seq<char>) -> Option<(Seq<char>, int)>
    decreases s.len() - i,
{
    if i < 0 || i >= s.len() {
        None
    } else if s[i] == '"' {
        Some((acc, i + 1))
    } else if s[i] == '\\' {
        if i + 1 >= s.len() {
            None
        } else {
            match unescape_char(s[i + 1]) {
                None => None,
                Some(c) => string_body_end(s, i + 2, acc.push(c)),
            }
        }
    } else if is_ctl(s[i]) {
        None
    } else {
        string_body_end(s, i + 1, acc.push(s[i]))
    }
}

pub proof fn lemma_string_body_end_bounds(s: Seq<char>, i: int, acc: Seq<char>)
    requires
        0 <= i <= s.len(),
        string_body_end(s, i, acc) is Some,
    ensures
        i < (string_body_end(s, i, acc)->0).1 <= s.len(),
    decreases s.len() - i,
{
    if i < s.len() && s[i] == '\\' && i + 1 < s.len() && unescape_char(s[i + 1]) is Some {
        lemma_string_body_end_bounds(s, i + 2, acc.push(unescape_char(s[i + 1])->0));
    } else if i < s.len() && s[i] != '"' && s[i] != '\\' && !is_ctl(s[i]) {
        lemma_string_body_end_bounds(s, i + 1, acc.push(s[i]));
    }
}

/// Scans a JSON string starting at `i`, which must be the opening quote.
/// Returns the decoded body and the index just past the closing quote.
pub open spec fn string_end(s: Seq<char>, i: int) -> Option<(Seq<char>, int)> {
    if 0 <= i < s.len() && s[i] == '"' {
        string_body_end(s, i + 1, Seq::<char>::empty())
    } else {
        None
    }
}

/// Scans a JSON string at `i`, as executable code: the decoded body as a
/// `String` and the index just past the closing quote.
pub fn parse_string(v: &Vec<char>, i: usize) -> (r: Option<(String, usize)>)
    requires
        i <= v@.len(),
    ensures
        match r {
            Some(p) => {
                &&& string_end(v@, i as int) matches Some(q)
                &&& q.0 == p.0@
                &&& q.1 == p.1 as int
                &&& i < p.1 <= v@.len()
            },
            None => string_end(v@, i as int) is None,
        },
{
    if !(i < v.len() && v[i] == '"') {
        return None;
    }
    let mut j: usize = i + 1;
    let mut acc = String::new();
    loop
        invariant
            i < v@.len(),
            v@[i as int] == '"',
            i + 1 <= j <= v@.len(),
            string_body_end(v@, i + 1 as int, Seq::<char>::empty()) == string_body_end(
                v@,
                j as int,
                acc@,
            ),
        decreases v@.len() - j,
    {
        if j >= v.len() {
            return None;
        }
        let c = v[j];
        if c == '"' {
            proof {
                assert(string_body_end(v@, j as int, acc@) == Some((acc@, j + 1 as int)));
                assert(string_end(v@, i as int) == string_body_end(
                    v@,
                    i + 1 as int,
                    Seq::<char>::empty(),
                ));
                lemma_string_body_end_bounds(v@, i + 1 as int, Seq::<char>::empty());
            }
            return Some((acc, j + 1));
        } else if c == '\\' {
            if j + 1 >= v.len() {
                return None;
            }
            let e = v[j + 1];
            let d: char = if e == '"' {
                '"'
            } else if e == '\\' {
                '\\'
            } else if e == '/' {
                '/'
            } else if e == 'n' {
                '\n'
            } else if e == 'r' {
                '\r'
            } else if e == 't' {
                '\t'
            } else {
                return None;
            };
            assert(unescape_char(e) == Some(d));
            push_char(&mut acc, d);
            j = j + 2;
        } else if (c as u32) < 32 {
            return None;
        } else {
            push_char(&mut acc, c);
            j = j + 1;
        }
    }
}

/// Whether the literal `lit` occurs in `s` at position `i`.
pub open spec fn lit_at(s: Seq<char>, i: int, lit: Seq<char>) -> bool {
    0 <= i && i + lit.len() <= s.len() && s.subrange(i, i + lit.len()) == lit
}

/// The index just past the literal `lit` at position `i`, or `None` when it
/// does not occur there.
pub open spec fn after_lit(s: Seq<char>, i: int, lit: Seq<char>) -> Option<int> {
    if lit_at(s, i, lit) {
        Some(i + lit.len())
    } else {
        None
    }
}

/// Matches the literal `lit` at position `i`: the index just past it, or
/// `None` when it does not occur there.
pub fn match_lit(v: &Vec<char>, i: usize, lit: &str) -> (r: Option<usize>)
    requires
        i <= v@.len(),
    ensures
        match r {
            Some(e) => after_lit(v@, i as int, lit@) == Some(e as int) && e <= v@.len(),
            None => after_lit(v@, i as int, lit@) is None,
        },
{
    let n = lit.unicode_len();
    if n > v.len() - i {
        return None;
    }
    let mut k: usize = 0;
    while k < n
        invariant
            n == lit@.len(),
            i + n <= v@.len(),
            v@.len() <= usize::MAX,
            k <= n,
            forall|j: int| 0 <= j < k ==> v@[i + j] == lit@[j],
        decreases n - k,
    {
        if v[i + k] != lit.get_char(k) {
            proof {
                if lit_at(v@, i as int, lit@) {
                    assert(v@.subrange(i as int, i + lit@.len())[k as int] == lit@[k as int]);
                }
            }
            return None;
        }
        k = k + 1;
    }
    assert(v@.subrange(i as int, i + lit@.len()) =~= lit@);
    Some(i + n)
}

} // verus!
