//! Character-sequence utilities: substring search, trimming, case mapping
//! and number formatting, each stated over `Seq<char>`.
use vstd::prelude::*;

verus! {

// ---------------------------------------------------------------------------
// Substring search
// ---------------------------------------------------------------------------

/// `needle` occurs in `hay` starting at position `i`.
pub open spec fn occurs_at(hay: Seq<char>, needle: Seq<char>, i: int) -> bool {
    0 <= i && i + needle.len() <= hay.len() && hay.subrange(i, i + needle.len()) == needle
}

/// `needle` occurs somewhere in `hay` as a contiguous run of characters
/// (the meaning of `str::contains` with a string pattern).
pub open spec fn contains_seq(hay: Seq<char>, needle: Seq<char>) -> bool {
    exists|i: int| #[trigger] occurs_at(hay, needle, i)
}

/// The characters of `s`, in order.
pub fn chars_of(s: &str) -> (v: Vec<char>)
    ensures
        v@ == s@,
{
    let n = s.unicode_len();
    let mut v: Vec<char> = Vec::new();
    let mut i: usize = 0;
    while i < n
        invariant
            n == s@.len(),
            i <= n,
            v@ == s@.subrange(0, i as int),
        decreases n - i,
    {
        let c = s.get_char(i);
        v.push(c);
        i = i + 1;
        assert(v@ =~= s@.subrange(0, i as int));
    }
    assert(v@ =~= s@);
    v
}

/// Does `needle` occur in `hay` starting at `i`?
fn matches_at(hay: &Vec<char>, needle: &Vec<char>, i: usize) -> (r: bool)
    requires
        i + needle@.len() <= hay@.len(),
    ensures
        r == occurs_at(hay@, needle@, i as int),
{
    let n = needle.len();
    let h = hay.len();
    let mut k: usize = 0;
    while k < n
        invariant
            n == needle@.len(),
            h == hay@.len(),
            i + n <= h,
            k <= n,
            forall|j: int| 0 <= j < k ==> hay@[i + j] == needle@[j],
        decreases n - k,
    {
        if hay[i + k] != needle[k] {
            assert(hay@.subrange(i as int, i + n)[k as int] != needle@[k as int]);
            return false;
        }
        k = k + 1;
    }
    assert(hay@.subrange(i as int, i + n) =~= needle@);
    true
}

/// Substring search over character vectors.
pub fn vec_contains(hay: &Vec<char>, needle: &Vec<char>) -> (r: bool)
    ensures
        r == contains_seq(hay@, needle@),
{
    let h = hay.len();
    let n = needle.len();
    if n > h {
        assert forall|i: int| !#[trigger] occurs_at(hay@, needle@, i) by {}
        return false;
    }
    if n == 0 {
        assert(hay@.subrange(0, 0) =~= needle@);
        assert(occurs_at(hay@, needle@, 0));
        return true;
    }
    let mut i: usize = 0;
    while i <= h - n
        invariant
            h == hay@.len(),
            n == needle@.len(),
            0 < n <= h,
            i <= h - n + 1,
            forall|j: int| 0 <= j < i ==> !#[trigger] occurs_at(hay@, needle@, j),
        decreases h - n + 1 - i,
    {
        if matches_at(hay, needle, i) {
            return true;
        }
        i = i + 1;
    }
    assert forall|j: int| !#[trigger] occurs_at(hay@, needle@, j) by {
        if 0 <= j && j + n <= h {
            assert(j < i);
        }
    }
    false
}

/// Substring search: `needle` occurs in the characters `hay`.
pub fn chars_contain(hay: &Vec<char>, needle: &str) -> (r: bool)
    ensures
        r == contains_seq(hay@, needle@),
{
    let nv = chars_of(needle);
    vec_contains(hay, &nv)
}

/// Substring search on strings (`str::contains` with a string pattern).
pub fn str_contains(hay: &str, needle: &str) -> (r: bool)
    ensures
        r == contains_seq(hay@, needle@),
{
    let hv = chars_of(hay);
    chars_contain(&hv, needle)
}


// ---------------------------------------------------------------------------
// Trimming
// ---------------------------------------------------------------------------

/// The Unicode `White_Space` property, which `char::is_whitespace` tests.
pub open spec fn is_unicode_whitespace(c: char) -> bool {
    let u = c as u32;
    ||| 0x09 <= u <= 0x0D
    ||| u == 0x20
    ||| u == 0x85
    ||| u == 0xA0
    ||| u == 0x1680
    ||| 0x2000 <= u <= 0x200A
    ||| u == 0x2028
    ||| u == 0x2029
    ||| u == 0x202F
    ||| u == 0x205F
    ||| u == 0x3000
}

/// Classes of characters that the parsers strip from the ends of strings.
#[derive(Clone, Copy, Debug, PartialEq, Eq, Structural)]
pub enum CharClass {
    /// Unicode white space (`str::trim`).
    Whitespace,
    /// The underscore `_` (`trim_matches('_')`).
    Underscore,
    /// Path separators `\` and `/`.
    PathSeparator,
}

/// Membership of `c` in the class `cls`.
pub open spec fn in_class(cls: CharClass, c: char) -> bool {
    match cls {
        CharClass::Whitespace => is_unicode_whitespace(c),
        CharClass::Underscore => c == '_',
        CharClass::PathSeparator => c == '\\' || c == '/',
    }
}

/// `s` without the leading characters of class `cls`.
pub open spec fn trim_start_class(s: Seq<char>, cls: CharClass) -> Seq<char>
    decreases s.len(),
{
    if s.len() > 0 && in_class(cls, s[0]) {
        trim_start_class(s.drop_first(), cls)
    } else {
        s
    }
}

/// `s` without the trailing characters of class `cls`.
pub open spec fn trim_end_class(s: Seq<char>, cls: CharClass) -> Seq<char>
    decreases s.len(),
{
    if s.len() > 0 && in_class(cls, s.last()) {
        trim_end_class(s.drop_last(), cls)
    } else {
        s
    }
}

/// `s` without leading and trailing characters of class `cls`
/// (`str::trim_matches` with a character predicate).
pub open spec fn trim_class(s: Seq<char>, cls: CharClass) -> Seq<char> {
    trim_end_class(trim_start_class(s, cls), cls)
}

/// `str::trim`: no leading or trailing Unicode white space.
pub open spec fn trim_ws(s: Seq<char>) -> Seq<char> {
    trim_class(s, CharClass::Whitespace)
}

/// `s` with every leading copy of a non-empty `prefix` removed
/// (`str::trim_start_matches` with a string pattern).
pub open spec fn strip_prefixes(s: Seq<char>, prefix: Seq<char>) -> Seq<char>
    decreases s.len(),
{
    if prefix.len() > 0 && prefix.len() <= s.len() && s.subrange(0, prefix.len() as int) == prefix {
        strip_prefixes(s.subrange(prefix.len() as int, s.len() as int), prefix)
    } else {
        s
    }
}

proof fn lemma_trim_start_skip(s: Seq<char>, cls: CharClass, a: int)
    requires
        0 <= a <= s.len(),
        forall|j: int| 0 <= j < a ==> in_class(cls, #[trigger] s[j]),
    ensures
        trim_start_class(s, cls) == trim_start_class(s.subrange(a, s.len() as int), cls),
    decreases a,
{
    if a == 0 {
        assert(s.subrange(0, s.len() as int) =~= s);
    } else {
        let t = s.drop_first();
        assert forall|j: int| 0 <= j < a - 1 implies in_class(cls, #[trigger] t[j]) by {
            assert(t[j] == s[j + 1]);
        }
        lemma_trim_start_skip(t, cls, a - 1);
        assert(t.subrange(a - 1, t.len() as int) =~= s.subrange(a, s.len() as int));
    }
}

proof fn lemma_trim_end_take(s: Seq<char>, cls: CharClass, b: int)
    requires
        0 <= b <= s.len(),
        forall|j: int| b <= j < s.len() ==> in_class(cls, #[trigger] s[j]),
    ensures
        trim_end_class(s, cls) == trim_end_class(s.subrange(0, b), cls),
    decreases s.len() - b,
{
    if b == s.len() {
        assert(s.subrange(0, b) =~= s);
    } else {
        let t = s.drop_last();
        assert forall|j: int| b <= j < t.len() implies in_class(cls, #[trigger] t[j]) by {
            assert(t[j] == s[j]);
        }
        lemma_trim_end_take(t, cls, b);
        assert(t.subrange(0, b) =~= s.subrange(0, b));
    }
}

/// Tests membership of `c` in the class `cls`.
pub fn char_in_class(cls: CharClass, c: char) -> (r: bool)
    ensures
        r == in_class(cls, c),
{
    match cls {
        CharClass::Whitespace => {
            let u = c as u32;
            (0x09 <= u && u <= 0x0D) || u == 0x20 || u == 0x85 || u == 0xA0 || u == 0x1680
                || (0x2000 <= u && u <= 0x200A) || u == 0x2028 || u == 0x2029 || u == 0x202F
                || u == 0x205F || u == 0x3000
        },
        CharClass::Underscore => c == '_',
        CharClass::PathSeparator => c == '\\' || c == '/',
    }
}

/// Removes leading and trailing characters of class `cls`.
pub fn trim_chars(v: &Vec<char>, cls: CharClass) -> (r: Vec<char>)
    ensures
        r@ == trim_class(v@, cls),
{
    let n = v.len();
    let mut lo: usize = 0;
    while lo < n && char_in_class(cls, v[lo])
        invariant
            n == v@.len(),
            lo <= n,
            forall|j: int| 0 <= j < lo ==> in_class(cls, #[trigger] v@[j]),
        decreases n - lo,
    {
        lo = lo + 1;
    }
    let ghost t = v@.subrange(lo as int, n as int);
    proof {
        lemma_trim_start_skip(v@, cls, lo as int);
        if lo < n {
            assert(t[0] == v@[lo as int]);
        }
        assert(trim_start_class(t, cls) == t);
    }
    let mut hi: usize = n;
    while hi > lo && char_in_class(cls, v[hi - 1])
        invariant
            n == v@.len(),
            lo <= hi <= n,
            t == v@.subrange(lo as int, n as int),
            forall|j: int| hi <= j < n ==> in_class(cls, #[trigger] v@[j]),
        decreases hi - lo,
    {
        hi = hi - 1;
    }
    proof {
        assert forall|j: int| hi - lo <= j < t.len() implies in_class(cls, #[trigger] t[j]) by {
            assert(t[j] == v@[lo + j]);
        }
        lemma_trim_end_take(t, cls, hi - lo);
        let u = t.subrange(0, hi - lo);
        assert(u =~= v@.subrange(lo as int, hi as int));
        if hi > lo {
            assert(u.last() == v@[hi - 1]);
        }
        assert(trim_end_class(u, cls) == u);
    }
    let mut r: Vec<char> = Vec::new();
    let mut i = lo;
    while i < hi
        invariant
            lo <= i <= hi <= n,
            n == v@.len(),
            r@ == v@.subrange(lo as int, i as int),
        decreases hi - i,
    {
        r.push(v[i]);
        i = i + 1;
        assert(r@ =~= v@.subrange(lo as int, i as int));
    }
    r
}

/// Removes trailing characters of class `cls` (`str::trim_end_matches`).
pub fn trim_end_chars(v: &Vec<char>, cls: CharClass) -> (r: Vec<char>)
    ensures
        r@ == trim_end_class(v@, cls),
{
    let n = v.len();
    let mut hi: usize = n;
    while hi > 0 && char_in_class(cls, v[hi - 1])
        invariant
            n == v@.len(),
            hi <= n,
            forall|j: int| hi <= j < n ==> in_class(cls, #[trigger] v@[j]),
        decreases hi,
    {
        hi = hi - 1;
    }
    proof {
        lemma_trim_end_take(v@, cls, hi as int);
        let u = v@.subrange(0, hi as int);
        if hi > 0 {
            assert(u.last() == v@[hi - 1]);
        }
        assert(trim_end_class(u, cls) == u);
    }
    let mut r: Vec<char> = Vec::new();
    let mut i: usize = 0;
    while i < hi
        invariant
            i <= hi <= n,
            n == v@.len(),
            r@ == v@.subrange(0, i as int),
        decreases hi - i,
    {
        r.push(v[i]);
        i = i + 1;
        assert(r@ =~= v@.subrange(0, i as int));
    }
    r
}

/// Removes every leading copy of `prefix` (`str::trim_start_matches`).
pub fn strip_prefix_repeatedly(v: &Vec<char>, prefix: &Vec<char>) -> (r: Vec<char>)
    ensures
        r@ == strip_prefixes(v@, prefix@),
    decreases v@.len(),
{
    let p = prefix.len();
    let n = v.len();
    if p == 0 || p > n {
        return v.clone();
    }
    if !matches_at(v, prefix, 0) {
        assert(!(v@.subrange(0, p as int) == prefix@));
        return v.clone();
    }
    let mut rest: Vec<char> = Vec::new();
    let mut i = p;
    while i < n
        invariant
            p <= i <= n,
            n == v@.len(),
            rest@ == v@.subrange(p as int, i as int),
        decreases n - i,
    {
        rest.push(v[i]);
        i = i + 1;
        assert(rest@ =~= v@.subrange(p as int, i as int));
    }
    strip_prefix_repeatedly(&rest, prefix)
}


/// `str::trim`: removes leading and trailing Unicode white space.
pub fn trim_string(s: &str) -> (r: String)
    ensures
        r@ == trim_ws(s@),
{
    let v = chars_of(s);
    let t = trim_chars(&v, CharClass::Whitespace);
    string_from_chars(&t, 0, t.len())
}


/// Equality of the characters of two strings.
pub fn str_eq(a: &str, b: &str) -> (r: bool)
    ensures
        r == (a@ == b@),
{
    let x = chars_of(a);
    let y = chars_of(b);
    if x.len() != y.len() {
        return false;
    }
    let mut k: usize = 0;
    while k < x.len()
        invariant
            x@ == a@,
            y@ == b@,
            x@.len() == y@.len(),
            k <= x@.len(),
            forall|j: int| 0 <= j < k ==> x@[j] == y@[j],
        decreases x@.len() - k,
    {
        if x[k] != y[k] {
            return false;
        }
        k = k + 1;
    }
    assert(x@ =~= y@);
    true
}

/// A text from a firmware table carries information: it is not blank after
/// trimming and does not contain `Undefined`.
pub open spec fn is_informative(s: Seq<char>) -> bool {
    trim_ws(s).len() > 0 && !contains_seq(s, "Undefined"@)
}

/// Tells whether a firmware text carries information.
pub fn informative(s: &str) -> (r: bool)
    ensures
        r == is_informative(s@),
{
    let t = trim_string(s);
    !t.as_str().is_empty() && !str_contains(s, "Undefined")
}

// ---------------------------------------------------------------------------
// ASCII case-insensitive comparison
// ---------------------------------------------------------------------------

/// `c` with an ASCII upper-case letter mapped to its lower-case letter.
pub open spec fn ascii_lower(c: char) -> char {
    if 'A' <= c && c <= 'Z' { ((c as u32) + 32) as char } else { c }
}

/// `str::eq_ignore_ascii_case`: equal after mapping ASCII letters to lower
/// case.
pub open spec fn eq_ignore_ascii_case(a: Seq<char>, b: Seq<char>) -> bool {
    a.len() == b.len() && forall|i: int| 0 <= i < a.len() ==> ascii_lower(#[trigger] a[i]) == ascii_lower(b[i])
}

fn to_ascii_lower(c: char) -> (r: char)
    ensures
        r == ascii_lower(c),
{
    if 'A' <= c && c <= 'Z' {
        let b = (c as u8) + 32;
        b as char
    } else {
        c
    }
}

/// Compares `v[lo..hi]` with `word`, ignoring ASCII case.
pub fn range_eq_ignore_ascii_case(v: &Vec<char>, lo: usize, hi: usize, word: &str) -> (r: bool)
    requires
        lo <= hi <= v@.len(),
    ensures
        r == eq_ignore_ascii_case(v@.subrange(lo as int, hi as int), word@),
{
    let w = chars_of(word);
    if hi - lo != w.len() {
        return false;
    }
    let mut k: usize = 0;
    while k < w.len()
        invariant
            lo <= hi <= v@.len(),
            hi - lo == w@.len(),
            w@ == word@,
            k <= w@.len(),
            forall|j: int| 0 <= j < k ==> ascii_lower(#[trigger] v@[lo + j]) == ascii_lower(w@[j]),
        decreases w@.len() - k,
    {
        if to_ascii_lower(v[lo + k]) != to_ascii_lower(w[k]) {
            assert(v@.subrange(lo as int, hi as int)[k as int] == v@[lo + k]);
            return false;
        }
        k = k + 1;
    }
    assert forall|j: int| 0 <= j < (hi - lo) implies
        ascii_lower(#[trigger] v@.subrange(lo as int, hi as int)[j]) == ascii_lower(word@[j]) by {
        assert(v@.subrange(lo as int, hi as int)[j] == v@[lo + j]);
    }
    true
}

// ---------------------------------------------------------------------------
// Building strings
// ---------------------------------------------------------------------------

/// Appends one character to a string (`String::push`).
#[verifier::external_body]
pub(crate) fn push_char(s: &mut String, c: char)
    ensures
        final(s)@ == old(s)@.push(c),
{
    s.push(c);
}

/// The character views of a sequence of strings.
pub open spec fn string_views(v: Seq<String>) -> Seq<Seq<char>> {
    v.map_values(|s: String| s@)
}

/// A one-element sequence holding `s` when `b` holds, else empty.
#[verifier::opaque]
pub open spec fn opt_name(b: bool, s: Seq<char>) -> Seq<Seq<char>> {
    if b { seq![s] } else { seq![] }
}

/// Appends an owned copy of `s` to `v` when `b` holds.
pub fn push_if(v: &mut Vec<String>, b: bool, s: &str)
    ensures
        string_views(final(v)@) == string_views(old(v)@) + opt_name(b, s@),
{
    reveal(opt_name);
    if b {
        v.push(owned(s));
        assert(string_views(v@) =~= string_views(old(v)@) + opt_name(b, s@));
    } else {
        assert(string_views(v@) =~= string_views(old(v)@) + opt_name(b, s@));
    }
}

/// A string holding the characters `v[lo..hi]`.
pub fn string_from_chars(v: &Vec<char>, lo: usize, hi: usize) -> (s: String)
    requires
        lo <= hi <= v@.len(),
    ensures
        s@ == v@.subrange(lo as int, hi as int),
{
    let mut s = String::new();
    let mut i = lo;
    while i < hi
        invariant
            lo <= i <= hi,
            hi <= v@.len(),
            s@ == v@.subrange(lo as int, i as int),
        decreases hi - i,
    {
        push_char(&mut s, v[i]);
        i = i + 1;
        assert(s@ =~= v@.subrange(lo as int, i as int));
    }
    s
}

/// An owned copy of a string slice.
pub fn owned(s: &str) -> (r: String)
    ensures
        r@ == s@,
{
    String::from_str(s)
}

/// `a` followed by `b`.
pub fn concat2(a: &str, b: &str) -> (r: String)
    ensures
        r@ == a@ + b@,
{
    let mut r = String::from_str(a);
    r.append(b);
    r
}

/// `a`, `b` and `c` joined by single spaces (`format!("{a} {b} {c}")`).
pub fn join3_spaced(a: &str, b: &str, c: &str) -> (r: String)
    ensures
        r@ == a@ + seq![' '] + b@ + seq![' '] + c@,
{
    let mut r = String::from_str(a);
    push_char(&mut r, ' ');
    r.append(b);
    push_char(&mut r, ' ');
    r.append(c);
    r
}

// ---------------------------------------------------------------------------
// Case mapping (Unicode rules of the standard library)
// ---------------------------------------------------------------------------

/// What `str::to_lowercase` returns for a string with characters `s`.
pub uninterp spec fn lowercase(s: Seq<char>) -> Seq<char>;

/// What `str::to_uppercase` returns for a string with characters `s`.
pub uninterp spec fn uppercase(s: Seq<char>) -> Seq<char>;

/// Calls `str::to_lowercase`, the full Unicode lowercase mapping of the
/// standard library. Claimed: the result depends on the characters of `s`
/// alone (it is `lowercase(s@)`); the mapping itself is not stated.
#[verifier::external_body]
pub(crate) fn to_lowercase(s: &str) -> (r: String)
    ensures
        r@ == lowercase(s@),
{
    s.to_lowercase()
}

/// Calls `str::to_uppercase`, the full Unicode uppercase mapping of the
/// standard library. Claimed: the result depends on the characters of `s`
/// alone (it is `uppercase(s@)`); the mapping itself is not stated.
#[verifier::external_body]
pub(crate) fn to_uppercase(s: &str) -> (r: String)
    ensures
        r@ == uppercase(s@),
{
    s.to_uppercase()
}

// ---------------------------------------------------------------------------
// Number formatting
// ---------------------------------------------------------------------------

/// The digit character for `d` (0-9, then upper-case A-F).
pub open spec fn digit_char(d: int) -> char {
    if d == 0 { '0' }
    else if d == 1 { '1' }
    else if d == 2 { '2' }
    else if d == 3 { '3' }
    else if d == 4 { '4' }
    else if d == 5 { '5' }
    else if d == 6 { '6' }
    else if d == 7 { '7' }
    else if d == 8 { '8' }
    else if d == 9 { '9' }
    else if d == 10 { 'A' }
    else if d == 11 { 'B' }
    else if d == 12 { 'C' }
    else if d == 13 { 'D' }
    else if d == 14 { 'E' }
    else { 'F' }
}

/// Decimal representation of `n` without leading zeros (`format!("{n}")`).
pub open spec fn decimal(n: nat) -> Seq<char>
    decreases n,
{
    if n < 10 {
        seq![digit_char(n as int)]
    } else {
        decimal(n / 10).push(digit_char((n % 10) as int))
    }
}

/// Upper-case hexadecimal representation of `n` (`format!("{n:X}")`).
pub open spec fn hex_upper(n: nat) -> Seq<char>
    decreases n,
{
    if n < 16 {
        seq![digit_char(n as int)]
    } else {
        hex_upper(n / 16).push(digit_char((n % 16) as int))
    }
}

fn digit(d: u64) -> (c: char)
    requires
        d < 16,
    ensures
        c == digit_char(d as int),
{
    if d == 0 { '0' }
    else if d == 1 { '1' }
    else if d == 2 { '2' }
    else if d == 3 { '3' }
    else if d == 4 { '4' }
    else if d == 5 { '5' }
    else if d == 6 { '6' }
    else if d == 7 { '7' }
    else if d == 8 { '8' }
    else if d == 9 { '9' }
    else if d == 10 { 'A' }
    else if d == 11 { 'B' }
    else if d == 12 { 'C' }
    else if d == 13 { 'D' }
    else if d == 14 { 'E' }
    else { 'F' }
}

/// Appends the decimal digits of `n`.
pub fn push_decimal(s: &mut String, n: u64)
    ensures
        final(s)@ == old(s)@ + decimal(n as nat),
    decreases n,
{
    if n >= 10 {
        push_decimal(s, n / 10);
    }
    push_char(s, digit(n % 10));
    assert(final(s)@ =~= old(s)@ + decimal(n as nat));
}

/// Appends the upper-case hexadecimal digits of `n`.
pub fn push_hex_upper(s: &mut String, n: u64)
    ensures
        final(s)@ == old(s)@ + hex_upper(n as nat),
    decreases n,
{
    if n >= 16 {
        push_hex_upper(s, n / 16);
    }
    push_char(s, digit(n % 16));
    assert(final(s)@ =~= old(s)@ + hex_upper(n as nat));
}

/// `format!("{:.1}", t as f32 / 10.0)` for a count `t` of tenths: sign,
/// whole part, a point and the tenths digit.
pub open spec fn tenths_text(t: int) -> Seq<char> {
    let a = if t < 0 { -t } else { t };
    (if t < 0 { seq!['-'] } else { seq![] }) + decimal((a / 10) as nat) + seq!['.'] + seq![digit_char(a % 10)]
}

/// `format!("{:.0}", w as f32 / 10.0)` for a count `w` of tenths: rounded
/// to the nearest whole number, a tie going to the even one.
pub open spec fn rounded_tenths_text(w: nat) -> Seq<char> {
    let q = w / 10;
    let r = w % 10;
    if r > 5 || (r == 5 && q % 2 == 1) { decimal((q + 1) as nat) } else { decimal(q) }
}

/// Appends `tenths_text(t)`.
pub fn push_tenths(s: &mut String, t: i32)
    ensures
        final(s)@ == old(s)@ + tenths_text(t as int),
{
    let a: u64 = if t < 0 { (-(t as i64)) as u64 } else { t as u64 };
    if t < 0 {
        push_char(s, '-');
    }
    let ghost mid = s@;
    push_decimal(s, a / 10);
    push_char(s, '.');
    push_char(s, digit(a % 10));
    assert(final(s)@ =~= old(s)@ + tenths_text(t as int));
}

/// Appends `rounded_tenths_text(w)`.
pub fn push_rounded_tenths(s: &mut String, w: u32)
    ensures
        final(s)@ == old(s)@ + rounded_tenths_text(w as nat),
{
    let q = (w / 10) as u64;
    let r = w % 10;
    if r > 5 || (r == 5 && q % 2 == 1) {
        push_decimal(s, q + 1);
    } else {
        push_decimal(s, q);
    }
}

/// Appends `tenths_text(t)` for a non-negative count `t` of tenths.
pub fn push_unsigned_tenths(s: &mut String, t: u64)
    ensures
        final(s)@ == old(s)@ + tenths_text(t as int),
{
    push_decimal(s, t / 10);
    push_char(s, '.');
    push_char(s, digit(t % 10));
    assert(final(s)@ =~= old(s)@ + tenths_text(t as int));
}

/// The decimal representation of `n` as a string.
pub fn decimal_string(n: u64) -> (r: String)
    ensures
        r@ == decimal(n as nat),
{
    let mut r = String::new();
    push_decimal(&mut r, n);
    assert(r@ =~= decimal(n as nat));
    r
}

} // verus!
