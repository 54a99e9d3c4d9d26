//! Character-level helpers shared by the decoders: conversions between
//! `&str`, `String` and character sequences, hexadecimal digits, ASCII case
//! and Unicode white space.

use vstd::prelude::*;

verus! {

broadcast use vstd::string::group_string_axioms;

/// Appends one character to a `String`.
#[verifier::external_body]
pub(crate) fn push_char(s: &mut String, c: char)
    ensures
        final(s)@ == old(s)@.push(c),
{
    s.push(c);
}

/// The characters of a string slice, in order.
pub fn str_chars(s: &str) -> (v: Vec<char>)
    ensures
        v@ == s@,
{
    let mut v: Vec<char> = Vec::new();
    for c in it: s.chars()
        invariant
            it.seq() == s@,
            v@ == it.seq().take(it.index() as int),
    {
        v.push(c);
    }
    v
}


/// A `String` holding exactly the given characters.
pub fn string_from_chars(v: &Vec<char>) -> (s: String)
    ensures
        s@ == v@,
{
    let mut s = String::new();
    let mut i: usize = 0;
    while i < v.len()
        invariant
            i <= v.len(),
            s@ == v@.take(i as int),
        decreases v.len() - i,
    {
        push_char(&mut s, v[i]);
        proof {
            assert(v@.take(i + 1) == v@.take(i as int).push(v@[i as int]));
        }
        i = i + 1;
    }
    proof {
        assert(v@.take(v@.len() as int) == v@);
    }
    s
}

/// Upper-case hexadecimal digit for a value below 16.
pub open spec fn hex_upper(n: int) -> char {
    if n == 0 { '0' } else if n == 1 { '1' } else if n == 2 { '2' } else if n == 3 { '3' }
    else if n == 4 { '4' } else if n == 5 { '5' } else if n == 6 { '6' } else if n == 7 { '7' }
    else if n == 8 { '8' } else if n == 9 { '9' } else if n == 10 { 'A' } else if n == 11 { 'B' }
    else if n == 12 { 'C' } else if n == 13 { 'D' } else if n == 14 { 'E' } else { 'F' }
}

/// Lower-case hexadecimal digit for a value below 16.
pub open spec fn hex_lower(n: int) -> char {
    if n == 10 { 'a' } else if n == 11 { 'b' } else if n == 12 { 'c' } else if n == 13 { 'd' }
    else if n == 14 { 'e' } else if n == 15 { 'f' } else { hex_upper(n) }
}

/// Two upper-case hexadecimal digits of a byte (`{:02X}`).
pub open spec fn byte_hex_upper(b: u8) -> Seq<char> {
    seq![hex_upper(b as int / 16), hex_upper(b as int % 16)]
}

/// Two lower-case hexadecimal digits of a byte (`{:02x}`).
pub open spec fn byte_hex_lower(b: u8) -> Seq<char> {
    seq![hex_lower(b as int / 16), hex_lower(b as int % 16)]
}

pub fn hex_digit_upper(n: u8) -> (c: char)
    requires
        n < 16,
    ensures
        c == hex_upper(n as int),
{
    match n {
        0 => '0', 1 => '1', 2 => '2', 3 => '3', 4 => '4', 5 => '5', 6 => '6', 7 => '7',
        8 => '8', 9 => '9', 10 => 'A', 11 => 'B', 12 => 'C', 13 => 'D', 14 => 'E', _ => 'F',
    }
}

pub fn hex_digit_lower(n: u8) -> (c: char)
    requires
        n < 16,
    ensures
        c == hex_lower(n as int),
{
    match n {
        10 => 'a', 11 => 'b', 12 => 'c', 13 => 'd', 14 => 'e', 15 => 'f',
        _ => hex_digit_upper(n),
    }
}

/// Appends the two upper-case hexadecimal digits of `b`.
pub fn push_byte_hex_upper(s: &mut String, b: u8)
    ensures
        final(s)@ == old(s)@ + byte_hex_upper(b),
{
    push_char(s, hex_digit_upper(b / 16));
    push_char(s, hex_digit_upper(b % 16));
}

/// Appends the two lower-case hexadecimal digits of `b`.
pub fn push_byte_hex_lower(s: &mut String, b: u8)
    ensures
        final(s)@ == old(s)@ + byte_hex_lower(b),
{
    push_char(s, hex_digit_lower(b / 16));
    push_char(s, hex_digit_lower(b % 16));
}


/// The upper-case hexadecimal digits of `n`, zero-padded on the left to at
/// least `width` digits (`{:0width$X}`).
pub open spec fn hex_padded(n: nat, width: nat) -> Seq<char>
    decreases n, width,
{
    if n < 16 && width <= 1 {
        seq![hex_upper(n as int)]
    } else {
        hex_padded(n / 16, if width > 0 { (width - 1) as nat } else { 0 }).push(
            hex_upper((n % 16) as int),
        )
    }
}

/// Appends the upper-case hexadecimal digits of `n`, zero-padded to `width`.
pub fn push_hex_padded(s: &mut String, n: u32, width: u32)
    ensures
        final(s)@ == old(s)@ + hex_padded(n as nat, width as nat),
    decreases n, width,
{
    if n >= 16 || width > 1 {
        let w: u32 = if width > 0 { width - 1 } else { 0 };
        push_hex_padded(s, n / 16, w);
    }
    let d: u8 = (n % 16) as u8;
    push_char(s, hex_digit_upper(d));
    proof {
        if !(n >= 16 || width > 1) {
            assert(n / 16 == 0);
        }
    }
}

/// What `String::from_utf8_lossy` makes of a byte sequence.
pub uninterp spec fn utf8_lossy(bytes: Seq<u8>) -> Seq<char>;

/// `String::from_utf8_lossy(bytes).into_owned()`. Valid UTF-8 decodes to the
/// characters it encodes; what an invalid sequence becomes (U+FFFD in its
/// place) is left to the name `utf8_lossy`.
#[verifier::external_body]
pub(crate) fn decode_utf8_lossy(bytes: &[u8]) -> (s: String)
    ensures
        s@ == utf8_lossy(bytes@),
        vstd::utf8::valid_utf8(bytes@) ==> s@ == vstd::utf8::decode_utf8(bytes@),
{
    String::from_utf8_lossy(bytes).into_owned()
}

/// Whether every character is ASCII.
pub open spec fn all_ascii(s: Seq<char>) -> bool {
    forall|i: int| 0 <= i < s.len() ==> (#[trigger] s[i]) as int <= 0x7f
}

/// ASCII upper-case of one character; other characters are unchanged.
pub open spec fn ascii_upper(c: char) -> char {
    if 'a' <= c && c <= 'z' { ((c as int) - 32) as char } else { c }
}

/// ASCII lower-case of one character; other characters are unchanged.
pub open spec fn ascii_lower(c: char) -> char {
    if 'A' <= c && c <= 'Z' { ((c as int) + 32) as char } else { c }
}

/// The view of an optional owned string.
pub open spec fn opt_string_view(o: Option<String>) -> Option<Seq<char>> {
    match o {
        Some(s) => Some(s@),
        None => None,
    }
}

/// The view of an optional string slice.
pub open spec fn opt_str_view(o: Option<&str>) -> Option<Seq<char>> {
    match o {
        Some(s) => Some(s@),
        None => None,
    }
}

/// What `str::to_uppercase` returns for a character sequence (the Unicode
/// upper-case mapping, which can change the length of the text).
pub uninterp spec fn unicode_uppercase(s: Seq<char>) -> Seq<char>;

/// What `str::to_lowercase` returns for a character sequence (the Unicode
/// lower-case mapping).
pub uninterp spec fn unicode_lowercase(s: Seq<char>) -> Seq<char>;

/// `str::to_uppercase`. Claimed: the result is the Unicode upper-case mapping
/// of the argument, and on ASCII text that mapping changes `a`..`z` to
/// `A`..`Z` and leaves every other character as it is.
#[verifier::external_body]
pub(crate) fn to_uppercase(s: &str) -> (r: String)
    ensures
        r@ == unicode_uppercase(s@),
        all_ascii(s@) ==> r@ == s@.map_values(|c: char| ascii_upper(c)),
{
    s.to_uppercase()
}

/// `str::to_lowercase`. Claimed: the result is the Unicode lower-case mapping
/// of the argument, and on ASCII text that mapping changes `A`..`Z` to
/// `a`..`z` and leaves every other character as it is.
#[verifier::external_body]
pub(crate) fn to_lowercase(s: &str) -> (r: String)
    ensures
        r@ == unicode_lowercase(s@),
        all_ascii(s@) ==> r@ == s@.map_values(|c: char| ascii_lower(c)),
{
    s.to_lowercase()
}

/// Whether `c` is a decimal digit `0`..`9`.
pub open spec fn is_digit(c: char) -> bool {
    '0' <= c && c <= '9'
}

/// Value of a decimal digit.
pub open spec fn digit_value(c: char) -> int {
    (c as int) - ('0' as int)
}

pub fn char_is_digit(c: char) -> (r: bool)
    ensures
        r == is_digit(c),
{
    c >= '0' && c <= '9'
}

pub fn char_digit_value(c: char) -> (r: u8)
    requires
        is_digit(c),
    ensures
        r as int == digit_value(c),
        r < 10,
{
    ((c as u32) - ('0' as u32)) as u8
}


/// The decimal digit character for a value below 10.
pub open spec fn digit_char(n: int) -> char {
    hex_upper(n)
}

/// Decimal representation of a natural number, without leading zeros.
pub open spec fn decimal(n: nat) -> Seq<char>
    decreases n,
{
    if n < 10 {
        seq![digit_char(n as int)]
    } else {
        decimal(n / 10).push(digit_char(n as int % 10))
    }
}

/// Appends the decimal representation of `n` (`{}` of an unsigned integer).
pub fn push_decimal(s: &mut String, n: u64)
    ensures
        final(s)@ == old(s)@ + decimal(n as nat),
    decreases n,
{
    if n >= 10 {
        push_decimal(s, n / 10);
    }
    let d: u8 = (n % 10) as u8;
    push_char(s, hex_digit_upper(d));
    proof {
        if n >= 10 {
            assert(decimal(n as nat) == decimal((n / 10) as nat).push(digit_char(n as int % 10)));
        }
    }
}


/// Whether two character vectors hold the same characters.
pub fn chars_eq(a: &Vec<char>, b: &Vec<char>) -> (r: bool)
    ensures
        r == (a@ == b@),
{
    if a.len() != b.len() {
        return false;
    }
    let mut i: usize = 0;
    while i < a.len()
        invariant
            a.len() == b.len(),
            i <= a.len(),
            forall|j: int| 0 <= j < i ==> a@[j] == b@[j],
        decreases a.len() - i,
    {
        if a[i] != b[i] {
            return false;
        }
        i = i + 1;
    }
    proof {
        assert(a@ =~= b@);
    }
    true
}

/// Whether two string slices hold the same characters (`==` on `str`).
pub fn str_eq(a: &str, b: &str) -> (r: bool)
    ensures
        r == (a@ == b@),
{
    let x = str_chars(a);
    let y = str_chars(b);
    chars_eq(&x, &y)
}

/// Whether a vector of characters contains `c`.
pub fn chars_contain(v: &Vec<char>, c: char) -> (r: bool)
    ensures
        r == v@.contains(c),
{
    let mut i: usize = 0;
    while i < v.len()
        invariant
            i <= v.len(),
            forall|j: int| 0 <= j < i ==> v@[j] != c,
        decreases v.len() - i,
    {
        if v[i] == c {
            return true;
        }
        i = i + 1;
    }
    false
}

/// ASCII case-insensitive equality of character sequences
/// (`eq_ignore_ascii_case`).
pub open spec fn eq_ignore_ascii_case(a: Seq<char>, b: Seq<char>) -> bool {
    a.map_values(|c: char| ascii_lower(c)) == b.map_values(|c: char| ascii_lower(c))
}

pub fn char_ascii_lower(c: char) -> (r: char)
    ensures
        r == ascii_lower(c),
{
    if c >= 'A' && c <= 'Z' {
        ((c as u32) + 32) as u8 as char
    } else {
        c
    }
}

pub fn char_ascii_upper(c: char) -> (r: char)
    ensures
        r == ascii_upper(c),
{
    if c >= 'a' && c <= 'z' {
        ((c as u32) - 32) as u8 as char
    } else {
        c
    }
}

pub fn chars_eq_ignore_ascii_case(a: &Vec<char>, b: &Vec<char>) -> (r: bool)
    ensures
        r == eq_ignore_ascii_case(a@, b@),
{
    let ghost la = a@.map_values(|c: char| ascii_lower(c));
    let ghost lb = b@.map_values(|c: char| ascii_lower(c));
    if a.len() != b.len() {
        proof {
            assert(la.len() != lb.len());
        }
        return false;
    }
    let mut i: usize = 0;
    while i < a.len()
        invariant
            a.len() == b.len(),
            i <= a.len(),
            la == a@.map_values(|c: char| ascii_lower(c)),
            lb == b@.map_values(|c: char| ascii_lower(c)),
            forall|j: int| 0 <= j < i ==> la[j] == lb[j],
        decreases a.len() - i,
    {
        if char_ascii_lower(a[i]) != char_ascii_lower(b[i]) {
            proof {
                assert(la[i as int] != lb[i as int]);
            }
            return false;
        }
        i = i + 1;
    }
    proof {
        assert(la =~= lb);
    }
    true
}


/// A UTF-8 encoding takes at most four bytes per character.
pub proof fn lemma_utf8_len_bound(chars: Seq<char>)
    ensures
        vstd::utf8::encode_utf8(chars).len() <= 4 * chars.len(),
    decreases chars.len(),
{
    if chars.len() > 0 {
        lemma_utf8_len_bound(chars.drop_first());
    }
}


/// A UTF-8 encoding takes at least one byte per character, and exactly
/// one more than the rest when the first character is ASCII.
pub proof fn lemma_utf8_len_lower(chars: Seq<char>)
    ensures
        vstd::utf8::encode_utf8(chars).len() >= chars.len(),
        chars.len() > 0 && (chars[0] as u32) < 128 ==> vstd::utf8::encode_utf8(chars).len()
            == 1 + vstd::utf8::encode_utf8(chars.drop_first()).len(),
    decreases chars.len(),
{
    if chars.len() > 0 {
        lemma_utf8_len_lower(chars.drop_first());
    }
}

/// Unicode white space (`char::is_whitespace`, the `White_Space` property).
pub open spec fn is_ws(c: char) -> bool {
    ('\t' <= c && c <= '\r') || c == ' ' || c == '\u{85}' || c == '\u{A0}' || c == '\u{1680}'
        || ('\u{2000}' <= c && c <= '\u{200A}') || c == '\u{2028}' || c == '\u{2029}'
        || c == '\u{202F}' || c == '\u{205F}' || c == '\u{3000}'
}

pub fn char_is_ws(c: char) -> (r: bool)
    ensures
        r == is_ws(c),
{
    (c >= '\t' && c <= '\r') || c == ' ' || c == '\u{85}' || c == '\u{A0}' || c == '\u{1680}'
        || (c >= '\u{2000}' && c <= '\u{200A}') || c == '\u{2028}' || c == '\u{2029}'
        || c == '\u{202F}' || c == '\u{205F}' || c == '\u{3000}'
}

/// Leading white space removed (`str::trim_start`).
pub open spec fn trim_start(s: Seq<char>) -> Seq<char>
    decreases s.len(),
{
    if s.len() > 0 && is_ws(s[0]) {
        trim_start(s.drop_first())
    } else {
        s
    }
}

/// Trailing white space removed (`str::trim_end`).
pub open spec fn trim_end(s: Seq<char>) -> Seq<char>
    decreases s.len(),
{
    if s.len() > 0 && is_ws(s.last()) {
        trim_end(s.drop_last())
    } else {
        s
    }
}

/// Leading and trailing white space removed (`str::trim`).
pub open spec fn trim(s: Seq<char>) -> Seq<char> {
    trim_end(trim_start(s))
}

/// Copy of `v[from..to]`.
pub fn chars_range(v: &Vec<char>, from: usize, to: usize) -> (r: Vec<char>)
    requires
        from <= to <= v.len(),
    ensures
        r@ == v@.subrange(from as int, to as int),
{
    let mut r: Vec<char> = Vec::new();
    let mut i: usize = from;
    while i < to
        invariant
            from <= i <= to <= v.len(),
            r@ == v@.subrange(from as int, i as int),
        decreases to - i,
    {
        r.push(v[i]);
        proof {
            assert(v@.subrange(from as int, i + 1) =~= v@.subrange(from as int, i as int).push(v@[i as int]));
        }
        i = i + 1;
    }
    r
}

/// Leading and trailing white space removed.
pub fn trim_chars(v: &Vec<char>) -> (r: Vec<char>)
    ensures
        r@ == trim(v@),
{
    let mut i: usize = 0;
    proof {
        assert(v@.subrange(0, v@.len() as int) =~= v@);
    }
    while i < v.len() && char_is_ws(v[i])
        invariant
            i <= v.len(),
            trim_start(v@) == trim_start(v@.subrange(i as int, v@.len() as int)),
        decreases v.len() - i,
    {
        proof {
            assert(v@.subrange(i as int, v@.len() as int).drop_first() =~= v@.subrange(i + 1, v@.len() as int));
        }
        i = i + 1;
    }
    let ghost t = v@.subrange(i as int, v@.len() as int);
    assert(trim_start(v@) == t);
    let mut j: usize = v.len();
    proof {
        assert(v@.subrange(i as int, j as int) =~= t);
    }
    while j > i && char_is_ws(v[j - 1])
        invariant
            i <= j <= v.len(),
            trim_end(t) == trim_end(v@.subrange(i as int, j as int)),
            t == v@.subrange(i as int, v@.len() as int),
        decreases j - i,
    {
        proof {
            assert(v@.subrange(i as int, j as int).drop_last() =~= v@.subrange(i as int, j - 1));
        }
        j = j - 1;
    }
    chars_range(v, i, j)
}

/// Whether `p` occurs in `s` starting at index `i`.
pub open spec fn occurs_at(s: Seq<char>, p: Seq<char>, i: int) -> bool {
    0 <= i && i + p.len() <= s.len() && s.subrange(i, i + p.len()) == p
}

/// Whether `p` occurs anywhere in `s` (`str::contains`).
pub open spec fn contains_seq(s: Seq<char>, p: Seq<char>) -> bool {
    exists|i: int| occurs_at(s, p, i)
}

/// Whether `i` is the first index where `p` occurs in `s`.
pub open spec fn first_occurrence(s: Seq<char>, p: Seq<char>, i: int) -> bool {
    occurs_at(s, p, i) && forall|j: int| 0 <= j < i ==> !occurs_at(s, p, j)
}

/// Whether `s` starts with `p` (`str::starts_with`).
pub open spec fn starts_with(s: Seq<char>, p: Seq<char>) -> bool {
    occurs_at(s, p, 0)
}

/// Whether `p` occurs in `v` at `i`.
pub fn matches_at(v: &Vec<char>, p: &Vec<char>, i: usize) -> (r: bool)
    ensures
        r == occurs_at(v@, p@, i as int),
{
    if i > v.len() || v.len() - i < p.len() {
        return false;
    }
    let mut k: usize = 0;
    while k < p.len()
        invariant
            i + p.len() <= v.len(),
            k <= p.len(),
            forall|m: int| 0 <= m < k ==> v@[i + m] == p@[m],
        decreases p.len() - k,
    {
        if v[i + k] != p[k] {
            proof {
                assert(v@.subrange(i as int, i + p.len())[k as int] != p@[k as int]);
            }
            return false;
        }
        k = k + 1;
    }
    proof {
        assert(v@.subrange(i as int, i + p.len()) =~= p@);
    }
    true
}

/// The first index where `p` occurs in `v` (`str::find`, counted in
/// characters).
pub fn find_chars(v: &Vec<char>, p: &Vec<char>) -> (r: Option<usize>)
    ensures
        r matches Some(i) ==> first_occurrence(v@, p@, i as int),
        r is None ==> !contains_seq(v@, p@),
{
    let mut i: usize = 0;
    while i < v.len()
        invariant
            i <= v.len(),
            forall|j: int| 0 <= j < i ==> !occurs_at(v@, p@, j),
        decreases v.len() - i,
    {
        if matches_at(v, p, i) {
            return Some(i);
        }
        i = i + 1;
    }
    if matches_at(v, p, v.len()) {
        return Some(v.len());
    }
    proof {
        assert forall|j: int| !occurs_at(v@, p@, j) by {
            if 0 <= j < i {
            } else if j == v@.len() {
            }
        }
    }
    None
}

/// Whether `p` occurs in `v` (`str::contains`).
pub fn contains_chars(v: &Vec<char>, p: &Vec<char>) -> (r: bool)
    ensures
        r == contains_seq(v@, p@),
{
    match find_chars(v, p) {
        Some(_) => true,
        None => false,
    }
}

/// Whether the characters of `v` include the text `p`.
pub fn contains_str(v: &Vec<char>, p: &str) -> (r: bool)
    ensures
        r == contains_seq(v@, p@),
{
    let pc = str_chars(p);
    contains_chars(v, &pc)
}

/// Whether the characters of `v` start with the text `p`.
pub fn starts_with_str(v: &Vec<char>, p: &str) -> (r: bool)
    ensures
        r == starts_with(v@, p@),
{
    let pc = str_chars(p);
    matches_at(v, &pc, 0)
}


/// Number of characters before the first white space of `t`.
pub open spec fn word_len(t: Seq<char>) -> nat
    decreases t.len(),
{
    if t.len() == 0 || is_ws(t[0]) {
        0
    } else {
        1 + word_len(t.drop_first())
    }
}

/// The white-space separated words of `s` (`str::split_whitespace`).
pub open spec fn words(s: Seq<char>) -> Seq<Seq<char>>
    decreases s.len(),
{
    if s.len() == 0 {
        Seq::empty()
    } else if is_ws(s[0]) {
        words(s.drop_first())
    } else {
        let k = word_len(s);
        if 0 < k <= s.len() {
            seq![s.subrange(0, k as int)] + words(s.subrange(k as int, s.len() as int))
        } else {
            seq![s]
        }
    }
}

proof fn lemma_word_len_bound(t: Seq<char>)
    ensures
        word_len(t) <= t.len(),
        t.len() > 0 && !is_ws(t[0]) ==> word_len(t) >= 1,
        forall|m: int| 0 <= m < word_len(t) ==> !is_ws(#[trigger] t[m]),
        word_len(t) < t.len() ==> is_ws(t[word_len(t) as int]),
    decreases t.len(),
{
    if t.len() > 0 && !is_ws(t[0]) {
        lemma_word_len_bound(t.drop_first());
        assert forall|m: int| 0 <= m < word_len(t) implies !is_ws(#[trigger] t[m]) by {
            if m > 0 {
                assert(t[m] == t.drop_first()[m - 1]);
            }
        }
    }
}

proof fn lemma_word_len_at(t: Seq<char>, k: int)
    requires
        0 <= k <= t.len(),
        forall|m: int| 0 <= m < k ==> !is_ws(#[trigger] t[m]),
        k == t.len() || is_ws(t[k]),
    ensures
        word_len(t) == k,
    decreases k,
{
    if k > 0 {
        lemma_word_len_at(t.drop_first(), k - 1);
    }
}

/// The white-space separated words of `v`.
pub fn split_words(v: &Vec<char>) -> (r: Vec<Vec<char>>)
    ensures
        r@.len() == words(v@).len(),
        forall|k: int| 0 <= k < r@.len() ==> (#[trigger] r@[k])@ == words(v@)[k],
{
    let mut out: Vec<Vec<char>> = Vec::new();
    let ghost acc: Seq<Seq<char>> = Seq::empty();
    let mut i: usize = 0;
    proof {
        assert(v@.subrange(0, v@.len() as int) =~= v@);
    }
    while i < v.len()
        invariant
            i <= v.len(),
            out@.len() == acc.len(),
            forall|k: int| 0 <= k < out@.len() ==> (#[trigger] out@[k])@ == acc[k],
            words(v@) == acc + words(v@.subrange(i as int, v@.len() as int)),
        decreases v.len() - i,
    {
        let ghost rest = v@.subrange(i as int, v@.len() as int);
        if char_is_ws(v[i]) {
            proof {
                assert(rest.drop_first() =~= v@.subrange(i + 1, v@.len() as int));
            }
            i = i + 1;
        } else {
            let mut j: usize = i;
            while j < v.len() && !char_is_ws(v[j])
                invariant
                    i <= j <= v.len(),
                    forall|m: int| i <= m < j ==> !is_ws(#[trigger] v@[m]),
                decreases v.len() - j,
            {
                j = j + 1;
            }
            proof {
                assert forall|m: int| 0 <= m < j - i implies !is_ws(#[trigger] rest[m]) by {
                    assert(rest[m] == v@[i + m]);
                }
                lemma_word_len_at(rest, (j - i) as int);
                assert(rest.subrange(0, (j - i) as int) =~= v@.subrange(i as int, j as int));
                assert(rest.subrange((j - i) as int, rest.len() as int) =~= v@.subrange(j as int, v@.len() as int));
            }
            let w = chars_range(v, i, j);
            out.push(w);
            proof {
                let old_acc = acc;
                acc = acc.push(v@.subrange(i as int, j as int));
                assert(words(v@) =~= acc + words(v@.subrange(j as int, v@.len() as int)));
            }
            i = j;
        }
    }
    proof {
        assert(v@.subrange(i as int, v@.len() as int) =~= Seq::<char>::empty());
        assert(acc + Seq::<Seq<char>>::empty() =~= acc);
    }
    out
}

/// Value of a sequence of hexadecimal digits, most significant first.
pub open spec fn hex_seq_value(d: Seq<char>) -> int
    decreases d.len(),
{
    if d.len() == 0 {
        0
    } else {
        16 * hex_seq_value(d.drop_last()) + hex_digit_value(d.last())
    }
}

/// Whether `c` is a hexadecimal digit (either case).
pub open spec fn is_hex(c: char) -> bool {
    ('0' <= c && c <= '9') || ('a' <= c && c <= 'f') || ('A' <= c && c <= 'F')
}

/// Value of a hexadecimal digit.
pub open spec fn hex_digit_value(c: char) -> int {
    if '0' <= c && c <= '9' {
        (c as int) - ('0' as int)
    } else if 'a' <= c && c <= 'f' {
        (c as int) - ('a' as int) + 10
    } else {
        (c as int) - ('A' as int) + 10
    }
}

/// What `u8::from_str_radix(t, 16)` gives: an optional `+`, then one or more
/// hexadecimal digits whose value is below 256.
pub open spec fn parse_hex_u8(t: Seq<char>) -> Option<u8> {
    hex_digits_u8(unsigned_digits(t))
}

/// The digits of a number after an optional leading `+`.
pub open spec fn unsigned_digits(t: Seq<char>) -> Seq<char> {
    if t.len() > 0 && t[0] == '+' { t.drop_first() } else { t }
}

/// The byte written by a nonempty sequence of hexadecimal digits, if it is
/// below 256.
pub open spec fn hex_digits_u8(d: Seq<char>) -> Option<u8> {
    if d.len() > 0 && (forall|m: int| 0 <= m < d.len() ==> is_hex(#[trigger] d[m]))
        && hex_seq_value(d) < 256 {
        Some(hex_seq_value(d) as u8)
    } else {
        None
    }
}

pub fn hex_digit(c: char) -> (r: Option<u8>)
    ensures
        r is Some <==> is_hex(c),
        r matches Some(v) ==> v as int == hex_digit_value(c) && v < 16,
{
    if c >= '0' && c <= '9' {
        Some(((c as u32) - ('0' as u32)) as u8)
    } else if c >= 'a' && c <= 'f' {
        Some(((c as u32) - ('a' as u32) + 10) as u8)
    } else if c >= 'A' && c <= 'F' {
        Some(((c as u32) - ('A' as u32) + 10) as u8)
    } else {
        None
    }
}

proof fn lemma_hex_seq_value_grows(d: Seq<char>, k: int)
    requires
        0 <= k <= d.len(),
        forall|m: int| 0 <= m < d.len() ==> is_hex(#[trigger] d[m]),
    ensures
        hex_seq_value(d.subrange(0, k)) <= hex_seq_value(d),
        hex_seq_value(d) >= 0,
    decreases d.len(),
{
    if d.len() > 0 {
        let p = d.drop_last();
        assert forall|m: int| 0 <= m < p.len() implies is_hex(#[trigger] p[m]) by {
            assert(p[m] == d[m]);
        }
        if k < d.len() {
            lemma_hex_seq_value_grows(p, k);
            assert(p.subrange(0, k) =~= d.subrange(0, k));
        } else {
            lemma_hex_seq_value_grows(p, 0);
            assert(d.subrange(0, k) =~= d);
        }
    }
}

/// `u8::from_str_radix(t, 16)`, with `None` in place of an error.
pub fn parse_hex_byte(t: &Vec<char>) -> (r: Option<u8>)
    ensures
        r == parse_hex_u8(t@),
{
    let start: usize = if t.len() > 0 && t[0] == '+' { 1 } else { 0 };
    let ghost d = unsigned_digits(t@);
    proof {
        assert(d =~= t@.subrange(start as int, t@.len() as int));
    }
    if start >= t.len() {
        return None;
    }
    let mut v: u32 = 0;
    let mut i: usize = start;
    while i < t.len()
        invariant
            start <= i <= t.len(),
            d == unsigned_digits(t@),
            d == t@.subrange(start as int, t@.len() as int),
            forall|m: int| start <= m < i ==> is_hex(#[trigger] t@[m]),
            v as int == hex_seq_value(t@.subrange(start as int, i as int)),
            v < 256,
        decreases t.len() - i,
    {
        let ghost pre = t@.subrange(start as int, i as int);
        let ghost nxt = t@.subrange(start as int, i + 1);
        proof {
            assert(nxt.drop_last() =~= pre);
            assert(nxt.last() == t@[i as int]);
        }
        match hex_digit(t[i]) {
            Some(h) => {
                let nv: u32 = 16 * v + (h as u32);
                if nv >= 256 {
                    proof {
                        assert(hex_seq_value(nxt) == 16 * hex_seq_value(pre) + hex_digit_value(t@[i as int]));
                        if forall|m: int| 0 <= m < d.len() ==> is_hex(#[trigger] d[m]) {
                            lemma_hex_seq_value_grows(d, (i + 1 - start) as int);
                            assert(d.subrange(0, (i + 1 - start) as int) =~= nxt);
                            assert(hex_seq_value(d) >= 256);
                        }
                        assert(hex_digits_u8(d) is None);
                    }
                    return None;
                }
                v = nv;
            },
            None => {
                proof {
                    assert(d[(i - start) as int] == t@[i as int]);
                    assert(!is_hex(d[(i - start) as int]));
                    assert(hex_digits_u8(d) is None);
                }
                return None;
            },
        }
        i = i + 1;
    }
    proof {
        assert(t@.subrange(start as int, i as int) =~= d);
        assert forall|m: int| 0 <= m < d.len() implies is_hex(#[trigger] d[m]) by {
            assert(d[m] == t@[start + m]);
        }
    }
    Some(v as u8)
}

/// What `u16::from_str_radix(t, 16)` gives: an optional `+`, then one or
/// more hexadecimal digits whose value is below 65536.
pub open spec fn parse_hex_u16(t: Seq<char>) -> Option<u16> {
    let d = unsigned_digits(t);
    if d.len() > 0 && (forall|m: int| 0 <= m < d.len() ==> is_hex(#[trigger] d[m]))
        && hex_seq_value(d) < 65536 {
        Some(hex_seq_value(d) as u16)
    } else {
        None
    }
}

/// `u16::from_str_radix(t, 16)`, with `None` in place of an error.
pub fn parse_hex_word(t: &Vec<char>) -> (r: Option<u16>)
    ensures
        r == parse_hex_u16(t@),
{
    let start: usize = if t.len() > 0 && t[0] == '+' { 1 } else { 0 };
    let ghost d = unsigned_digits(t@);
    proof {
        assert(d =~= t@.subrange(start as int, t@.len() as int));
    }
    if start >= t.len() {
        return None;
    }
    let mut v: u32 = 0;
    let mut i: usize = start;
    while i < t.len()
        invariant
            start <= i <= t.len(),
            d == unsigned_digits(t@),
            d == t@.subrange(start as int, t@.len() as int),
            forall|m: int| start <= m < i ==> is_hex(#[trigger] t@[m]),
            v as int == hex_seq_value(t@.subrange(start as int, i as int)),
            v < 65536,
        decreases t.len() - i,
    {
        let ghost pre = t@.subrange(start as int, i as int);
        let ghost nxt = t@.subrange(start as int, i + 1);
        proof {
            assert(nxt.drop_last() =~= pre);
            assert(nxt.last() == t@[i as int]);
        }
        match hex_digit(t[i]) {
            Some(h) => {
                let nv: u32 = 16 * v + (h as u32);
                if nv >= 65536 {
                    proof {
                        assert(hex_seq_value(nxt) == 16 * hex_seq_value(pre) + hex_digit_value(t@[i as int]));
                        if forall|m: int| 0 <= m < d.len() ==> is_hex(#[trigger] d[m]) {
                            lemma_hex_seq_value_grows(d, (i + 1 - start) as int);
                            assert(d.subrange(0, (i + 1 - start) as int) =~= nxt);
                        }
                    }
                    return None;
                }
                v = nv;
            },
            None => {
                proof {
                    assert(d[(i - start) as int] == t@[i as int]);
                }
                return None;
            },
        }
        i = i + 1;
    }
    proof {
        assert(t@.subrange(start as int, i as int) =~= d);
        assert forall|m: int| 0 <= m < d.len() implies is_hex(#[trigger] d[m]) by {
            assert(d[m] == t@[start + m]);
        }
    }
    Some(v as u16)
}

/// A vector holding the bytes of a slice.
pub fn copy_bytes(b: &[u8]) -> (v: Vec<u8>)
    ensures
        v@ == b@,
{
    let mut v: Vec<u8> = Vec::new();
    let mut i: usize = 0;
    while i < b.len()
        invariant
            i <= b.len(),
            v@ == b@.take(i as int),
        decreases b.len() - i,
    {
        v.push(b[i]);
        proof {
            assert(b@.take(i + 1) =~= b@.take(i as int).push(b@[i as int]));
        }
        i = i + 1;
    }
    proof {
        assert(b@.take(b.len() as int) =~= b@);
    }
    v
}

/// Index of the first `c` in `s`, or its length when there is none.
pub open spec fn first_index_of(s: Seq<char>, c: char) -> int {
    if s.contains(c) {
        choose|i: int| 0 <= i < s.len() && s[i] == c && forall|j: int| 0 <= j < i ==> s[j] != c
    } else {
        s.len() as int
    }
}

/// When `c` occurs in `s`, [`first_index_of`] is its first occurrence.
pub proof fn lemma_first_index_found(s: Seq<char>, c: char)
    requires
        s.contains(c),
    ensures
        0 <= first_index_of(s, c) < s.len(),
        s[first_index_of(s, c)] == c,
        forall|j: int| 0 <= j < first_index_of(s, c) ==> s[j] != c,
    decreases s.len(),
{
    if s[0] == c {
        assert(0 <= 0 < s.len() && s[0] == c && forall|j: int| 0 <= j < 0 ==> s[j] != c);
    } else {
        let t = s.drop_first();
        assert(t.contains(c)) by {
            let k = choose|k: int| 0 <= k < s.len() && s[k] == c;
            assert(t[k - 1] == c);
        }
        lemma_first_index_found(t, c);
        let i = first_index_of(t, c) + 1;
        assert(0 <= i < s.len() && s[i] == c && forall|j: int| 0 <= j < i ==> s[j] != c) by {
            assert forall|j: int| 0 <= j < i implies s[j] != c by {
                if j > 0 {
                    assert(s[j] == t[j - 1]);
                }
            }
        }
    }
}

/// Index of the first `c` in `v`, or its length.
pub fn index_of(v: &Vec<char>, c: char) -> (r: usize)
    ensures
        r == first_index_of(v@, c),
        r <= v.len(),
        forall|j: int| 0 <= j < r ==> v@[j] != c,
        r < v.len() ==> v@[r as int] == c,
{
    let mut i: usize = 0;
    while i < v.len()
        invariant
            i <= v.len(),
            forall|j: int| 0 <= j < i ==> v@[j] != c,
        decreases v.len() - i,
    {
        if v[i] == c {
            proof {
                let k = choose|k: int| 0 <= k < v@.len() && v@[k] == c && forall|j: int| 0 <= j < k ==> v@[j] != c;
                assert(v@[i as int] == c);
                if k < i {
                } else if k > i {
                    assert(v@[i as int] != c);
                }
            }
            return i;
        }
        i = i + 1;
    }
    proof {
        assert(!v@.contains(c));
    }
    i
}

/// The pieces of `s` between the characters that satisfy `is_sep` (`str::split`
/// with a set of separator characters): always at least one piece, possibly
/// empty ones.
pub open spec fn split_lines(s: Seq<char>) -> Seq<Seq<char>>
    decreases s.len(),
{
    let k = line_len(s);
    if k < s.len() {
        seq![s.subrange(0, k as int)] + split_lines(s.subrange(k as int + 1, s.len() as int))
    } else {
        seq![s]
    }
}

/// Whether `c` ends a piece for [`split_lines`]: carriage return or line feed.
pub open spec fn is_line_sep(c: char) -> bool {
    c == '\r' || c == '\n'
}

/// Number of characters before the first line separator.
pub open spec fn line_len(t: Seq<char>) -> nat
    decreases t.len(),
{
    if t.len() == 0 || is_line_sep(t[0]) {
        0
    } else {
        1 + line_len(t.drop_first())
    }
}

proof fn lemma_line_len_at(t: Seq<char>, k: int)
    requires
        0 <= k <= t.len(),
        forall|m: int| 0 <= m < k ==> !is_line_sep(#[trigger] t[m]),
        k == t.len() || is_line_sep(t[k]),
    ensures
        line_len(t) == k,
    decreases k,
{
    if k > 0 {
        lemma_line_len_at(t.drop_first(), k - 1);
    }
}

/// The pieces of `v` between carriage returns and line feeds
/// (`split(['\r', '\n'])`).
pub fn split_cr_lf(v: &Vec<char>) -> (r: Vec<Vec<char>>)
    ensures
        r@.len() == split_lines(v@).len(),
        forall|k: int| 0 <= k < r@.len() ==> (#[trigger] r@[k])@ == split_lines(v@)[k],
{
    let mut out: Vec<Vec<char>> = Vec::new();
    let ghost acc: Seq<Seq<char>> = Seq::empty();
    let mut i: usize = 0;
    proof {
        assert(v@.subrange(0, v@.len() as int) =~= v@);
    }
    loop
        invariant
            i <= v.len(),
            out@.len() == acc.len(),
            forall|k: int| 0 <= k < out@.len() ==> (#[trigger] out@[k])@ == acc[k],
            split_lines(v@) == acc + split_lines(v@.subrange(i as int, v@.len() as int)),
        decreases v.len() - i,
    {
        let ghost rest = v@.subrange(i as int, v@.len() as int);
        let mut j: usize = i;
        while j < v.len() && !(v[j] == '\r' || v[j] == '\n')
            invariant
                i <= j <= v.len(),
                forall|m: int| i <= m < j ==> !is_line_sep(#[trigger] v@[m]),
            decreases v.len() - j,
        {
            j = j + 1;
        }
        proof {
            assert forall|m: int| 0 <= m < j - i implies !is_line_sep(#[trigger] rest[m]) by {
                assert(rest[m] == v@[i + m]);
            }
            lemma_line_len_at(rest, (j - i) as int);
            assert(rest.subrange(0, (j - i) as int) =~= v@.subrange(i as int, j as int));
        }
        let piece = chars_range(v, i, j);
        out.push(piece);
        if j == v.len() {
            proof {
                assert(rest =~= v@.subrange(i as int, j as int));
                acc = acc.push(v@.subrange(i as int, j as int));
                assert(split_lines(v@) =~= acc);
            }
            return out;
        }
        proof {
            assert(rest.subrange((j - i) + 1, rest.len() as int) =~= v@.subrange(j + 1, v@.len() as int));
            acc = acc.push(v@.subrange(i as int, j as int));
            assert(split_lines(v@) =~= acc + split_lines(v@.subrange(j + 1, v@.len() as int)));
        }
        i = j + 1;
    }
}

/// The lines of a text (`str::lines`): pieces ending at each `\n`, without
/// the `\n` and without a `\r` just before it; a final piece without `\n`
/// is kept as it is, and there is no empty last line after a final `\n`.
#[verifier::opaque]
pub open spec fn text_lines(s: Seq<char>) -> Seq<Seq<char>>
    decreases s.len(),
{
    if s.len() == 0 {
        Seq::empty()
    } else if s.contains('\n') {
        let k = first_index_of(s, '\n');
        if 0 <= k < s.len() {
            let piece = s.subrange(0, k);
            let line = if piece.len() > 0 && piece.last() == '\r' { piece.drop_last() } else { piece };
            seq![line] + text_lines(s.subrange(k + 1, s.len() as int))
        } else {
            seq![s]
        }
    } else {
        seq![s]
    }
}

pub proof fn lemma_first_index(s: Seq<char>, c: char, k: int)
    requires
        0 <= k < s.len(),
        s[k] == c,
        forall|j: int| 0 <= j < k ==> s[j] != c,
    ensures
        first_index_of(s, c) == k,
{
    assert(s.contains(c));
    let i = first_index_of(s, c);
    if i < k {
        assert(s[i] == c);
    } else if i > k {
        assert(s[k] != c);
    }
}

/// A line without the carriage return that may end it.
pub open spec fn strip_cr(piece: Seq<char>) -> Seq<char> {
    if piece.len() > 0 && piece.last() == '\r' { piece.drop_last() } else { piece }
}

proof fn lemma_text_lines_first(s: Seq<char>)
    requires
        s.contains('\n'),
    ensures
        0 <= first_index_of(s, '\n') < s.len(),
        text_lines(s) == seq![strip_cr(s.subrange(0, first_index_of(s, '\n')))] + text_lines(
            s.subrange(first_index_of(s, '\n') + 1, s.len() as int),
        ),
{
    lemma_first_index_found(s, '\n');
    reveal(text_lines);
}

/// Splitting a text after a line break splits its lines.
pub proof fn lemma_text_lines_append(a: Seq<char>, b: Seq<char>)
    requires
        a.len() == 0 || a.last() == '\n',
    ensures
        text_lines(a + b) == text_lines(a) + text_lines(b),
    decreases a.len(),
{
    if a.len() == 0 {
        reveal(text_lines);
        assert(a + b =~= b);
        assert(text_lines(a) =~= Seq::<Seq<char>>::empty());
        assert(text_lines(a) + text_lines(b) =~= text_lines(b));
    } else {
        assert(a.contains('\n')) by {
            assert(a[a.len() - 1] == '\n');
        }
        lemma_first_index_found(a, '\n');
        let k = first_index_of(a, '\n');
        let ab = a + b;
        assert forall|j: int| 0 <= j < k implies ab[j] != '\n' by {
            assert(ab[j] == a[j]);
        }
        assert(ab[k] == '\n');
        lemma_first_index(ab, '\n', k);
        assert(ab.contains('\n'));
        lemma_text_lines_first(ab);
        lemma_text_lines_first(a);
        assert(ab.subrange(0, k) =~= a.subrange(0, k));
        let a2 = a.subrange(k + 1, a.len() as int);
        assert(ab.subrange(k + 1, ab.len() as int) =~= a2 + b);
        assert(a2.len() == 0 || a2.last() == '\n') by {
            if a2.len() > 0 {
                assert(a2.last() == a[a.len() - 1]);
            }
        }
        lemma_text_lines_append(a2, b);
        let line = strip_cr(a.subrange(0, k));
        assert(seq![line] + (text_lines(a2) + text_lines(b)) =~= (seq![line] + text_lines(a2)) + text_lines(b));
    }
}

/// The lines of one line ending in a line break.
pub proof fn lemma_text_lines_single(x: Seq<char>)
    requires
        !x.contains('\n'),
    ensures
        text_lines(x + seq!['\n']) == seq![strip_cr(x)],
{
    let s = x + seq!['\n'];
    assert forall|j: int| 0 <= j < x.len() implies s[j] != '\n' by {
        assert(s[j] == x[j]);
        if x[j] == '\n' {
            assert(x.contains('\n'));
        }
    }
    lemma_first_index(s, '\n', x.len() as int);
    assert(s.contains('\n')) by {
        assert(s[x.len() as int] == '\n');
    }
    lemma_text_lines_first(s);
    assert(s.subrange(0, x.len() as int) =~= x);
    assert(s.subrange(x.len() as int + 1, s.len() as int) =~= Seq::<char>::empty());
    reveal(text_lines);
    assert(text_lines(Seq::<char>::empty()) =~= Seq::<Seq<char>>::empty());
    assert(text_lines(s) =~= seq![strip_cr(x)]);
}

/// A character absent from two texts is absent from their concatenation.
pub proof fn lemma_concat_lacks(a: Seq<char>, b: Seq<char>, c: char)
    requires
        !a.contains(c),
        !b.contains(c),
    ensures
        !(a + b).contains(c),
{
    if (a + b).contains(c) {
        let k = choose|k: int| 0 <= k < (a + b).len() && (a + b)[k] == c;
        if k < a.len() {
            assert(a[k] == c);
        } else {
            assert(b[k - a.len()] == c);
        }
    }
}

/// Decimal digits hold no line break.
pub proof fn lemma_decimal_no_newline(n: nat)
    ensures
        !decimal(n).contains('\n'),
    decreases n,
{
    if n >= 10 {
        lemma_decimal_no_newline(n / 10);
        let d = decimal(n / 10);
        let c = digit_char(n as int % 10);
        assert(c != '\n');
        assert(decimal(n) == d.push(c));
        if decimal(n).contains('\n') {
            let k = choose|k: int| 0 <= k < decimal(n).len() && decimal(n)[k] == '\n';
            if k < d.len() {
                assert(d[k] == '\n');
            }
        }
    } else {
        assert(decimal(n) =~= seq![digit_char(n as int)]);
    }
}

/// The lines of `v` (`str::lines`).
pub fn split_text_lines(v: &Vec<char>) -> (r: Vec<Vec<char>>)
    ensures
        r@.len() == text_lines(v@).len(),
        forall|k: int| 0 <= k < r@.len() ==> (#[trigger] r@[k])@ == text_lines(v@)[k],
{
    reveal(text_lines);
    let mut out: Vec<Vec<char>> = Vec::new();
    let ghost acc: Seq<Seq<char>> = Seq::empty();
    let mut rest: Vec<char> = chars_range(v, 0, v.len());
    proof {
        assert(v@.subrange(0, v@.len() as int) =~= v@);
        assert(acc + text_lines(v@) =~= text_lines(v@));
    }
    while rest.len() > 0
        invariant
            out@.len() == acc.len(),
            forall|k: int| 0 <= k < out@.len() ==> (#[trigger] out@[k])@ == acc[k],
            text_lines(v@) == acc + text_lines(rest@),
        decreases rest.len(),
    {
        proof {
            reveal(text_lines);
        }
        let k = index_of(&rest, '\n');
        if k < rest.len() {
            proof {
                assert(rest@.contains('\n'));
            }
            let mut piece = chars_range(&rest, 0, k);
            if piece.len() > 0 && piece[piece.len() - 1] == '\r' {
                piece.pop();
            }
            let next = chars_range(&rest, k + 1, rest.len());
            proof {
                let line = if rest@.subrange(0, k as int).len() > 0 && rest@.subrange(0, k as int).last() == '\r' {
                    rest@.subrange(0, k as int).drop_last()
                } else {
                    rest@.subrange(0, k as int)
                };
                assert(piece@ =~= line);
                assert(text_lines(rest@) == seq![line] + text_lines(next@));
                acc = acc.push(line);
                assert(text_lines(v@) =~= acc + text_lines(next@));
            }
            out.push(piece);
            rest = next;
        } else {
            proof {
                assert(!rest@.contains('\n'));
                acc = acc.push(rest@);
                assert(text_lines(v@) =~= acc);
                assert(text_lines(Seq::<char>::empty()) =~= Seq::<Seq<char>>::empty());
            }
            let last = chars_range(&rest, 0, rest.len());
            proof {
                assert(last@ =~= rest@);
                assert(acc + text_lines(Seq::<char>::empty()) =~= acc);
            }
            out.push(last);
            rest = Vec::new();
            proof {
                assert(rest@ =~= Seq::<char>::empty());
            }
        }
    }
    proof {
        assert(text_lines(rest@) =~= Seq::<Seq<char>>::empty());
        assert(acc + Seq::<Seq<char>>::empty() =~= acc);
    }
    out
}

/// `s` with every occurrence of `c` removed (`replace(c, "")`).
pub open spec fn remove_char(s: Seq<char>, c: char) -> Seq<char>
    decreases s.len(),
{
    if s.len() == 0 {
        s
    } else if s.last() == c {
        remove_char(s.drop_last(), c)
    } else {
        remove_char(s.drop_last(), c).push(s.last())
    }
}

pub fn remove_all(v: &Vec<char>, c: char) -> (r: Vec<char>)
    ensures
        r@ == remove_char(v@, c),
{
    let mut out: Vec<char> = Vec::new();
    let mut i: usize = 0;
    while i < v.len()
        invariant
            i <= v.len(),
            out@ == remove_char(v@.take(i as int), c),
        decreases v.len() - i,
    {
        proof {
            assert(v@.take(i + 1).drop_last() =~= v@.take(i as int));
        }
        if v[i] != c {
            out.push(v[i]);
        }
        i = i + 1;
    }
    proof {
        assert(v@.take(v@.len() as int) =~= v@);
    }
    out
}

} // verus!
