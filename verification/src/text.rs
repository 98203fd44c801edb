//! Character-level string toolkit shared by every module: conversions
//! between `str`/`String` and `Vec<char>`, ASCII classification, searching,
//! splitting and number formatting — each with a spec over `Seq<char>`.
use vstd::prelude::*;

verus! {

// ---------------------------------------------------------------------------
// Conversions
// ---------------------------------------------------------------------------

/// The characters of `s`, in order.
pub fn chars_of(s: &str) -> (v: Vec<char>)
    ensures
        v@ == s@,
{
    let mut v: Vec<char> = Vec::new();
    for c in it: s.chars()
        invariant
            v@ == it.seq().take(it.index() as int),
    {
        v.push(c);
    }
    v
}

/// Appends one character (std's `String::push`).
#[verifier::external_body]
pub(crate) fn push_char(s: &mut String, c: char)
    ensures
        final(s)@ == old(s)@.push(c),
{
    s.push(c);
}

/// A fresh `String` holding exactly `v`.
pub fn string_of(v: &[char]) -> (s: String)
    ensures
        s@ == v@,
{
    let mut s = String::new();
    let mut i: usize = 0;
    while i < v.len()
        invariant
            i <= v@.len(),
            s@ == v@.take(i as int),
        decreases v@.len() - i,
    {
        push_char(&mut s, v[i]);
        assert(v@.take(i as int).push(v@[i as int]) == v@.take(i + 1));
        i = i + 1;
    }
    assert(v@.take(v@.len() as int) == v@);
    s
}

/// `s` with `c` inserted at character index `i`.
pub fn str_insert_char(s: &str, i: usize, c: char) -> (r: String)
    requires
        i <= s@.len(),
    ensures
        r@ == s@.insert(i as int, c),
{
    let mut v = chars_of(s);
    v.insert(i, c);
    string_of(&v)
}

/// `s` without the character at index `i`.
pub fn str_remove_char(s: &str, i: usize) -> (r: String)
    requires
        i < s@.len(),
    ensures
        r@ == s@.remove(i as int),
{
    let mut v = chars_of(s);
    v.remove(i);
    string_of(&v)
}

/// `s` without its last character (std's `String::pop`, keeping the rest);
/// an empty `s` stays empty.
pub fn str_pop_char(s: &str) -> (r: String)
    ensures
        r@ == (if s@.len() > 0 {
            s@.drop_last()
        } else {
            s@
        }),
{
    let mut v = chars_of(s);
    if v.len() > 0 {
        v.pop();
    }
    string_of(&v)
}

/// `s` with `c` appended.
pub fn str_push_char(s: &str, c: char) -> (r: String)
    ensures
        r@ == s@.push(c),
{
    let mut r = owned(s);
    push_char(&mut r, c);
    r
}

/// A fresh `String` copy of `s`.
pub fn owned(s: &str) -> (r: String)
    ensures
        r@ == s@,
{
    s.to_owned()
}

/// `a` followed by `b`.
pub fn concat(a: &str, b: &str) -> (r: String)
    ensures
        r@ == a@ + b@,
{
    let mut r = a.to_owned();
    r.append(b);
    r
}

/// `a`, `b` and `c` in sequence.
pub fn concat3(a: &str, b: &str, c: &str) -> (r: String)
    ensures
        r@ == a@ + b@ + c@,
{
    let mut r = a.to_owned();
    r.append(b);
    r.append(c);
    r
}

/// Whether two strings hold the same characters.
pub fn str_eq(a: &str, b: &str) -> (r: bool)
    ensures
        r == (a@ == b@),
{
    let av = chars_of(a);
    let bv = chars_of(b);
    chars_eq(&av, &bv)
}

/// Whether two character slices are equal.
pub fn chars_eq(a: &[char], b: &[char]) -> (r: bool)
    ensures
        r == (a@ == b@),
{
    if a.len() != b.len() {
        return false;
    }
    let mut i: usize = 0;
    while i < a.len()
        invariant
            a@.len() == b@.len(),
            i <= a@.len(),
            forall|j: int| 0 <= j < i ==> a@[j] == b@[j],
        decreases a@.len() - i,
    {
        if a[i] != b[i] {
            return false;
        }
        i = i + 1;
    }
    assert(a@ =~= b@);
    true
}

// ---------------------------------------------------------------------------
// ASCII classification
// ---------------------------------------------------------------------------

pub open spec fn is_ascii_digit(c: char) -> bool {
    '0' <= c && c <= '9'
}

pub open spec fn is_ascii_upper(c: char) -> bool {
    'A' <= c && c <= 'Z'
}

pub open spec fn is_ascii_lower(c: char) -> bool {
    'a' <= c && c <= 'z'
}

pub open spec fn is_ascii_alpha(c: char) -> bool {
    is_ascii_upper(c) || is_ascii_lower(c)
}

pub open spec fn is_ascii_alnum(c: char) -> bool {
    is_ascii_alpha(c) || is_ascii_digit(c)
}

/// ASCII-only lowercasing of one character (std's `char::to_ascii_lowercase`).
pub open spec fn ascii_lower(c: char) -> char {
    if is_ascii_upper(c) {
        ((c as u32) + 32) as char
    } else {
        c
    }
}

pub fn char_is_ascii_digit(c: char) -> (r: bool)
    ensures
        r == is_ascii_digit(c),
{
    '0' <= c && c <= '9'
}

pub fn char_is_ascii_alpha(c: char) -> (r: bool)
    ensures
        r == is_ascii_alpha(c),
{
    ('A' <= c && c <= 'Z') || ('a' <= c && c <= 'z')
}

pub fn char_is_ascii_alnum(c: char) -> (r: bool)
    ensures
        r == is_ascii_alnum(c),
{
    char_is_ascii_alpha(c) || char_is_ascii_digit(c)
}

pub fn char_ascii_lower(c: char) -> (r: char)
    ensures
        r == ascii_lower(c),
{
    if 'A' <= c && c <= 'Z' {
        let code: u32 = c as u32;
        assert(65 <= code <= 90);
        let lowered: u32 = code + 32;
        let r = char_from_ascii_code(lowered);
        r
    } else {
        c
    }
}

/// The character with code point `code`, for a code point in the ASCII range.
pub fn char_from_ascii_code(code: u32) -> (c: char)
    requires
        code < 128,
    ensures
        c == code as char,
        c as u32 == code,
{
    let b: u8 = code as u8;
    b as char
}

/// Whether two strings are equal when ASCII letters are compared without case
/// (std's `str::eq_ignore_ascii_case`).
pub open spec fn eq_ignore_ascii_case_spec(a: Seq<char>, b: Seq<char>) -> bool {
    a.len() == b.len() && forall|i: int| 0 <= i < a.len() ==> ascii_lower(a[i]) == ascii_lower(b[i])
}

pub fn eq_ignore_ascii_case(a: &str, b: &str) -> (r: bool)
    ensures
        r == eq_ignore_ascii_case_spec(a@, b@),
{
    let av = chars_of(a);
    let bv = chars_of(b);
    if av.len() != bv.len() {
        return false;
    }
    let mut i: usize = 0;
    while i < av.len()
        invariant
            av@ == a@,
            bv@ == b@,
            av@.len() == bv@.len(),
            i <= av@.len(),
            forall|j: int| 0 <= j < i ==> ascii_lower(av@[j]) == ascii_lower(bv@[j]),
        decreases av@.len() - i,
    {
        if char_ascii_lower(av[i]) != char_ascii_lower(bv[i]) {
            return false;
        }
        i = i + 1;
    }
    true
}

// ---------------------------------------------------------------------------
// Unicode lowercasing (std's `str::to_lowercase`)
// ---------------------------------------------------------------------------

/// Name for what std's `str::to_lowercase` returns for a character
/// sequence that is not all ASCII — Unicode's full lowercase mapping, which
/// a character at a time can expand to several characters and depends on
/// context (final sigma).
pub uninterp spec fn spec_unicode_lowercase(s: Seq<char>) -> Seq<char>;

/// Every character is ASCII.
pub open spec fn is_ascii_text(s: Seq<char>) -> bool {
    forall|i: int| 0 <= i < s.len() ==> (#[trigger] s[i] as u32) < 128
}

/// What std's `str::to_lowercase` returns: on ASCII text exactly `A`–`Z`
/// turned to `a`–`z` (the lowercase mapping std's `char::to_lowercase`
/// documents for ASCII, as `char::to_ascii_lowercase`); otherwise the
/// Unicode mapping, named by `spec_unicode_lowercase`, which never holds an
/// ASCII capital (Unicode's lowercase mapping of any character is never
/// one of `A`–`Z`), so lowering its ASCII letters again leaves it as it is.
pub open spec fn spec_to_lowercase(s: Seq<char>) -> Seq<char> {
    if is_ascii_text(s) {
        s.map_values(|c: char| ascii_lower(c))
    } else {
        spec_unicode_lowercase(s).map_values(|c: char| ascii_lower(c))
    }
}

/// std's `str::to_lowercase`. Stated: ASCII text is lowercased letter by
/// letter, everything else left as is; for other text the result is named
/// by `spec_unicode_lowercase` and holds no ASCII capital.
#[verifier::external_body]
pub(crate) fn to_lowercase(s: &str) -> (r: String)
    ensures
        r@ == spec_to_lowercase(s@),
        !is_ascii_text(s@) ==> r@ == spec_unicode_lowercase(s@),
{
    s.to_lowercase()
}

/// ASCII lowercasing never leaves a capital.
pub proof fn lemma_ascii_lower_not_upper(c: char)
    ensures
        !is_ascii_upper(ascii_lower(c)),
{
}

/// No lowercased text holds an ASCII capital.
pub proof fn lemma_lowercase_has_no_capitals(s: Seq<char>)
    ensures
        forall|i: int| 0 <= i < spec_to_lowercase(s).len() ==> !is_ascii_upper(#[trigger] spec_to_lowercase(s)[i]),
{
    assert forall|i: int| 0 <= i < spec_to_lowercase(s).len() implies !is_ascii_upper(
        #[trigger] spec_to_lowercase(s)[i],
    ) by {
        if is_ascii_text(s) {
            lemma_ascii_lower_not_upper(s[i]);
        } else {
            lemma_ascii_lower_not_upper(spec_unicode_lowercase(s)[i]);
        }
    }
}

// ---------------------------------------------------------------------------
// UTF-8
// ---------------------------------------------------------------------------

/// What `std::str::from_utf8` gives for a byte sequence: its characters
/// when the bytes are valid UTF-8 (vstd's `valid_utf8`: well-formed, no
/// overlong encoding, no surrogate), else nothing.
pub open spec fn spec_utf8(bytes: Seq<u8>) -> Option<Seq<char>> {
    if vstd::utf8::valid_utf8(bytes) {
        Some(vstd::utf8::decode_utf8(bytes))
    } else {
        None
    }
}

/// std's `str::from_utf8`, as an owned string: the decoded characters
/// exactly when the bytes are valid UTF-8 (see `spec_utf8`).
#[verifier::external_body]
pub(crate) fn utf8_decode(bytes: &[u8]) -> (r: Option<String>)
    ensures
        match r {
            Some(s) => spec_utf8(bytes@) == Some(s@),
            None => spec_utf8(bytes@) is None,
        },
{
    std::str::from_utf8(bytes).ok().map(|s| s.to_string())
}

// ---------------------------------------------------------------------------
// Searching
// ---------------------------------------------------------------------------

/// `p` occurs in `s` starting at index `i`.
pub open spec fn matches_at(s: Seq<char>, p: Seq<char>, i: int) -> bool {
    0 <= i && i + p.len() <= s.len() && s.subrange(i, i + p.len()) == p
}

/// The first index `>= i` at which `p` occurs in `s`, if any.
pub open spec fn find_from(s: Seq<char>, p: Seq<char>, i: int) -> Option<int>
    decreases s.len() + 1 - i,
{
    if i < 0 || i + p.len() > s.len() {
        None
    } else if matches_at(s, p, i) {
        Some(i)
    } else {
        find_from(s, p, i + 1)
    }
}

/// The first occurrence of `p` in `s` (std's `str::find` with a string pattern,
/// counted in characters rather than bytes).
pub open spec fn find_spec(s: Seq<char>, p: Seq<char>) -> Option<int> {
    find_from(s, p, 0)
}

/// `p` occurs somewhere in `s` (std's `str::contains`).
pub open spec fn contains_spec(s: Seq<char>, p: Seq<char>) -> bool {
    find_spec(s, p) is Some
}

pub proof fn lemma_find_from_props(s: Seq<char>, p: Seq<char>, i: int)
    requires
        0 <= i,
    ensures
        match find_from(s, p, i) {
            Some(k) => i <= k && matches_at(s, p, k) && forall|j: int|
                i <= j < k ==> !matches_at(s, p, j),
            None => forall|j: int| i <= j ==> !matches_at(s, p, j),
        },
    decreases s.len() + 1 - i,
{
    if i + p.len() > s.len() {
    } else if matches_at(s, p, i) {
    } else {
        lemma_find_from_props(s, p, i + 1);
    }
}

/// `contains_spec` holds exactly when `p` matches at some index.
pub proof fn lemma_contains_iff(s: Seq<char>, p: Seq<char>)
    ensures
        contains_spec(s, p) <==> exists|j: int| matches_at(s, p, j),
{
    lemma_find_from_props(s, p, 0);
    if contains_spec(s, p) {
        let k = find_spec(s, p)->0;
        assert(matches_at(s, p, k));
    }
}

/// Whether `p` matches `s` at index `i` (exec).
pub fn chars_match_at(s: &[char], p: &[char], i: usize) -> (r: bool)
    ensures
        r == matches_at(s@, p@, i as int),
{
    if i > s.len() || p.len() > s.len() - i {
        return false;
    }
    let mut j: usize = 0;
    while j < p.len()
        invariant
            i <= s@.len(),
            i + p@.len() <= s@.len(),
            j <= p@.len(),
            forall|k: int| 0 <= k < j ==> s@[i + k] == p@[k],
        decreases p@.len() - j,
    {
        assert(i + j < s.len());
        let k: usize = i + j;
        if s[k] != p[j] {
            assert(s@.subrange(i as int, i + p@.len())[j as int] != p@[j as int]);
            return false;
        }
        j = j + 1;
    }
    assert(s@.subrange(i as int, i + p@.len()) =~= p@);
    true
}

/// First occurrence of `p` in `s` at or after `from`.
pub fn chars_find_from(s: &[char], p: &[char], from: usize) -> (r: Option<usize>)
    ensures
        match r {
            Some(k) => find_from(s@, p@, from as int) == Some(k as int),
            None => find_from(s@, p@, from as int) is None,
        },
{
    let mut i: usize = from;
    while i <= s.len() && p.len() <= s.len() - i
        invariant
            from <= i,
            find_from(s@, p@, from as int) == find_from(s@, p@, i as int),
        decreases s@.len() + 1 - i,
    {
        if chars_match_at(s, p, i) {
            return Some(i);
        }
        if i == s.len() {
            assert(find_from(s@, p@, i + 1) is None);
            return None;
        }
        i = i + 1;
    }
    None
}

/// First occurrence of `p` in `s`.
pub fn chars_find(s: &[char], p: &[char]) -> (r: Option<usize>)
    ensures
        match r {
            Some(k) => find_spec(s@, p@) == Some(k as int),
            None => find_spec(s@, p@) is None,
        },
{
    chars_find_from(s, p, 0)
}

/// std's `str::contains` with a string pattern.
pub fn str_contains(s: &str, p: &str) -> (r: bool)
    ensures
        r == contains_spec(s@, p@),
{
    let sv = chars_of(s);
    let pv = chars_of(p);
    chars_find(&sv, &pv).is_some()
}

/// `s` begins with `p` (std's `str::starts_with`).
pub open spec fn starts_with_spec(s: Seq<char>, p: Seq<char>) -> bool {
    p.len() <= s.len() && s.subrange(0, p.len() as int) == p
}

/// `s` ends with `p` (std's `str::ends_with`).
pub open spec fn ends_with_spec(s: Seq<char>, p: Seq<char>) -> bool {
    p.len() <= s.len() && s.subrange(s.len() - p.len(), s.len() as int) == p
}

pub fn str_starts_with(s: &str, p: &str) -> (r: bool)
    ensures
        r == starts_with_spec(s@, p@),
{
    let sv = chars_of(s);
    let pv = chars_of(p);
    chars_match_at(&sv, &pv, 0)
}

pub fn str_ends_with(s: &str, p: &str) -> (r: bool)
    ensures
        r == ends_with_spec(s@, p@),
{
    let sv = chars_of(s);
    let pv = chars_of(p);
    if pv.len() > sv.len() {
        return false;
    }
    chars_match_at(&sv, &pv, sv.len() - pv.len())
}


/// Last occurrence of `p` in `s` at or before index `i`.
pub open spec fn rfind_upto(s: Seq<char>, p: Seq<char>, i: int) -> Option<int>
    decreases i + 1,
{
    if i < 0 {
        None
    } else if matches_at(s, p, i) {
        Some(i)
    } else {
        rfind_upto(s, p, i - 1)
    }
}

proof fn lemma_rfind_upto_props(s: Seq<char>, p: Seq<char>, i: int)
    ensures
        rfind_upto(s, p, i) matches Some(k) ==> k <= i && matches_at(s, p, k),
    decreases i + 1,
{
    if i >= 0 && !matches_at(s, p, i) {
        lemma_rfind_upto_props(s, p, i - 1);
    }
}

/// Where `rfind` finds `p`, `p` occurs.
pub proof fn lemma_rfind_props(s: Seq<char>, p: Seq<char>)
    ensures
        rfind_spec(s, p) matches Some(k) ==> matches_at(s, p, k),
{
    lemma_rfind_upto_props(s, p, s.len() - p.len());
}

/// The last occurrence of `p` in `s` (std's `str::rfind`, counted in characters).
pub open spec fn rfind_spec(s: Seq<char>, p: Seq<char>) -> Option<int> {
    rfind_upto(s, p, s.len() - p.len())
}

/// Last occurrence of `p` in `s`.
pub fn chars_rfind(s: &[char], p: &[char]) -> (r: Option<usize>)
    ensures
        match r {
            Some(k) => rfind_spec(s@, p@) == Some(k as int),
            None => rfind_spec(s@, p@) is None,
        },
{
    if p.len() > s.len() {
        return None;
    }
    let mut i: usize = s.len() - p.len();
    loop
        invariant
            i + p@.len() <= s@.len(),
            rfind_spec(s@, p@) == rfind_upto(s@, p@, i as int),
        decreases i,
    {
        if chars_match_at(s, p, i) {
            return Some(i);
        }
        if i == 0 {
            assert(rfind_upto(s@, p@, -1) is None);
            return None;
        }
        i = i - 1;
    }
}

/// `s` without its prefix `p`, when it has one (std's `str::strip_prefix`).
pub open spec fn strip_prefix_spec(s: Seq<char>, p: Seq<char>) -> Option<Seq<char>> {
    if starts_with_spec(s, p) {
        Some(s.subrange(p.len() as int, s.len() as int))
    } else {
        None
    }
}

pub fn strip_prefix(s: &[char], p: &[char]) -> (r: Option<Vec<char>>)
    ensures
        match r {
            Some(v) => strip_prefix_spec(s@, p@) == Some(v@),
            None => strip_prefix_spec(s@, p@) is None,
        },
{
    if chars_match_at(s, p, 0) {
        Some(slice_range(s, p.len(), s.len()))
    } else {
        None
    }
}

/// `s[from..to]` as a fresh vector.
pub fn slice_range(s: &[char], from: usize, to: usize) -> (r: Vec<char>)
    requires
        from <= to <= s@.len(),
    ensures
        r@ == s@.subrange(from as int, to as int),
{
    let mut r: Vec<char> = Vec::new();
    let mut i: usize = from;
    while i < to
        invariant
            from <= i <= to,
            to <= s@.len(),
            r@ == s@.subrange(from as int, i as int),
        decreases to - i,
    {
        r.push(s[i]);
        assert(s@.subrange(from as int, i as int).push(s@[i as int]) == s@.subrange(
            from as int,
            i + 1,
        ));
        i = i + 1;
    }
    r
}

// ---------------------------------------------------------------------------
// Trimming
// ---------------------------------------------------------------------------

/// Unicode's `White_Space` property (std's `char::is_whitespace`).
pub open spec fn is_ws(c: char) -> bool {
    let u = c as u32;
    (9 <= u && u <= 13) || u == 32 || u == 0x85 || u == 0xA0 || u == 0x1680 || (0x2000 <= u
        && u <= 0x200A) || u == 0x2028 || u == 0x2029 || u == 0x202F || u == 0x205F || u
        == 0x3000
}

pub fn char_is_ws(c: char) -> (r: bool)
    ensures
        r == is_ws(c),
{
    let u: u32 = c as u32;
    (9 <= u && u <= 13) || u == 32 || u == 0x85 || u == 0xA0 || u == 0x1680 || (0x2000 <= u
        && u <= 0x200A) || u == 0x2028 || u == 0x2029 || u == 0x202F || u == 0x205F || u
        == 0x3000
}

/// Drops leading characters satisfying `f`.
pub open spec fn trim_start_by(s: Seq<char>, f: spec_fn(char) -> bool) -> Seq<char>
    decreases s.len(),
{
    if s.len() > 0 && f(s[0]) {
        trim_start_by(s.drop_first(), f)
    } else {
        s
    }
}

/// Drops trailing characters satisfying `f`.
pub open spec fn trim_end_by(s: Seq<char>, f: spec_fn(char) -> bool) -> Seq<char>
    decreases s.len(),
{
    if s.len() > 0 && f(s.last()) {
        trim_end_by(s.drop_last(), f)
    } else {
        s
    }
}

/// Both ends trimmed of characters satisfying `f`.
pub open spec fn trim_by(s: Seq<char>, f: spec_fn(char) -> bool) -> Seq<char> {
    trim_end_by(trim_start_by(s, f), f)
}

pub open spec fn ws_pred() -> spec_fn(char) -> bool {
    |c: char| is_ws(c)
}

pub open spec fn eq_pred(x: char) -> spec_fn(char) -> bool {
    |c: char| c == x
}

/// std's `str::trim`.
pub open spec fn trim_spec(s: Seq<char>) -> Seq<char> {
    trim_by(s, ws_pred())
}

/// std's `str::trim_matches` with a single character.
pub open spec fn trim_matches_spec(s: Seq<char>, x: char) -> Seq<char> {
    trim_by(s, eq_pred(x))
}

/// std's `str::trim_end_matches` with a single character.
pub open spec fn trim_end_matches_spec(s: Seq<char>, x: char) -> Seq<char> {
    trim_end_by(s, eq_pred(x))
}

proof fn lemma_trim_start_props(s: Seq<char>, f: spec_fn(char) -> bool) -> (a: int)
    ensures
        0 <= a <= s.len(),
        trim_start_by(s, f) == s.subrange(a, s.len() as int),
        a < s.len() ==> !f(s[a]),
    decreases s.len(),
{
    if s.len() > 0 && f(s[0]) {
        let a = lemma_trim_start_props(s.drop_first(), f);
        assert(s.drop_first().subrange(a, s.drop_first().len() as int) == s.subrange(a + 1, s.len() as int));
        a + 1
    } else {
        assert(s.subrange(0, s.len() as int) == s);
        0
    }
}

proof fn lemma_trim_end_props(s: Seq<char>, f: spec_fn(char) -> bool) -> (b: int)
    ensures
        0 <= b <= s.len(),
        trim_end_by(s, f) == s.subrange(0, b),
        b > 0 ==> !f(s[b - 1]),
    decreases s.len(),
{
    if s.len() > 0 && f(s.last()) {
        let b = lemma_trim_end_props(s.drop_last(), f);
        assert(s.drop_last().subrange(0, b) == s.subrange(0, b));
        b
    } else {
        assert(s.subrange(0, s.len() as int) == s);
        s.len() as int
    }
}

/// What trimming keeps is a contiguous piece of the input that neither
/// starts nor ends with a trimmed character.
pub proof fn lemma_trim_by_props(s: Seq<char>, f: spec_fn(char) -> bool) -> (ab: (int, int))
    ensures
        0 <= ab.0 <= ab.1 <= s.len(),
        trim_by(s, f) == s.subrange(ab.0, ab.1),
        trim_by(s, f).len() > 0 ==> !f(trim_by(s, f)[0]) && !f(trim_by(s, f).last()),
{
    let a = lemma_trim_start_props(s, f);
    let t = s.subrange(a, s.len() as int);
    let b = lemma_trim_end_props(t, f);
    assert(t.subrange(0, b) == s.subrange(a, a + b));
    if b > 0 {
        assert(t[0] == s[a]);
    }
    (a, a + b)
}

proof fn lemma_trim_start_keeps(s: Seq<char>, f: spec_fn(char) -> bool, j: int)
    requires
        0 <= j < s.len(),
        !f(s[j]),
    ensures
        exists|k: int| 0 <= k < trim_start_by(s, f).len() && !f(#[trigger] trim_start_by(s, f)[k]),
    decreases s.len(),
{
    if s.len() > 0 && f(s[0]) {
        assert(j > 0);
        assert(s.drop_first()[j - 1] == s[j]);
        lemma_trim_start_keeps(s.drop_first(), f, j - 1);
        assert(trim_start_by(s, f) == trim_start_by(s.drop_first(), f));
    } else {
        assert(trim_start_by(s, f) == s);
        assert(!f(trim_start_by(s, f)[j]));
    }
}

proof fn lemma_trim_end_keeps(s: Seq<char>, f: spec_fn(char) -> bool, j: int)
    requires
        0 <= j < s.len(),
        !f(s[j]),
    ensures
        trim_end_by(s, f).len() > 0,
    decreases s.len(),
{
    if s.len() > 0 && f(s.last()) {
        assert(s.drop_last()[j] == s[j]);
        lemma_trim_end_keeps(s.drop_last(), f, j);
    }
}

/// Trimming keeps something as long as some character is not trimmed.
pub proof fn lemma_trim_keeps(s: Seq<char>, f: spec_fn(char) -> bool, j: int)
    requires
        0 <= j < s.len(),
        !f(s[j]),
    ensures
        trim_by(s, f).len() > 0,
{
    lemma_trim_start_keeps(s, f, j);
    let t = trim_start_by(s, f);
    let k = choose|k: int| 0 <= k < t.len() && !f(#[trigger] t[k]);
    lemma_trim_end_keeps(t, f, k);
}

/// `trim_matches` keeps a contiguous piece of its input, starting at the
/// returned index.
pub proof fn lemma_trim_matches_sub(s: Seq<char>, x: char) -> (a: int)
    ensures
        0 <= a <= s.len(),
        a + trim_matches_spec(s, x).len() <= s.len(),
        trim_matches_spec(s, x) == s.subrange(a, a + trim_matches_spec(s, x).len()),
        trim_matches_spec(s, x).len() > 0 ==> trim_matches_spec(s, x)[0] != x && trim_matches_spec(s, x).last() != x,
{
    let ab = lemma_trim_by_props(s, eq_pred(x));
    ab.0
}

proof fn lemma_trim_start_step(s: Seq<char>, f: spec_fn(char) -> bool, i: int)
    requires
        0 <= i < s.len(),
        f(s[i]),
    ensures
        trim_start_by(s.subrange(i, s.len() as int), f) == trim_start_by(
            s.subrange(i + 1, s.len() as int),
            f,
        ),
{
    assert(s.subrange(i, s.len() as int).drop_first() == s.subrange(i + 1, s.len() as int));
}

proof fn lemma_trim_end_step(s: Seq<char>, f: spec_fn(char) -> bool, j: int)
    requires
        0 < j <= s.len(),
        f(s[j - 1]),
    ensures
        trim_end_by(s.subrange(0, j), f) == trim_end_by(s.subrange(0, j - 1), f),
{
    assert(s.subrange(0, j).drop_last() == s.subrange(0, j - 1));
}

fn is_trim_char(c: char, ws: bool, x: char) -> (r: bool)
    ensures
        r == (if ws {
            ws_pred()
        } else {
            eq_pred(x)
        })(c),
{
    if ws {
        char_is_ws(c)
    } else {
        c == x
    }
}

/// Index range `[a, b)` of `s` that survives trimming by whitespace
/// (`ws == true`) or by the character `x` (`ws == false`).
fn trim_bounds(s: &[char], ws: bool, x: char) -> (r: (usize, usize))
    ensures
        r.0 <= r.1 <= s@.len(),
        s@.subrange(r.0 as int, r.1 as int) == trim_by(
            s@,
            if ws {
                ws_pred()
            } else {
                eq_pred(x)
            },
        ),
{
    let ghost f = if ws {
        ws_pred()
    } else {
        eq_pred(x)
    };
    let mut a: usize = 0;
    assert(s@.subrange(0, s@.len() as int) == s@);
    while a < s.len() && is_trim_char(s[a], ws, x)
        invariant
            a <= s@.len(),
            f == (if ws {
                ws_pred()
            } else {
                eq_pred(x)
            }),
            trim_start_by(s@, f) == trim_start_by(s@.subrange(a as int, s@.len() as int), f),
        decreases s@.len() - a,
    {
        proof {
            lemma_trim_start_step(s@, f, a as int);
        }
        a = a + 1;
    }
    assert(s@.subrange(0, s@.len() as int) == s@);
    let ghost t = s@.subrange(a as int, s@.len() as int);
    assert(trim_start_by(s@, f) == t);
    let mut b: usize = s.len();
    assert(t.subrange(0, t.len() as int) == t);
    while b > a && is_trim_char(s[b - 1], ws, x)
        invariant
            a <= b <= s@.len(),
            t == s@.subrange(a as int, s@.len() as int),
            f == (if ws {
                ws_pred()
            } else {
                eq_pred(x)
            }),
            trim_end_by(t, f) == trim_end_by(t.subrange(0, b - a), f),
        decreases b,
    {
        proof {
            lemma_trim_end_step(t, f, b - a);
            assert(t[b - a - 1] == s@[b - 1]);
        }
        b = b - 1;
    }
    assert(t.subrange(0, b - a) == s@.subrange(a as int, b as int));
    assert(t.subrange(0, t.len() as int) == t);
    (a, b)
}

/// std's `str::trim`.
pub fn trim(s: &[char]) -> (r: Vec<char>)
    ensures
        r@ == trim_spec(s@),
{
    let (a, b) = trim_bounds(s, true, ' ');
    slice_range(s, a, b)
}

/// std's `str::trim_matches` with a single character.
pub fn trim_matches(s: &[char], x: char) -> (r: Vec<char>)
    ensures
        r@ == trim_matches_spec(s@, x),
{
    let (a, b) = trim_bounds(s, false, x);
    slice_range(s, a, b)
}


// ---------------------------------------------------------------------------
// Splitting
// ---------------------------------------------------------------------------

/// The views of a sequence of character vectors.
pub open spec fn views(v: Seq<Vec<char>>) -> Seq<Seq<char>> {
    Seq::new(v.len(), |i: int| v[i]@)
}

/// std's `str::split` with a character predicate: always at least one piece.
pub open spec fn split_by(s: Seq<char>, f: spec_fn(char) -> bool) -> Seq<Seq<char>>
    decreases s.len(),
{
    if s.len() == 0 {
        seq![Seq::<char>::empty()]
    } else {
        let r = split_by(s.drop_last(), f);
        if f(s.last()) {
            r.push(Seq::<char>::empty())
        } else {
            r.update(r.len() - 1, r.last().push(s.last()))
        }
    }
}

pub proof fn lemma_split_by_nonempty(s: Seq<char>, f: spec_fn(char) -> bool)
    ensures
        split_by(s, f).len() >= 1,
    decreases s.len(),
{
    if s.len() > 0 {
        lemma_split_by_nonempty(s.drop_last(), f);
    }
}

/// std's `str::split` with a single character.
pub open spec fn split_char_spec(s: Seq<char>, c: char) -> Seq<Seq<char>> {
    split_by(s, eq_pred(c))
}

/// Keeps only the non-empty pieces, in order.
pub open spec fn nonempty_pieces(v: Seq<Seq<char>>) -> Seq<Seq<char>>
    decreases v.len(),
{
    if v.len() == 0 {
        Seq::empty()
    } else {
        let r = nonempty_pieces(v.drop_last());
        if v.last().len() > 0 {
            r.push(v.last())
        } else {
            r
        }
    }
}

/// std's `str::split_whitespace`.
pub open spec fn split_whitespace_spec(s: Seq<char>) -> Seq<Seq<char>> {
    nonempty_pieces(split_by(s, ws_pred()))
}

fn is_split_char(c: char, ws: bool, x: char) -> (r: bool)
    ensures
        r == (if ws {
            ws_pred()
        } else {
            eq_pred(x)
        })(c),
{
    if ws {
        char_is_ws(c)
    } else {
        c == x
    }
}

/// Splits `s` at every whitespace character (`ws`) or at every `x`.
fn split_impl(s: &[char], ws: bool, x: char) -> (r: (Vec<Vec<char>>, Vec<char>))
    ensures
        views(r.0@).push(r.1@) == split_by(
            s@,
            if ws {
                ws_pred()
            } else {
                eq_pred(x)
            },
        ),
{
    let ghost f = if ws {
        ws_pred()
    } else {
        eq_pred(x)
    };
    let mut pieces: Vec<Vec<char>> = Vec::new();
    let mut cur: Vec<char> = Vec::new();
    let mut i: usize = 0;
    assert(s@.take(0) == Seq::<char>::empty());
    assert(views(pieces@).push(cur@) == seq![Seq::<char>::empty()]);
    while i < s.len()
        invariant
            i <= s@.len(),
            f == (if ws {
                ws_pred()
            } else {
                eq_pred(x)
            }),
            views(pieces@).push(cur@) == split_by(s@.take(i as int), f),
        decreases s@.len() - i,
    {
        let c = s[i];
        assert(s@.take(i + 1).drop_last() == s@.take(i as int));
        assert(s@.take(i + 1).last() == c);
        if is_split_char(c, ws, x) {
            let old_cur = cur;
            pieces.push(old_cur);
            cur = Vec::new();
            assert(views(pieces@) == views(pieces@.drop_last()).push(old_cur@));
        } else {
            cur.push(c);
        }
        i = i + 1;
    }
    assert(s@.take(s@.len() as int) == s@);
    (pieces, cur)
}

/// std's `str::split` with a single character.
pub fn split_char(s: &[char], x: char) -> (r: Vec<Vec<char>>)
    ensures
        views(r@) == split_char_spec(s@, x),
{
    let (mut pieces, cur) = split_impl(s, false, x);
    let ghost before = pieces@;
    pieces.push(cur);
    assert(views(pieces@) == views(before).push(cur@));
    pieces
}

/// std's `str::split_whitespace`.
pub fn split_whitespace(s: &[char]) -> (r: Vec<Vec<char>>)
    ensures
        views(r@) == split_whitespace_spec(s@),
{
    let (pieces, cur) = split_impl(s, true, ' ');
    let ghost all = views(pieces@).push(cur@);
    let mut out: Vec<Vec<char>> = Vec::new();
    let mut i: usize = 0;
    while i < pieces.len()
        invariant
            i <= pieces@.len(),
            all == views(pieces@).push(cur@),
            views(out@) == nonempty_pieces(all.take(i as int)),
        decreases pieces@.len() - i,
    {
        assert(all.take(i + 1).drop_last() == all.take(i as int));
        assert(all.take(i + 1).last() == pieces@[i as int]@);
        if pieces[i].len() > 0 {
            let ghost before = out@;
            out.push(pieces[i].clone());
            assert(views(out@) == views(before).push(pieces@[i as int]@));
        }
        i = i + 1;
    }
    assert(all.take(pieces@.len() as int + 1) == all);
    assert(all.take(pieces@.len() as int + 1).drop_last() == all.take(pieces@.len() as int));
    if cur.len() > 0 {
        let ghost before = out@;
        out.push(cur);
        assert(views(out@) == views(before).push(all.last()));
    }
    out
}

/// A line's trailing carriage return, if any, removed.
pub open spec fn strip_cr(x: Seq<char>) -> Seq<char> {
    if x.len() > 0 && x.last() == '\r' {
        x.drop_last()
    } else {
        x
    }
}

/// std's `str::lines`: split at `\n`, each line ended by `\n` also loses one
/// `\r` before it, and a final empty piece (after a trailing `\n`) is dropped.
pub open spec fn lines_spec(s: Seq<char>) -> Seq<Seq<char>> {
    let parts = split_char_spec(s, '\n');
    let n = parts.len();
    let ended = Seq::new((n - 1) as nat, |i: int| strip_cr(parts[i]));
    if parts.last().len() > 0 {
        ended.push(parts.last())
    } else {
        ended
    }
}

/// std's `str::lines`.
pub fn lines(s: &[char]) -> (r: Vec<Vec<char>>)
    ensures
        views(r@) == lines_spec(s@),
{
    let (pieces, cur) = split_impl(s, false, '\n');
    let ghost parts = split_char_spec(s@, '\n');
    proof {
        lemma_split_by_nonempty(s@, eq_pred('\n'));
    }
    let mut out: Vec<Vec<char>> = Vec::new();
    let mut i: usize = 0;
    while i < pieces.len()
        invariant
            i <= pieces@.len(),
            parts == views(pieces@).push(cur@),
            views(out@) == Seq::new(i as nat, |k: int| strip_cr(parts[k])),
        decreases pieces@.len() - i,
    {
        let p = &pieces[i];
        let line = if p.len() > 0 && p[p.len() - 1] == '\r' {
            slice_range(p, 0, p.len() - 1)
        } else {
            p.clone()
        };
        assert(line@ == strip_cr(parts[i as int]));
        let ghost before = out@;
        out.push(line);
        assert(views(out@) == views(before).push(line@));
        assert(views(out@) == Seq::new((i + 1) as nat, |k: int| strip_cr(parts[k])));
        i = i + 1;
    }
    if cur.len() > 0 {
        let ghost before = out@;
        out.push(cur);
        assert(views(out@) == views(before).push(parts.last()));
    }
    out
}

/// The first index `>= i` holding `c`.
pub open spec fn char_find_from(s: Seq<char>, c: char, i: int) -> Option<int>
    decreases s.len() - i,
{
    if i < 0 || i >= s.len() {
        None
    } else if s[i] == c {
        Some(i)
    } else {
        char_find_from(s, c, i + 1)
    }
}

/// The last index `<= i` holding `c`.
pub open spec fn char_rfind_upto(s: Seq<char>, c: char, i: int) -> Option<int>
    decreases i + 1,
{
    if i < 0 || i >= s.len() {
        None
    } else if s[i] == c {
        Some(i)
    } else {
        char_rfind_upto(s, c, i - 1)
    }
}

/// std's `str::split_once` with a single character.
pub open spec fn split_once_char_spec(s: Seq<char>, c: char) -> Option<(Seq<char>, Seq<char>)> {
    match char_find_from(s, c, 0) {
        Some(i) => Some((s.subrange(0, i), s.subrange(i + 1, s.len() as int))),
        None => None,
    }
}

/// std's `str::rsplit_once` with a single character.
pub open spec fn rsplit_once_char_spec(s: Seq<char>, c: char) -> Option<(Seq<char>, Seq<char>)> {
    match char_rfind_upto(s, c, s.len() - 1) {
        Some(i) => Some((s.subrange(0, i), s.subrange(i + 1, s.len() as int))),
        None => None,
    }
}

pub proof fn lemma_char_find_from_range(s: Seq<char>, c: char, i: int)
    ensures
        char_find_from(s, c, i) matches Some(k) ==> i <= k < s.len() && s[k] == c,
    decreases s.len() - i,
{
    if i >= 0 && i < s.len() && s[i] != c {
        lemma_char_find_from_range(s, c, i + 1);
    }
}

pub proof fn lemma_char_rfind_range(s: Seq<char>, c: char, i: int)
    ensures
        char_rfind_upto(s, c, i) matches Some(k) ==> 0 <= k <= i && k < s.len() && s[k] == c,
    decreases i + 1,
{
    if i >= 0 && i < s.len() && s[i] != c {
        lemma_char_rfind_range(s, c, i - 1);
    }
}

/// First index of `c` in `s`.
pub fn index_of_char(s: &[char], c: char) -> (r: Option<usize>)
    ensures
        match r {
            Some(k) => char_find_from(s@, c, 0) == Some(k as int),
            None => char_find_from(s@, c, 0) is None,
        },
{
    let mut i: usize = 0;
    while i < s.len()
        invariant
            i <= s@.len(),
            char_find_from(s@, c, 0) == char_find_from(s@, c, i as int),
        decreases s@.len() - i,
    {
        if s[i] == c {
            return Some(i);
        }
        i = i + 1;
    }
    None
}

/// Last index of `c` in `s`.
pub fn last_index_of_char(s: &[char], c: char) -> (r: Option<usize>)
    ensures
        match r {
            Some(k) => char_rfind_upto(s@, c, s@.len() - 1) == Some(k as int),
            None => char_rfind_upto(s@, c, s@.len() - 1) is None,
        },
{
    let mut i: usize = s.len();
    while i > 0
        invariant
            i <= s@.len(),
            char_rfind_upto(s@, c, s@.len() - 1) == char_rfind_upto(s@, c, i - 1),
        decreases i,
    {
        if s[i - 1] == c {
            return Some(i - 1);
        }
        i = i - 1;
    }
    None
}

/// std's `str::split_once` with a single character.
pub fn split_once_char(s: &[char], c: char) -> (r: Option<(Vec<char>, Vec<char>)>)
    ensures
        match r {
            Some(p) => split_once_char_spec(s@, c) == Some((p.0@, p.1@)),
            None => split_once_char_spec(s@, c) is None,
        },
{
    proof {
        lemma_char_find_from_range(s@, c, 0);
    }
    match index_of_char(s, c) {
        Some(i) => {
            let n = s.len();
            assert(i < n);
            Some((slice_range(s, 0, i), slice_range(s, i + 1, n)))
        },
        None => None,
    }
}

/// std's `str::rsplit_once` with a single character.
pub fn rsplit_once_char(s: &[char], c: char) -> (r: Option<(Vec<char>, Vec<char>)>)
    ensures
        match r {
            Some(p) => rsplit_once_char_spec(s@, c) == Some((p.0@, p.1@)),
            None => rsplit_once_char_spec(s@, c) is None,
        },
{
    proof {
        lemma_char_rfind_range(s@, c, s@.len() - 1);
    }
    match last_index_of_char(s, c) {
        Some(i) => {
            let n = s.len();
            assert(i < n);
            Some((slice_range(s, 0, i), slice_range(s, i + 1, n)))
        },
        None => None,
    }
}

/// std's `str::split_once` with a string pattern.
pub open spec fn split_once_str_spec(s: Seq<char>, p: Seq<char>) -> Option<(Seq<char>, Seq<char>)> {
    match find_spec(s, p) {
        Some(i) => Some((s.subrange(0, i), s.subrange(i + p.len(), s.len() as int))),
        None => None,
    }
}

pub fn split_once_str(s: &[char], p: &[char]) -> (r: Option<(Vec<char>, Vec<char>)>)
    ensures
        match r {
            Some(x) => split_once_str_spec(s@, p@) == Some((x.0@, x.1@)),
            None => split_once_str_spec(s@, p@) is None,
        },
{
    proof {
        lemma_find_from_props(s@, p@, 0);
    }
    match chars_find(s, p) {
        Some(i) => {
            let n = s.len();
            assert(matches_at(s@, p@, i as int));
            Some((slice_range(s, 0, i), slice_range(s, i + p.len(), n)))
        },
        None => None,
    }
}

// ---------------------------------------------------------------------------
// Replacing and joining
// ---------------------------------------------------------------------------

/// `s` with every non-overlapping occurrence of the non-empty pattern `f`,
/// scanned left to right, replaced by `t` (std's `str::replace`).
pub open spec fn replace_spec(s: Seq<char>, f: Seq<char>, t: Seq<char>) -> Seq<char>
    decreases s.len(),
{
    match find_spec(s, f) {
        Some(i) => if f.len() > 0 && 0 <= i && i + f.len() <= s.len() {
            s.subrange(0, i) + t + replace_spec(s.subrange(i + f.len(), s.len() as int), f, t)
        } else {
            s
        },
        None => s,
    }
}

proof fn lemma_find_from_shift(s: Seq<char>, p: Seq<char>, pos: int, k: int)
    requires
        0 <= pos <= s.len(),
        0 <= k,
    ensures
        find_from(s, p, pos + k) == (match find_from(s.subrange(pos, s.len() as int), p, k) {
            Some(j) => Some(j + pos),
            None => None,
        }),
    decreases s.len() + 1 - (pos + k),
{
    let sub = s.subrange(pos, s.len() as int);
    if pos + k + p.len() > s.len() {
    } else {
        assert(sub.subrange(k, k + p.len()) == s.subrange(pos + k, pos + k + p.len()));
        if matches_at(s, p, pos + k) {
        } else {
            lemma_find_from_shift(s, p, pos, k + 1);
        }
    }
}

/// std's `str::replace` for a non-empty pattern.
pub fn replace_all(s: &[char], f: &[char], t: &[char]) -> (r: Vec<char>)
    requires
        f@.len() > 0,
    ensures
        r@ == replace_spec(s@, f@, t@),
{
    let mut out: Vec<char> = Vec::new();
    let mut pos: usize = 0;
    assert(s@.subrange(0, s@.len() as int) == s@);
    loop
        invariant
            pos <= s@.len(),
            f@.len() > 0,
            out@ + replace_spec(s@.subrange(pos as int, s@.len() as int), f@, t@) == replace_spec(
                s@,
                f@,
                t@,
            ),
        decreases s@.len() - pos,
    {
        let ghost rest = s@.subrange(pos as int, s@.len() as int);
        proof {
            lemma_find_from_shift(s@, f@, pos as int, 0);
            lemma_find_from_props(rest, f@, 0);
            lemma_find_from_props(s@, f@, pos as int);
        }
        match chars_find_from(s, f, pos) {
            None => {
                let tail = slice_range(s, pos, s.len());
                let ghost before = out@;
                out.extend_from_slice(&tail);
                assert(out@ == before + tail@);
                return out;
            },
            Some(i) => {
                let ghost j = i - pos;
                assert(matches_at(s@, f@, i as int));
                assert(i + f@.len() <= s@.len());
                assert(find_spec(rest, f@) == Some(j));
                assert(rest.subrange(0, j) == s@.subrange(pos as int, i as int));
                assert(rest.subrange(j + f@.len(), rest.len() as int) == s@.subrange(
                    i + f@.len(),
                    s@.len() as int,
                ));
                let head = slice_range(s, pos, i);
                let ghost before = out@;
                out.extend_from_slice(&head);
                out.extend_from_slice(t);
                assert(out@ == before + head@ + t@);
                let slen = s.len();
                assert(i + f@.len() <= slen);
                pos = i + f.len();
            },
        }
    }
}

/// Pieces joined with `sep` between consecutive ones (std's `[S]::join`).
pub open spec fn join_spec(v: Seq<Seq<char>>, sep: Seq<char>) -> Seq<char>
    decreases v.len(),
{
    if v.len() == 0 {
        Seq::empty()
    } else if v.len() == 1 {
        v[0]
    } else {
        join_spec(v.drop_last(), sep) + sep + v.last()
    }
}

/// std's `[S]::join`.
pub fn join(v: &[Vec<char>], sep: &[char]) -> (r: Vec<char>)
    ensures
        r@ == join_spec(views(v@), sep@),
{
    let mut out: Vec<char> = Vec::new();
    let mut i: usize = 0;
    while i < v.len()
        invariant
            i <= v@.len(),
            out@ == join_spec(views(v@).take(i as int), sep@),
        decreases v@.len() - i,
    {
        assert(views(v@).take(i + 1).drop_last() == views(v@).take(i as int));
        assert(views(v@).take(i + 1).last() == v@[i as int]@);
        if i > 0 {
            out.extend_from_slice(sep);
        }
        out.extend_from_slice(&v[i]);
        i = i + 1;
    }
    assert(views(v@).take(v@.len() as int) == views(v@));
    out
}

// ---------------------------------------------------------------------------
// Decimal numbers
// ---------------------------------------------------------------------------

pub open spec fn digit_char(d: nat) -> char {
    ((d + 48) as u32) as char
}

/// Decimal rendering of `n` without leading zeros (std's `Display` for
/// unsigned integers).
pub open spec fn decimal(n: nat) -> Seq<char>
    decreases n,
{
    if n < 10 {
        seq![digit_char(n)]
    } else {
        decimal(n / 10).push(digit_char(n % 10))
    }
}

fn push_decimal(out: &mut Vec<char>, n: u128)
    ensures
        final(out)@ == old(out)@ + decimal(n as nat),
    decreases n,
{
    if n < 10 {
        let c = char_from_ascii_code((n + 48) as u32);
        out.push(c);
        assert(old(out)@.push(c) == old(out)@ + seq![c]);
    } else {
        push_decimal(out, n / 10);
        let c = char_from_ascii_code((n % 10 + 48) as u32);
        out.push(c);
    }
}

/// Decimal rendering of `n`.
pub fn decimal_chars(n: u128) -> (r: Vec<char>)
    ensures
        r@ == decimal(n as nat),
{
    let mut out: Vec<char> = Vec::new();
    push_decimal(&mut out, n);
    assert(Seq::<char>::empty() + decimal(n as nat) == decimal(n as nat));
    out
}

/// `n.to_string()` for an unsigned integer.
pub fn u64_to_string(n: u64) -> (r: String)
    ensures
        r@ == decimal(n as nat),
{
    let v = decimal_chars(n as u128);
    string_of(&v)
}

/// `n.to_string()` for a 128-bit unsigned integer.
pub fn u128_to_string(n: u128) -> (r: String)
    ensures
        r@ == decimal(n as nat),
{
    let v = decimal_chars(n);
    string_of(&v)
}

/// Value of a run of decimal digits.
pub open spec fn digits_value(s: Seq<char>) -> nat
    decreases s.len(),
{
    if s.len() == 0 {
        0
    } else {
        digits_value(s.drop_last()) * 10 + ((s.last() as u32) - 48) as nat
    }
}

pub open spec fn all_digits(s: Seq<char>) -> bool {
    forall|i: int| 0 <= i < s.len() ==> is_ascii_digit(#[trigger] s[i])
}

/// std's `str::parse::<u32>`: an optional leading `+`, then at least one
/// ASCII digit, and a value that fits in 32 bits.
pub open spec fn parse_u32_spec(s: Seq<char>) -> Option<u32> {
    let d = if s.len() > 0 && s[0] == '+' {
        s.drop_first()
    } else {
        s
    };
    if d.len() > 0 && all_digits(d) && digits_value(d) <= u32::MAX {
        Some(digits_value(d) as u32)
    } else {
        None
    }
}

proof fn lemma_digits_value_monotone(s: Seq<char>, i: int)
    requires
        0 <= i <= s.len(),
        all_digits(s),
    ensures
        digits_value(s.take(i)) <= digits_value(s),
    decreases s.len() - i,
{
    if i < s.len() {
        lemma_digits_value_monotone(s, i + 1);
        assert(s.take(i + 1).drop_last() == s.take(i));
        assert(digits_value(s.take(i + 1)) >= digits_value(s.take(i)) * 10) by (nonlinear_arith)
            requires
                digits_value(s.take(i + 1)) == digits_value(s.take(i)) * 10 + ((s.take(i + 1).last() as u32) - 48) as nat,
        ;
    } else {
        assert(s.take(i) == s);
    }
}

proof fn lemma_parse_u32_not_digits(s: Seq<char>, d: Seq<char>)
    requires
        d == (if s.len() > 0 && s[0] == '+' {
            s.drop_first()
        } else {
            s
        }),
        !all_digits(d) || digits_value(d) > u32::MAX,
    ensures
        parse_u32_spec(s) is None,
{
}

/// std's `str::parse::<u32>`.
pub fn parse_u32(s: &[char]) -> (r: Option<u32>)
    ensures
        r == parse_u32_spec(s@),
{
    let start: usize = if s.len() > 0 && s[0] == '+' {
        1
    } else {
        0
    };
    let ghost d = if s@.len() > 0 && s@[0] == '+' {
        s@.drop_first()
    } else {
        s@
    };
    assert(d == s@.subrange(start as int, s@.len() as int));
    if start >= s.len() {
        return None;
    }
    let mut value: u64 = 0;
    let mut i: usize = start;
    while i < s.len()
        invariant
            start <= i <= s@.len(),
            d == s@.subrange(start as int, s@.len() as int),
            d == (if s@.len() > 0 && s@[0] == '+' {
                s@.drop_first()
            } else {
                s@
            }),
            forall|k: int| 0 <= k < i - start ==> is_ascii_digit(#[trigger] d[k]),
            value == digits_value(d.take(i - start)),
            value <= u32::MAX,
        decreases s@.len() - i,
    {
        let c = s[i];
        if !char_is_ascii_digit(c) {
            assert(d[i - start] == c);
            assert(!all_digits(d));
            proof {
                lemma_parse_u32_not_digits(s@, d);
            }
            return None;
        }
        assert(d.take(i - start + 1).drop_last() == d.take(i - start));
        assert(d.take(i - start + 1).last() == c);
        let digit: u64 = (c as u32 - 48) as u64;
        let next: u64 = value * 10 + digit;
        if next > 4294967295 {
            proof {
                assert(digits_value(d.take(i - start + 1)) == next);
                if all_digits(d) {
                    lemma_digits_value_monotone(d, i - start + 1);
                }
            }
            proof {
                if all_digits(d) {
                    assert(digits_value(d) > u32::MAX);
                }
                lemma_parse_u32_not_digits(s@, d);
            }
            return None;
        }
        value = next;
        i = i + 1;
    }
    assert(d.take(d.len() as int) == d);
    Some(value as u32)
}

/// Parsing the decimal rendering of a 32-bit value gives the value back.
pub proof fn lemma_parse_decimal_roundtrip(n: u32)
    ensures
        parse_u32_spec(decimal(n as nat)) == Some(n),
{
    lemma_decimal_digits(n as nat);
    assert(decimal(n as nat)[0] != '+') by {
        lemma_decimal_digits(n as nat);
    }
}

/// The decimal rendering is all digits and evaluates back to the number.
pub proof fn lemma_decimal_digits(n: nat)
    ensures
        decimal(n).len() > 0,
        all_digits(decimal(n)),
        digits_value(decimal(n)) == n,
    decreases n,
{
    assert(digit_char(n % 10) as u32 == n % 10 + 48);
    if n < 10 {
        assert(n % 10 == n);
        assert(decimal(n).drop_last() == Seq::<char>::empty());
        assert(decimal(n).last() == digit_char(n));
        assert(digits_value(Seq::<char>::empty()) == 0);
        assert(digits_value(decimal(n)) == 0 * 10 + ((digit_char(n) as u32) - 48) as nat);
    } else {
        lemma_decimal_digits(n / 10);
        assert(decimal(n).drop_last() == decimal(n / 10));
        assert(decimal(n).last() == digit_char(n % 10));
        assert(n == (n / 10) * 10 + n % 10);
    }
}

/// Distinct numbers have distinct decimal renderings.
pub proof fn lemma_decimal_injective(a: nat, b: nat)
    requires
        decimal(a) == decimal(b),
    ensures
        a == b,
{
    lemma_decimal_digits(a);
    lemma_decimal_digits(b);
}

} // verus!
