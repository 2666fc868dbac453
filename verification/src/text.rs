//! Text helpers shared by the parsers of this crate.
//!
//! Text is handled as a vector of `char`s; the spec functions below state
//! what the standard library's `contains`, `starts_with`, `trim` and
//! `lines` mean on a sequence of characters.
use vstd::prelude::*;
use vstd::string::*;
use vstd::utf8::*;

verus! {

#[verifier::external_type_specification]
#[verifier::external_body]
pub struct ExFromUtf8Error(std::string::FromUtf8Error);

/// Calls `String::from_utf8`.
///
/// Trusted: the standard library documents that it succeeds exactly when the
/// bytes are valid UTF-8 and that the string then holds the decoded scalars.
#[verifier::external_body]
pub(crate) fn string_from_utf8(bytes: Vec<u8>) -> (r: Result<String, std::string::FromUtf8Error>)
    ensures
        r is Ok <==> valid_utf8(bytes@),
        r matches Ok(s) ==> s@ == decode_utf8(bytes@),
{
    String::from_utf8(bytes)
}

/// Calls `String::push`.
///
/// Trusted: the standard library documents that it appends the character.
#[verifier::external_body]
pub(crate) fn string_push(s: &mut String, c: char)
    ensures
        final(s)@ == old(s)@.push(c),
{
    s.push(c)
}

/// What `str::to_lowercase` gives for a string.
pub uninterp spec fn unicode_lowercase(s: Seq<char>) -> Seq<char>;

/// ASCII `A`..`Z`.
pub open spec fn is_ascii_upper(c: char) -> bool {
    'A' <= c <= 'Z'
}

/// ASCII lower-casing of one character.
pub open spec fn ascii_lower_char(c: char) -> char {
    if is_ascii_upper(c) {
        ((c as u32) + 32) as char
    } else {
        c
    }
}

/// Every character is ASCII.
pub open spec fn all_ascii(s: Seq<char>) -> bool {
    forall|i: int| 0 <= i < s.len() ==> (#[trigger] s[i]) as u32 <= 127
}

/// ASCII lower-casing of a sequence.
pub open spec fn ascii_lower(s: Seq<char>) -> Seq<char> {
    s.map_values(|c: char| ascii_lower_char(c))
}

/// Calls `str::to_lowercase`.
///
/// Trusted: the result is `unicode_lowercase` of the input, a function of
/// the input alone; the standard library documents that ASCII text is
/// lower-cased letter by letter (`A`..`Z` to `a`..`z`, all else kept).
/// What it does to other characters is left to the name.
#[verifier::external_body]
pub(crate) fn to_lowercase(s: &str) -> (r: String)
    ensures
        r@ == unicode_lowercase(s@),
        all_ascii(s@) ==> r@ == ascii_lower(s@),
{
    s.to_lowercase()
}

/// The characters of `s`.
pub fn chars_of(s: &str) -> (v: Vec<char>)
    ensures
        v@ == s@,
{
    let n = s.unicode_len();
    let mut v: Vec<char> = Vec::new();
    let mut i: usize = 0;
    while i < n
        invariant
            n == s@.len(),
            i <= n,
            v@ == s@.subrange(0, i as int),
        decreases n - i,
    {
        v.push(s.get_char(i));
        i = i + 1;
    }
    assert(v@ =~= s@);
    v
}

/// A string holding the characters `v[from..to]`.
pub fn string_of_range(v: &Vec<char>, from: usize, to: usize) -> (s: String)
    requires
        from <= to <= v.len(),
    ensures
        s@ == v@.subrange(from as int, to as int),
{
    let mut s = String::new();
    let mut i = from;
    while i < to
        invariant
            from <= i <= to <= v.len(),
            s@ == v@.subrange(from as int, i as int),
        decreases to - i,
    {
        string_push(&mut s, v[i]);
        i = i + 1;
    }
    s
}

/// A string holding the characters of `v`.
pub fn string_of(v: &Vec<char>) -> (s: String)
    ensures
        s@ == v@,
{
    let s = string_of_range(v, 0, v.len());
    assert(v@.subrange(0, v.len() as int) =~= v@);
    s
}

/// Appends the characters of `t` to `s`.
pub fn push_str(s: &mut String, t: &str)
    ensures
        final(s)@ == old(s)@ + t@,
{
    let v = chars_of(t);
    let ghost start = s@;
    let mut i: usize = 0;
    while i < v.len()
        invariant
            i <= v.len(),
            v@ == t@,
            s@ == start + v@.subrange(0, i as int),
        decreases v.len() - i,
    {
        string_push(s, v[i]);
        i = i + 1;
    }
    assert(v@.subrange(0, v.len() as int) =~= v@);
}

/// `needle` occurs in `hay` starting at `i`.
pub open spec fn occurs_at(hay: Seq<char>, needle: Seq<char>, i: int) -> bool {
    0 <= i && i + needle.len() <= hay.len() && hay.subrange(i, i + needle.len()) == needle
}

/// `needle` occurs somewhere in `hay` (`str::contains`).
pub open spec fn seq_contains(hay: Seq<char>, needle: Seq<char>) -> bool {
    exists|i: int| occurs_at(hay, needle, i)
}

/// `s` starts with `p` (`str::starts_with`).
pub open spec fn seq_starts_with(s: Seq<char>, p: Seq<char>) -> bool {
    p.len() <= s.len() && s.subrange(0, p.len() as int) == p
}

/// `s` ends with `p` (`str::ends_with`).
pub open spec fn seq_ends_with(s: Seq<char>, p: Seq<char>) -> bool {
    p.len() <= s.len() && s.subrange(s.len() - p.len(), s.len() as int) == p
}

/// Whether `needle` occurs in `hay`.
pub fn contains_chars(hay: &Vec<char>, needle: &Vec<char>) -> (r: bool)
    ensures
        r == seq_contains(hay@, needle@),
{
    if needle.len() > hay.len() {
        assert forall|i: int| !occurs_at(hay@, needle@, i) by {}
        return false;
    }
    let last = hay.len() - needle.len();
    let mut i: usize = 0;
    while i < last
        invariant
            last == hay.len() - needle.len(),
            i <= last,
            forall|j: int| 0 <= j < i ==> !occurs_at(hay@, needle@, j),
        decreases last - i,
    {
        if occurs_at_exec(hay, needle, i) {
            return true;
        }
        i = i + 1;
    }
    if occurs_at_exec(hay, needle, last) {
        return true;
    }
    assert forall|j: int| !occurs_at(hay@, needle@, j) by {
        if 0 <= j < i {
        }
    }
    false
}

/// Whether `needle` occurs in `hay` at position `i`.
pub fn occurs_at_exec(hay: &Vec<char>, needle: &Vec<char>, i: usize) -> (r: bool)
    ensures
        r == occurs_at(hay@, needle@, i as int),
{
    if i > hay.len() || needle.len() > hay.len() - i {
        return false;
    }
    let mut k: usize = 0;
    while k < needle.len()
        invariant
            i + needle.len() <= hay.len(),
            k <= needle.len(),
            forall|j: int| 0 <= j < k ==> hay@[i + j] == needle@[j],
        decreases needle.len() - k,
    {
        if hay[i + k] != needle[k] {
            assert(hay@.subrange(i as int, i + needle.len())[k as int] != needle@[k as int]);
            return false;
        }
        k = k + 1;
    }
    assert(hay@.subrange(i as int, i + needle.len()) =~= needle@);
    true
}

/// Whether the literal `needle` occurs in `hay`.
pub fn contains_str(hay: &Vec<char>, needle: &str) -> (r: bool)
    ensures
        r == seq_contains(hay@, needle@),
{
    let n = chars_of(needle);
    contains_chars(hay, &n)
}

/// Whether `s` starts with the literal `p`.
pub fn starts_with_str(s: &Vec<char>, p: &str) -> (r: bool)
    ensures
        r == seq_starts_with(s@, p@),
{
    let pv = chars_of(p);
    let r = occurs_at_exec(s, &pv, 0);
    assert(r == seq_starts_with(s@, p@));
    r
}

/// Whether `s` ends with the literal `p`.
pub fn ends_with_str(s: &Vec<char>, p: &str) -> (r: bool)
    ensures
        r == seq_ends_with(s@, p@),
{
    let pv = chars_of(p);
    if pv.len() > s.len() {
        return false;
    }
    occurs_at_exec(s, &pv, s.len() - pv.len())
}

/// Whether `a` and `b` hold the same characters.
pub fn chars_eq(a: &Vec<char>, b: &Vec<char>) -> (r: bool)
    ensures
        r == (a@ == b@),
{
    if a.len() != b.len() {
        return false;
    }
    let r = occurs_at_exec(a, b, 0);
    proof {
        if r {
            assert(a@.subrange(0, b.len() as int) =~= a@);
        } else {
            if a@ == b@ {
                assert(a@.subrange(0, b.len() as int) =~= a@);
            }
        }
    }
    r
}

/// Whether `a` holds the characters of the literal `b`.
pub fn chars_eq_str(a: &Vec<char>, b: &str) -> (r: bool)
    ensures
        r == (a@ == b@),
{
    let bv = chars_of(b);
    chars_eq(a, &bv)
}

/// `char::is_whitespace`: the Unicode White_Space property.
pub open spec fn is_whitespace(c: char) -> bool {
    let u = c as u32;
    (0x09 <= u <= 0x0d) || u == 0x20 || u == 0x85 || u == 0xa0 || u == 0x1680 || (0x2000 <= u
        <= 0x200a) || u == 0x2028 || u == 0x2029 || u == 0x202f || u == 0x205f || u == 0x3000
}

/// `char::is_whitespace`.
pub fn is_whitespace_exec(c: char) -> (r: bool)
    ensures
        r == is_whitespace(c),
{
    let u = c as u32;
    (0x09 <= u && u <= 0x0d) || u == 0x20 || u == 0x85 || u == 0xa0 || u == 0x1680 || (0x2000
        <= u && u <= 0x200a) || u == 0x2028 || u == 0x2029 || u == 0x202f || u == 0x205f || u
        == 0x3000
}

/// Number of whitespace characters at the start of `s`.
pub open spec fn leading_ws(s: Seq<char>) -> nat
    decreases s.len(),
{
    if s.len() > 0 && is_whitespace(s[0]) {
        1 + leading_ws(s.drop_first())
    } else {
        0
    }
}

/// Number of whitespace characters at the end of `s`.
pub open spec fn trailing_ws(s: Seq<char>) -> nat
    decreases s.len(),
{
    if s.len() > 0 && is_whitespace(s.last()) {
        1 + trailing_ws(s.drop_last())
    } else {
        0
    }
}

/// `str::trim_start`.
pub open spec fn trim_start(s: Seq<char>) -> Seq<char> {
    s.skip(leading_ws(s) as int)
}

/// `str::trim_end`.
pub open spec fn trim_end(s: Seq<char>) -> Seq<char> {
    s.take(s.len() - trailing_ws(s))
}

/// `str::trim`.
pub open spec fn trim(s: Seq<char>) -> Seq<char> {
    trim_end(trim_start(s))
}

proof fn lemma_leading_ws_bound(s: Seq<char>)
    ensures
        leading_ws(s) <= s.len(),
        forall|j: int| 0 <= j < leading_ws(s) ==> is_whitespace(#[trigger] s[j]),
        leading_ws(s) < s.len() ==> !is_whitespace(s[leading_ws(s) as int]),
    decreases s.len(),
{
    if s.len() > 0 && is_whitespace(s[0]) {
        lemma_leading_ws_bound(s.drop_first());
        assert forall|j: int| 0 <= j < leading_ws(s) implies is_whitespace(#[trigger] s[j]) by {
            if j > 0 {
                assert(s[j] == s.drop_first()[j - 1]);
            }
        }
    }
}

proof fn lemma_trailing_ws_bound(s: Seq<char>)
    ensures
        trailing_ws(s) <= s.len(),
        forall|j: int| s.len() - trailing_ws(s) <= j < s.len() ==> is_whitespace(#[trigger] s[j]),
        trailing_ws(s) < s.len() ==> !is_whitespace(s[s.len() - trailing_ws(s) - 1]),
    decreases s.len(),
{
    if s.len() > 0 && is_whitespace(s.last()) {
        lemma_trailing_ws_bound(s.drop_last());
        assert forall|j: int| s.len() - trailing_ws(s) <= j < s.len() implies is_whitespace(
            #[trigger] s[j],
        ) by {
            if j < s.len() - 1 {
                assert(s[j] == s.drop_last()[j]);
            }
        }
    }
}

proof fn lemma_leading_ws_of_skip(s: Seq<char>, k: int)
    requires
        0 <= k <= s.len(),
        forall|j: int| 0 <= j < k ==> is_whitespace(#[trigger] s[j]),
        k < s.len() ==> !is_whitespace(s[k]),
    ensures
        leading_ws(s) == k,
    decreases k,
{
    if k > 0 {
        assert(is_whitespace(s[0]));
        let t = s.drop_first();
        assert forall|j: int| 0 <= j < k - 1 implies is_whitespace(#[trigger] t[j]) by {
            assert(t[j] == s[j + 1]);
        }
        if k - 1 < t.len() {
            assert(t[k - 1] == s[k]);
        }
        lemma_leading_ws_of_skip(t, k - 1);
    }
}

proof fn lemma_trailing_ws_of_take(s: Seq<char>, k: int)
    requires
        0 <= k <= s.len(),
        forall|j: int| s.len() - k <= j < s.len() ==> is_whitespace(#[trigger] s[j]),
        k < s.len() ==> !is_whitespace(s[s.len() - k - 1]),
    ensures
        trailing_ws(s) == k,
    decreases k,
{
    if k > 0 {
        assert(is_whitespace(s.last()));
        let t = s.drop_last();
        assert forall|j: int| t.len() - (k - 1) <= j < t.len() implies is_whitespace(
            #[trigger] t[j],
        ) by {
            assert(t[j] == s[j]);
        }
        if k - 1 < t.len() {
            assert(t[t.len() - (k - 1) - 1] == s[s.len() - k - 1]);
        }
        lemma_trailing_ws_of_take(t, k - 1);
    }
}

/// Trimming twice trims once.
pub proof fn lemma_trim_idempotent(s: Seq<char>)
    ensures
        trim(trim(s)) == trim(s),
{
    let u = trim_start(s);
    lemma_leading_ws_bound(s);
    lemma_trailing_ws_bound(u);
    let t = trim_end(u);
    if t.len() > 0 {
        assert(t[0] == u[0]);
        assert(u[0] == s[leading_ws(s) as int]);
        assert(t[t.len() - 1] == u[u.len() - trailing_ws(u) - 1]);
    }
    lemma_leading_ws_of_skip(t, 0);
    assert(trim_start(t) =~= t);
    lemma_trailing_ws_of_take(t, 0);
    assert(trim_end(t) =~= t);
}

proof fn lemma_next_newline_shift(o: Seq<char>, u: Seq<char>, j: int)
    requires
        0 <= j <= u.len(),
    ensures
        next_newline(o + u, o.len() + j) == o.len() + next_newline(u, j),
    decreases u.len() - j,
{
    if j < u.len() {
        assert((o + u)[o.len() + j] == u[j]);
        if u[j] != '\n' {
            lemma_next_newline_shift(o, u, j + 1);
        }
    }
}

proof fn lemma_lines_from_shift(o: Seq<char>, u: Seq<char>, j: int)
    requires
        0 <= j <= u.len() + 1,
    ensures
        lines_from(o + u, o.len() + j) == lines_from(u, j),
    decreases u.len() + 1 - j,
{
    if j < u.len() {
        lemma_next_newline_shift(o, u, j);
        lemma_next_newline(u, j);
        let end = next_newline(u, j);
        assert((o + u).subrange(o.len() + j, o.len() + end) =~= u.subrange(j, end));
        lemma_lines_from_shift(o, u, end + 1);
    }
}

proof fn lemma_next_newline_prefix(o: Seq<char>, u: Seq<char>, from: int)
    requires
        0 <= from <= o.len(),
        next_newline(o, from) < o.len(),
    ensures
        next_newline(o + u, from) == next_newline(o, from),
    decreases o.len() - from,
{
    assert((o + u)[from] == o[from]);
    if o[from] != '\n' {
        lemma_next_newline_prefix(o, u, from + 1);
    }
}

proof fn lemma_lines_from_concat(o: Seq<char>, u: Seq<char>, from: int)
    requires
        0 <= from <= o.len(),
        o.len() == 0 || o.last() == '\n',
    ensures
        lines_from(o + u, from) == lines_from(o, from) + lines_from(u, 0),
    decreases o.len() - from,
{
    if from == o.len() {
        lemma_lines_from_shift(o, u, 0);
        assert(lines_from(o, from) =~= Seq::<Seq<char>>::empty());
        assert(lines_from(o, from) + lines_from(u, 0) =~= lines_from(u, 0));
    } else {
        lemma_next_newline(o, from);
        let end = next_newline(o, from);
        if end == o.len() {
            assert(o[o.len() - 1] != '\n');
        }
        lemma_next_newline_prefix(o, u, from);
        assert((o + u).subrange(from, end) =~= o.subrange(from, end));
        lemma_lines_from_concat(o, u, end + 1);
        let line = strip_cr(o.subrange(from, end));
        assert(lines_from(o + u, from) == seq![line] + lines_from(o + u, end + 1));
        assert(lines_from(o, from) == seq![line] + lines_from(o, end + 1));
        assert(seq![line] + (lines_from(o, end + 1) + lines_from(u, 0)) =~= (seq![line]
            + lines_from(o, end + 1)) + lines_from(u, 0));
    }
}

/// Appending a whole line to text that ends a line (or is empty) appends
/// it to the text's lines.
pub proof fn lemma_lines_append_line(o: Seq<char>, t: Seq<char>)
    requires
        o.len() == 0 || o.last() == '\n',
        forall|i: int| 0 <= i < t.len() ==> t[i] != '\n',
        t.len() > 0 ==> t.last() != '\r',
    ensures
        lines(o + t + seq!['\n']) == lines(o).push(t),
{
    let u = t + seq!['\n'];
    assert(o + t + seq!['\n'] =~= o + u);
    lemma_lines_from_concat(o, u, 0);
    lemma_next_newline(u, 0);
    let nn = next_newline(u, 0);
    assert(u[t.len() as int] == '\n');
    if nn < t.len() {
        assert(u[nn] == t[nn]);
    }
    assert(nn == t.len());
    assert(u.subrange(0, t.len() as int) =~= t);
    assert(lines_from(u, t.len() as int + 1) =~= Seq::<Seq<char>>::empty());
    assert(lines_from(u, 0) == seq![strip_cr(t)] + lines_from(u, t.len() as int + 1));
    assert(strip_cr(t) == t);
    assert(lines(o) + seq![t] =~= lines(o).push(t));
}

/// Text that neither starts nor ends with whitespace is its own trim.
pub proof fn lemma_trim_unpadded(t: Seq<char>)
    requires
        t.len() > 0,
        !is_whitespace(t[0]),
        !is_whitespace(t.last()),
    ensures
        trim(t) == t,
{
    lemma_leading_ws_of_skip(t, 0);
    assert(trim_start(t) =~= t);
    lemma_trailing_ws_of_take(t, 0);
    assert(trim_end(t) =~= t);
}

/// The bounds `(from, to)` of `trim(v[lo..hi])` inside `v`.
pub fn trim_bounds(v: &Vec<char>, lo: usize, hi: usize) -> (r: (usize, usize))
    requires
        lo <= hi <= v.len(),
    ensures
        lo <= r.0 <= r.1 <= hi,
        v@.subrange(r.0 as int, r.1 as int) == trim(v@.subrange(lo as int, hi as int)),
{
    let ghost s = v@.subrange(lo as int, hi as int);
    let mut a = lo;
    while a < hi && is_whitespace_exec(v[a])
        invariant
            lo <= a <= hi <= v.len(),
            forall|j: int| lo <= j < a ==> is_whitespace(#[trigger] v@[j]),
        decreases hi - a,
    {
        a = a + 1;
    }
    proof {
        assert forall|j: int| 0 <= j < a - lo implies is_whitespace(#[trigger] s[j]) by {
            assert(s[j] == v@[lo + j]);
        }
        if a < hi {
            assert(s[a - lo] == v@[a as int]);
        }
        lemma_leading_ws_of_skip(s, a - lo);
        assert(trim_start(s) =~= v@.subrange(a as int, hi as int));
    }
    let mut b = hi;
    while b > a && is_whitespace_exec(v[b - 1])
        invariant
            lo <= a <= b <= hi <= v.len(),
            forall|j: int| b <= j < hi ==> is_whitespace(#[trigger] v@[j]),
        decreases b - a,
    {
        b = b - 1;
    }
    proof {
        let t = v@.subrange(a as int, hi as int);
        assert forall|j: int| t.len() - (hi - b) <= j < t.len() implies is_whitespace(
            #[trigger] t[j],
        ) by {
            assert(t[j] == v@[a + j]);
        }
        if hi - b < t.len() {
            assert(t[t.len() - (hi - b) - 1] == v@[b - 1]);
        }
        lemma_trailing_ws_of_take(t, hi - b);
        assert(trim_end(t) =~= v@.subrange(a as int, b as int));
    }
    (a, b)
}

/// The characters of `trim(v)`.
pub fn trim_chars(v: &Vec<char>) -> (r: Vec<char>)
    ensures
        r@ == trim(v@),
{
    let (a, b) = trim_bounds(v, 0, v.len());
    assert(v@.subrange(0, v.len() as int) =~= v@);
    slice_chars(v, a, b)
}

/// The characters of `trim_start(v)`.
pub fn trim_start_chars(v: &Vec<char>) -> (r: Vec<char>)
    ensures
        r@ == trim_start(v@),
{
    let mut a: usize = 0;
    while a < v.len() && is_whitespace_exec(v[a])
        invariant
            a <= v.len(),
            forall|j: int| 0 <= j < a ==> is_whitespace(#[trigger] v@[j]),
        decreases v.len() - a,
    {
        a = a + 1;
    }
    proof {
        lemma_leading_ws_of_skip(v@, a as int);
    }
    let r = slice_chars(v, a, v.len());
    assert(r@ =~= trim_start(v@));
    r
}

/// Whether `s` starts with `p`.
pub fn starts_with_chars(s: &Vec<char>, p: &Vec<char>) -> (r: bool)
    ensures
        r == seq_starts_with(s@, p@),
{
    occurs_at_exec(s, p, 0)
}

/// The characters of `str::to_lowercase` applied to the characters of `v`.
pub fn lower_chars(v: &Vec<char>) -> (r: Vec<char>)
    ensures
        r@ == unicode_lowercase(v@),
        all_ascii(v@) ==> r@ == ascii_lower(v@),
{
    let s = string_of(v);
    let l = to_lowercase(s.as_str());
    chars_of(l.as_str())
}

/// Appends the characters of `v` to `s`.
pub fn push_chars(s: &mut String, v: &Vec<char>)
    ensures
        final(s)@ == old(s)@ + v@,
{
    let ghost start = s@;
    let mut i: usize = 0;
    while i < v.len()
        invariant
            i <= v.len(),
            s@ == start + v@.subrange(0, i as int),
        decreases v.len() - i,
    {
        string_push(s, v[i]);
        i = i + 1;
    }
    assert(v@.subrange(0, v.len() as int) =~= v@);
}

/// Number of non-whitespace characters at the start of `s`.
pub open spec fn word_len(s: Seq<char>) -> nat
    decreases s.len(),
{
    if s.len() > 0 && !is_whitespace(s[0]) {
        1 + word_len(s.drop_first())
    } else {
        0
    }
}

/// The first item of `str::split_whitespace`.
pub open spec fn first_word(s: Seq<char>) -> Option<Seq<char>> {
    let t = trim_start(s);
    if t.len() == 0 {
        None
    } else {
        Some(t.take(word_len(t) as int))
    }
}

proof fn lemma_word_len_of(s: Seq<char>, k: int)
    requires
        0 <= k <= s.len(),
        forall|j: int| 0 <= j < k ==> !is_whitespace(#[trigger] s[j]),
        k < s.len() ==> is_whitespace(s[k]),
    ensures
        word_len(s) == k,
    decreases k,
{
    if k > 0 {
        let t = s.drop_first();
        assert forall|j: int| 0 <= j < k - 1 implies !is_whitespace(#[trigger] t[j]) by {
            assert(t[j] == s[j + 1]);
        }
        if k - 1 < t.len() {
            assert(t[k - 1] == s[k]);
        }
        lemma_word_len_of(t, k - 1);
    }
}

/// A text that does not start with whitespace and is not empty has a
/// first word.
pub proof fn lemma_first_word_of_nonblank(s: Seq<char>)
    requires
        trim(s).len() > 0,
    ensures
        first_word(trim(s)) is Some,
{
    lemma_trim_idempotent(s);
    let t = trim(s);
    lemma_leading_ws_bound(s);
    lemma_trailing_ws_bound(trim_start(s));
    assert(t[0] == trim_start(s)[0]);
    lemma_leading_ws_of_skip(t, 0);
    assert(trim_start(t) =~= t);
}

/// The first item of `str::split_whitespace` on the characters of `v`.
pub fn first_word_chars(v: &Vec<char>) -> (r: Option<Vec<char>>)
    ensures
        r is Some <==> first_word(v@) is Some,
        r matches Some(w) ==> first_word(v@) == Some(w@),
{
    let t = trim_start_chars(v);
    if t.len() == 0 {
        return None;
    }
    let mut k: usize = 0;
    while k < t.len() && !is_whitespace_exec(t[k])
        invariant
            k <= t.len(),
            forall|j: int| 0 <= j < k ==> !is_whitespace(#[trigger] t@[j]),
        decreases t.len() - k,
    {
        k = k + 1;
    }
    proof {
        lemma_word_len_of(t@, k as int);
    }
    Some(slice_chars(&t, 0, k))
}

/// The characters `v[from..to]`.
pub fn slice_chars(v: &Vec<char>, from: usize, to: usize) -> (r: Vec<char>)
    requires
        from <= to <= v.len(),
    ensures
        r@ == v@.subrange(from as int, to as int),
{
    let mut r: Vec<char> = Vec::new();
    let mut i = from;
    while i < to
        invariant
            from <= i <= to <= v.len(),
            r@ == v@.subrange(from as int, i as int),
        decreases to - i,
    {
        r.push(v[i]);
        i = i + 1;
    }
    r
}

/// Position of the first `'\n'` at or after `from`, or `s.len()`.
pub open spec fn next_newline(s: Seq<char>, from: int) -> int
    decreases s.len() - from,
{
    if from >= s.len() {
        s.len() as int
    } else if s[from] == '\n' {
        from
    } else {
        next_newline(s, from + 1)
    }
}

/// A line without its line ending: a trailing `'\r'` is dropped.
pub open spec fn strip_cr(line: Seq<char>) -> Seq<char> {
    if line.len() > 0 && line.last() == '\r' {
        line.drop_last()
    } else {
        line
    }
}

/// The lines of `s` from position `from` on, as `str::lines` yields them.
pub open spec fn lines_from(s: Seq<char>, from: int) -> Seq<Seq<char>>
    decreases s.len() + 1 - from,
{
    if from < 0 || from >= s.len() {
        Seq::empty()
    } else {
        proof {
            lemma_next_newline(s, from);
        }
        let end = next_newline(s, from);
        let line = if end < s.len() {
            strip_cr(s.subrange(from, end))
        } else {
            s.subrange(from, end)
        };
        seq![line] + lines_from(s, end + 1)
    }
}

/// `str::lines`: the text split at `'\n'`, a `'\r'` just before a `'\n'`
/// dropped with it, and no empty line after a final newline.
pub open spec fn lines(s: Seq<char>) -> Seq<Seq<char>> {
    lines_from(s, 0)
}

pub proof fn lemma_next_newline(s: Seq<char>, from: int)
    requires
        0 <= from <= s.len(),
    ensures
        from <= next_newline(s, from) <= s.len(),
        next_newline(s, from) < s.len() ==> s[next_newline(s, from)] == '\n',
        forall|j: int| from <= j < next_newline(s, from) ==> s[j] != '\n',
    decreases s.len() - from,
{
    if from < s.len() && s[from] != '\n' {
        lemma_next_newline(s, from + 1);
    }
}

/// Position of the first `'\n'` at or after `from`, or `v.len()`.
pub fn next_newline_exec(v: &Vec<char>, from: usize) -> (r: usize)
    requires
        from <= v.len(),
    ensures
        r == next_newline(v@, from as int),
        from <= r <= v.len(),
{
    let mut i = from;
    while i < v.len() && v[i] != '\n'
        invariant
            from <= i <= v.len(),
            next_newline(v@, from as int) == next_newline(v@, i as int),
        decreases v.len() - i,
    {
        i = i + 1;
    }
    proof {
        lemma_next_newline(v@, i as int);
    }
    i
}

/// The lines of `v`, as `str::lines` yields them.
pub fn lines_of(v: &Vec<char>) -> (r: Vec<Vec<char>>)
    ensures
        r@.len() == lines(v@).len(),
        forall|k: int| 0 <= k < r@.len() ==> (#[trigger] r@[k])@ == lines(v@)[k],
{
    let mut r: Vec<Vec<char>> = Vec::new();
    let mut from: usize = 0;
    while from < v.len()
        invariant
            from <= v.len(),
            lines(v@) == r@.map_values(|l: Vec<char>| l@) + lines_from(v@, from as int),
        decreases v.len() - from,
    {
        let end = next_newline_exec(v, from);
        let mut stop = end;
        if end < v.len() && stop > from && v[stop - 1] == '\r' {
            stop = stop - 1;
        }
        let line = slice_chars(v, from, stop);
        assert(line@ == (if end < v@.len() {
            strip_cr(v@.subrange(from as int, end as int))
        } else {
            v@.subrange(from as int, end as int)
        })) by {
            if end < v.len() && end > from && v@[end - 1] == '\r' {
                assert(v@.subrange(from as int, end as int).drop_last() =~= line@);
            }
        }
        let ghost before = r@.map_values(|l: Vec<char>| l@);
        r.push(line);
        assert(r@.map_values(|l: Vec<char>| l@) =~= before.push(line@));
        assert(before + lines_from(v@, from as int) =~= r@.map_values(|l: Vec<char>| l@)
            + lines_from(v@, end + 1));
        if end == v.len() {
            from = end;
        } else {
            from = end + 1;
        }
    }
    assert(lines_from(v@, from as int) =~= Seq::<Seq<char>>::empty());
    assert(lines(v@) =~= r@.map_values(|l: Vec<char>| l@));
    assert forall|k: int| 0 <= k < r@.len() implies (#[trigger] r@[k])@ == lines(v@)[k] by {
        assert(r@.map_values(|l: Vec<char>| l@)[k] == r@[k]@);
    }
    r
}

} // verus!
