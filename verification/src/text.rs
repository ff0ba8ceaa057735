//! Character-level text operations with their mathematical meaning.
//!
//! Strings are modelled as sequences of Unicode scalar values (`Seq<char>`),
//! which is what `str` views as. Executable helpers work on `Vec<char>` and
//! are proved against the spec functions defined here.

use vstd::prelude::*;

verus! {

// ---------------------------------------------------------------------------
// Characters
// ---------------------------------------------------------------------------

/// Unicode `White_Space`: exactly the characters `char::is_whitespace` accepts.
pub open spec fn is_ws(c: char) -> bool {
    ||| c == '\t' || c == '\n' || c == '\x0B' || c == '\x0C' || c == '\r' || c == ' '
    ||| c == '\u{85}' || c == '\u{A0}' || c == '\u{1680}'
    ||| ('\u{2000}' <= c && c <= '\u{200A}')
    ||| c == '\u{2028}' || c == '\u{2029}' || c == '\u{202F}' || c == '\u{205F}' || c == '\u{3000}'
}

/// Whether `c` is whitespace in the Unicode sense.
pub fn is_whitespace(c: char) -> (b: bool)
    ensures
        b == is_ws(c),
{
    c == '\t' || c == '\n' || c == '\x0B' || c == '\x0C' || c == '\r' || c == ' '
        || c == '\u{85}' || c == '\u{A0}' || c == '\u{1680}' || ('\u{2000}' <= c && c
        <= '\u{200A}') || c == '\u{2028}' || c == '\u{2029}' || c == '\u{202F}' || c
        == '\u{205F}' || c == '\u{3000}'
}

/// ASCII case folding of one character, as `char::to_ascii_lowercase` does it.
pub open spec fn ascii_lower_char(c: char) -> char {
    if 'A' <= c && c <= 'Z' {
        ((c as u32) + 32) as char
    } else {
        c
    }
}

/// ASCII case folding of a whole string; other characters are left as they are.
pub open spec fn ascii_lower(s: Seq<char>) -> Seq<char> {
    s.map_values(|c: char| ascii_lower_char(c))
}

pub fn to_ascii_lower_char(c: char) -> (r: char)
    ensures
        r == ascii_lower_char(c),
{
    if 'A' <= c && c <= 'Z' {
        let u: u32 = c as u32;
        let l: u32 = u + 32;
        assert('a' as u32 <= l && l <= 'z' as u32);
        char_from_ascii(l)
    } else {
        c
    }
}

/// The character of an ASCII code.
fn char_from_ascii(u: u32) -> (c: char)
    requires
        u < 128,
    ensures
        c == u as char,
{
    (u as u8) as char
}

pub fn to_ascii_lower(v: &Vec<char>) -> (r: Vec<char>)
    ensures
        r@ == ascii_lower(v@),
{
    let mut r: Vec<char> = Vec::new();
    let mut i: usize = 0;
    while i < v.len()
        invariant
            i <= v.len(),
            r@ == ascii_lower(v@.take(i as int)),
        decreases v.len() - i,
    {
        r.push(to_ascii_lower_char(v[i]));
        i += 1;
        assert(ascii_lower(v@.take(i as int)) =~= r@);
    }
    assert(v@.take(v.len() as int) =~= v@);
    r
}

// ---------------------------------------------------------------------------
// Conversions between `str`/`String` and `Vec<char>`
// ---------------------------------------------------------------------------

/// The characters of a string slice.
pub fn chars_of(s: &str) -> (v: Vec<char>)
    ensures
        v@ == s@,
{
    let n = s.unicode_len();
    let mut v: Vec<char> = Vec::new();
    let mut i: usize = 0;
    while i < n
        invariant
            i <= n,
            n == s@.len(),
            v@ == s@.take(i as int),
        decreases n - i,
    {
        v.push(s.get_char(i));
        i += 1;
        assert(v@ =~= s@.take(i as int));
    }
    assert(s@.take(n as int) =~= s@);
    v
}

/// Appends one character to a `String` (`String::push`).
#[verifier::external_body]
pub(crate) fn push_char(s: &mut String, c: char)
    ensures
        final(s)@ == old(s)@.push(c),
{
    s.push(c);
}

/// A `String` holding exactly these characters.
pub fn string_of(v: &Vec<char>) -> (s: String)
    ensures
        s@ == v@,
{
    let mut s = String::new();
    let mut i: usize = 0;
    while i < v.len()
        invariant
            i <= v.len(),
            s@ == v@.take(i as int),
        decreases v.len() - i,
    {
        push_char(&mut s, v[i]);
        i += 1;
        assert(s@ =~= v@.take(i as int));
    }
    assert(v@.take(v.len() as int) =~= v@);
    s
}

/// A copy of `v[from..to]`.
pub fn sub_vec(v: &Vec<char>, from: usize, to: usize) -> (r: Vec<char>)
    requires
        from <= to <= v.len(),
    ensures
        r@ == v@.subrange(from as int, to as int),
{
    let mut r: Vec<char> = Vec::new();
    let mut i: usize = from;
    while i < to
        invariant
            from <= i <= to,
            to <= v.len(),
            r@ == v@.subrange(from as int, i as int),
        decreases to - i,
    {
        r.push(v[i]);
        i += 1;
        assert(r@ =~= v@.subrange(from as int, i as int));
    }
    r
}

/// `a` followed by `b`.
pub fn concat(a: &Vec<char>, b: &Vec<char>) -> (r: Vec<char>)
    ensures
        r@ == a@ + b@,
{
    let mut r: Vec<char> = Vec::new();
    let mut i: usize = 0;
    while i < a.len()
        invariant
            i <= a.len(),
            r@ == a@.take(i as int),
        decreases a.len() - i,
    {
        r.push(a[i]);
        i += 1;
        assert(r@ =~= a@.take(i as int));
    }
    let mut j: usize = 0;
    while j < b.len()
        invariant
            j <= b.len(),
            i == a.len(),
            r@ == a@ + b@.take(j as int),
        decreases b.len() - j,
    {
        r.push(b[j]);
        j += 1;
        assert(r@ =~= a@ + b@.take(j as int));
    }
    assert(a@.take(a.len() as int) =~= a@);
    assert(b@.take(b.len() as int) =~= b@);
    r
}

/// The Unicode lowercase form of a string (the lowercase mapping of the
/// `Lowercase` property), as `str::to_lowercase` computes it.
pub uninterp spec fn unicode_lowercase(s: Seq<char>) -> Seq<char>;

/// `str::to_lowercase`. Its result is named by `unicode_lowercase`: the
/// Unicode case tables take far more than a spec of a few lines, so nothing
/// about their content is claimed, only that the result depends on the
/// characters of the input alone.
#[verifier::external_body]
pub(crate) fn to_lowercase(s: &str) -> (r: String)
    ensures
        r@ == unicode_lowercase(s@),
{
    s.to_lowercase()
}

// ---------------------------------------------------------------------------
// Comparison and search
// ---------------------------------------------------------------------------

/// Whether two character vectors hold the same text.
pub fn same(a: &Vec<char>, b: &Vec<char>) -> (r: bool)
    ensures
        r == (a@ == b@),
{
    if a.len() != b.len() {
        return false;
    }
    let mut i: usize = 0;
    while i < a.len()
        invariant
            i <= a.len(),
            a.len() == b.len(),
            a@.take(i as int) == b@.take(i as int),
        decreases a.len() - i,
    {
        if a[i] != b[i] {
            return false;
        }
        i += 1;
        assert(a@.take(i as int) =~= a@.take(i - 1).push(a@[i - 1]));
        assert(b@.take(i as int) =~= b@.take(i - 1).push(b@[i - 1]));
    }
    assert(a@.take(a.len() as int) =~= a@);
    assert(b@.take(b.len() as int) =~= b@);
    true
}

/// Whether a character vector spells the given string.
pub fn eq_str(a: &Vec<char>, b: &str) -> (r: bool)
    ensures
        r == (a@ == b@),
{
    let bv = chars_of(b);
    same(a, &bv)
}

/// `p` occurs in `s` starting at index `i`.
pub open spec fn matches_at(s: Seq<char>, i: int, p: Seq<char>) -> bool {
    0 <= i && i + p.len() <= s.len() && s.subrange(i, i + p.len()) == p
}

pub open spec fn starts_with(s: Seq<char>, p: Seq<char>) -> bool {
    matches_at(s, 0, p)
}

pub open spec fn ends_with(s: Seq<char>, p: Seq<char>) -> bool {
    matches_at(s, s.len() - p.len(), p)
}

/// `p` occurs somewhere in `s` (the empty pattern occurs everywhere).
pub open spec fn contains_seq(s: Seq<char>, p: Seq<char>) -> bool {
    exists|i: int| matches_at(s, i, p)
}

/// Whether `p` occurs in `s` at index `i`.
pub fn match_at(s: &Vec<char>, i: usize, p: &Vec<char>) -> (r: bool)
    ensures
        r == matches_at(s@, i as int, p@),
{
    if p.len() > s.len() || i > s.len() - p.len() {
        return false;
    }
    let mut j: usize = 0;
    while j < p.len()
        invariant
            j <= p.len(),
            i + p.len() <= s.len(),
            s@.subrange(i as int, i + j) == p@.take(j as int),
        decreases p.len() - j,
    {
        if s[i + j] != p[j] {
            assert(s@.subrange(i as int, i + p.len())[j as int] != p@[j as int]);
            return false;
        }
        j += 1;
        assert(s@.subrange(i as int, i + j) =~= s@.subrange(i as int, i + j - 1).push(s@[i + j - 1]));
        assert(p@.take(j as int) =~= p@.take(j - 1).push(p@[j - 1]));
    }
    assert(p@.take(p.len() as int) =~= p@);
    true
}

pub fn has_prefix(s: &Vec<char>, p: &Vec<char>) -> (r: bool)
    ensures
        r == starts_with(s@, p@),
{
    match_at(s, 0, p)
}

pub fn has_suffix(s: &Vec<char>, p: &Vec<char>) -> (r: bool)
    ensures
        r == ends_with(s@, p@),
{
    if p.len() > s.len() {
        return false;
    }
    match_at(s, s.len() - p.len(), p)
}

pub fn has_prefix_str(s: &Vec<char>, p: &str) -> (r: bool)
    ensures
        r == starts_with(s@, p@),
{
    let pv = chars_of(p);
    has_prefix(s, &pv)
}

/// Whether `p` occurs anywhere in `s`.
pub fn contains_sub(s: &Vec<char>, p: &Vec<char>) -> (r: bool)
    ensures
        r == contains_seq(s@, p@),
{
    if p.len() > s.len() {
        return false;
    }
    let last = s.len() - p.len();
    let mut i: usize = 0;
    while i <= last
        invariant
            last == s.len() - p.len(),
            p.len() <= s.len(),
            forall|k: int| 0 <= k < i ==> !matches_at(s@, k, p@),
        decreases last + 1 - i,
    {
        if match_at(s, i, p) {
            return true;
        }
        if i == last {
            assert forall|k: int| !matches_at(s@, k, p@) by {
                if 0 <= k < i {
                }
            }
            return false;
        }
        i += 1;
    }
    assert forall|k: int| !matches_at(s@, k, p@) by {
        if 0 <= k < i {
        }
    }
    false
}

pub fn contains_str(s: &Vec<char>, p: &str) -> (r: bool)
    ensures
        r == contains_seq(s@, p@),
{
    let pv = chars_of(p);
    contains_sub(s, &pv)
}

pub fn contains_char(s: &Vec<char>, c: char) -> (r: bool)
    ensures
        r == s@.contains(c),
{
    let mut i: usize = 0;
    while i < s.len()
        invariant
            i <= s.len(),
            forall|k: int| 0 <= k < i ==> s@[k] != c,
        decreases s.len() - i,
    {
        if s[i] == c {
            return true;
        }
        i += 1;
    }
    false
}


// ---------------------------------------------------------------------------
// Trimming
// ---------------------------------------------------------------------------

/// Drop the leading characters that satisfy `f`.
pub open spec fn trim_start_by(s: Seq<char>, f: spec_fn(char) -> bool) -> Seq<char>
    decreases s.len(),
{
    if s.len() > 0 && f(s[0]) {
        trim_start_by(s.drop_first(), f)
    } else {
        s
    }
}

/// Drop the trailing characters that satisfy `f`.
pub open spec fn trim_end_by(s: Seq<char>, f: spec_fn(char) -> bool) -> Seq<char>
    decreases s.len(),
{
    if s.len() > 0 && f(s.last()) {
        trim_end_by(s.drop_last(), f)
    } else {
        s
    }
}

pub open spec fn ws_pred() -> spec_fn(char) -> bool {
    |c: char| is_ws(c)
}

pub open spec fn in_set(set: Seq<char>) -> spec_fn(char) -> bool {
    |c: char| set.contains(c)
}

/// `str::trim`: no whitespace at either end.
pub open spec fn trim(s: Seq<char>) -> Seq<char> {
    trim_end_by(trim_start_by(s, ws_pred()), ws_pred())
}

/// `str::trim_matches` with a set of characters.
pub open spec fn trim_set(s: Seq<char>, set: Seq<char>) -> Seq<char> {
    trim_end_by(trim_start_by(s, in_set(set)), in_set(set))
}

/// `str::trim_end_matches` with one character.
pub open spec fn trim_end_char(s: Seq<char>, c: char) -> Seq<char> {
    trim_end_by(s, in_set(seq![c]))
}

pub proof fn lemma_trim_start_skip(s: Seq<char>, f: spec_fn(char) -> bool, i: int)
    requires
        0 <= i <= s.len(),
        forall|k: int| 0 <= k < i ==> f(s[k]),
    ensures
        trim_start_by(s, f) == trim_start_by(s.skip(i), f),
    decreases i,
{
    if i > 0 {
        lemma_trim_start_skip(s.drop_first(), f, i - 1);
        assert(s.drop_first().skip(i - 1) =~= s.skip(i));
    } else {
        assert(s.skip(0) =~= s);
    }
}

pub proof fn lemma_trim_end_take(s: Seq<char>, f: spec_fn(char) -> bool, j: int)
    requires
        0 <= j <= s.len(),
        forall|k: int| j <= k < s.len() ==> f(s[k]),
    ensures
        trim_end_by(s, f) == trim_end_by(s.take(j), f),
    decreases s.len() - j,
{
    if j < s.len() {
        lemma_trim_end_take(s.drop_last(), f, j);
        assert(s.drop_last().take(j) =~= s.take(j));
    } else {
        assert(s.take(j) =~= s);
    }
}

/// The index of the first character of `v` that `keep` rejects: in effect the
/// number of leading characters to drop.
spec fn first_kept(s: Seq<char>, f: spec_fn(char) -> bool, a: int) -> bool {
    &&& 0 <= a <= s.len()
    &&& forall|k: int| 0 <= k < a ==> f(s[k])
    &&& a < s.len() ==> !f(s[a])
}

proof fn lemma_first_kept(s: Seq<char>, f: spec_fn(char) -> bool, a: int)
    requires
        first_kept(s, f, a),
    ensures
        trim_start_by(s, f) == s.skip(a),
{
    lemma_trim_start_skip(s, f, a);
}

proof fn lemma_last_kept(s: Seq<char>, f: spec_fn(char) -> bool, b: int)
    requires
        0 <= b <= s.len(),
        forall|k: int| b <= k < s.len() ==> f(s[k]),
        b > 0 ==> !f(s[b - 1]),
    ensures
        trim_end_by(s, f) == s.take(b),
{
    lemma_trim_end_take(s, f, b);
}

/// A text that neither starts nor ends with whitespace is its own trim.
pub proof fn lemma_trim_of_word(s: Seq<char>)
    requires
        s.len() > 0,
        !is_ws(s[0]),
        !is_ws(s.last()),
    ensures
        trim(s) == s,
{
    assert(trim_start_by(s, ws_pred()) == s);
    assert(trim_end_by(s, ws_pred()) == s);
}

/// What `trim_start_by` leaves does not start with a character it drops.
pub proof fn lemma_trim_start_result(s: Seq<char>, f: spec_fn(char) -> bool)
    ensures
        trim_start_by(s, f).len() > 0 ==> !f(trim_start_by(s, f)[0]),
        trim_start_by(s, f).len() <= s.len(),
    decreases s.len(),
{
    if s.len() > 0 && f(s[0]) {
        lemma_trim_start_result(s.drop_first(), f);
    }
}

/// What `trim_end_by` leaves is a prefix that does not end with a character
/// it drops.
pub proof fn lemma_trim_end_result(s: Seq<char>, f: spec_fn(char) -> bool)
    ensures
        trim_end_by(s, f) == s.take(trim_end_by(s, f).len() as int),
        trim_end_by(s, f).len() <= s.len(),
        trim_end_by(s, f).len() > 0 ==> !f(trim_end_by(s, f).last()),
    decreases s.len(),
{
    if s.len() > 0 && f(s.last()) {
        lemma_trim_end_result(s.drop_last(), f);
        let r = trim_end_by(s.drop_last(), f);
        assert(s.drop_last().take(r.len() as int) =~= s.take(r.len() as int));
    } else {
        assert(s.take(s.len() as int) =~= s);
    }
}

/// Trimming twice is trimming once.
pub proof fn lemma_trim_idempotent(s: Seq<char>)
    ensures
        trim(trim(s)) == trim(s),
{
    let u = trim_start_by(s, ws_pred());
    let t = trim(s);
    lemma_trim_start_result(s, ws_pred());
    lemma_trim_end_result(u, ws_pred());
    if t.len() > 0 {
        assert(t[0] == u[0]);
        lemma_trim_of_word(t);
    } else {
        assert(trim_start_by(t, ws_pred()) == t);
        assert(trim_end_by(t, ws_pred()) == t);
    }
}

/// `v` without leading and trailing whitespace.
pub fn trim_ws(v: &Vec<char>) -> (r: Vec<char>)
    ensures
        r@ == trim(v@),
{
    let n = v.len();
    let mut a: usize = 0;
    while a < n && is_whitespace(v[a])
        invariant
            a <= n,
            n == v.len(),
            forall|k: int| 0 <= k < a ==> is_ws(v@[k]),
        decreases n - a,
    {
        a += 1;
    }
    let mut b: usize = n;
    while b > a && is_whitespace(v[b - 1])
        invariant
            a <= b <= n,
            n == v.len(),
            forall|k: int| b <= k < n ==> is_ws(v@[k]),
        decreases b,
    {
        b -= 1;
    }
    proof {
        lemma_first_kept(v@, ws_pred(), a as int);
        let t = v@.skip(a as int);
        lemma_last_kept(t, ws_pred(), b - a);
        assert(t.take(b - a) =~= v@.subrange(a as int, b as int));
    }
    sub_vec(v, a, b)
}

/// `v` without leading and trailing characters from `set`.
pub fn trim_chars(v: &Vec<char>, set: &Vec<char>) -> (r: Vec<char>)
    ensures
        r@ == trim_set(v@, set@),
{
    let n = v.len();
    let mut a: usize = 0;
    while a < n && contains_char(set, v[a])
        invariant
            a <= n,
            n == v.len(),
            forall|k: int| 0 <= k < a ==> set@.contains(#[trigger] v@[k]),
        decreases n - a,
    {
        a += 1;
    }
    let mut b: usize = n;
    while b > a && contains_char(set, v[b - 1])
        invariant
            a <= b <= n,
            n == v.len(),
            forall|k: int| b <= k < n ==> set@.contains(#[trigger] v@[k]),
        decreases b,
    {
        b -= 1;
    }
    proof {
        lemma_first_kept(v@, in_set(set@), a as int);
        let t = v@.skip(a as int);
        lemma_last_kept(t, in_set(set@), b - a);
        assert(t.take(b - a) =~= v@.subrange(a as int, b as int));
    }
    sub_vec(v, a, b)
}

/// `v` without the trailing run of `c`.
pub fn trim_end_ch(v: &Vec<char>, c: char) -> (r: Vec<char>)
    ensures
        r@ == trim_end_char(v@, c),
{
    let n = v.len();
    let mut b: usize = n;
    while b > 0 && v[b - 1] == c
        invariant
            b <= n,
            n == v.len(),
            forall|k: int| b <= k < n ==> v@[k] == c,
        decreases b,
    {
        b -= 1;
    }
    proof {
        assert forall|k: int| b <= k < n implies #[trigger] in_set(seq![c])(v@[k]) by {
            assert(seq![c][0] == c);
        }
        if b > 0 {
            assert(!seq![c].contains(v@[b - 1])) by {
                if seq![c].contains(v@[b - 1]) {
                    let k = choose|k: int| 0 <= k < 1 && seq![c][k] == v@[b - 1];
                }
            }
        }
        lemma_last_kept(v@, in_set(seq![c]), b as int);
        assert(v@.take(b as int) =~= v@.subrange(0, b as int));
    }
    sub_vec(v, 0, b)
}

// ---------------------------------------------------------------------------
// Splitting and joining
// ---------------------------------------------------------------------------

/// The texts of a vector of character vectors.
pub open spec fn seqs(v: Seq<Vec<char>>) -> Seq<Seq<char>> {
    v.map_values(|x: Vec<char>| x@)
}

pub proof fn lemma_seqs_push(v: Seq<Vec<char>>, x: Vec<char>)
    ensures
        seqs(v.push(x)) == seqs(v).push(x@),
{
    assert(seqs(v.push(x)) =~= seqs(v).push(x@));
}

/// The maximal runs of non-whitespace characters of `s` from index `i` on,
/// `cur` being the part of the current run already read: `split_whitespace`.
pub open spec fn words_from(s: Seq<char>, i: int, cur: Seq<char>) -> Seq<Seq<char>>
    decreases s.len() - i,
{
    if i >= s.len() {
        if cur.len() > 0 {
            seq![cur]
        } else {
            seq![]
        }
    } else if is_ws(s[i]) {
        if cur.len() > 0 {
            seq![cur] + words_from(s, i + 1, seq![])
        } else {
            words_from(s, i + 1, seq![])
        }
    } else {
        words_from(s, i + 1, cur.push(s[i]))
    }
}

/// `str::split_whitespace`.
pub open spec fn words(s: Seq<char>) -> Seq<Seq<char>> {
    words_from(s, 0, seq![])
}

pub fn split_words(v: &Vec<char>) -> (r: Vec<Vec<char>>)
    ensures
        seqs(r@) == words(v@),
{
    let mut out: Vec<Vec<char>> = Vec::new();
    let mut cur: Vec<char> = Vec::new();
    let mut i: usize = 0;
    while i < v.len()
        invariant
            i <= v.len(),
            seqs(out@) + words_from(v@, i as int, cur@) == words(v@),
        decreases v.len() - i,
    {
        let c = v[i];
        if is_whitespace(c) {
            if cur.len() > 0 {
                proof {
                    lemma_seqs_push(out@, cur);
                    assert(seqs(out@) + (seq![cur@] + words_from(v@, i + 1, seq![])) =~= seqs(
                        out@,
                    ).push(cur@) + words_from(v@, i + 1, seq![]));
                }
                out.push(cur);
                cur = Vec::new();
            } else {
                assert(cur@ =~= seq![]);
            }
        } else {
            cur.push(c);
        }
        i += 1;

    }
    if cur.len() > 0 {
        proof {
            lemma_seqs_push(out@, cur);
        }
        out.push(cur);
    }
    out
}

/// `pieces.join(sep)`.
pub open spec fn join(pieces: Seq<Seq<char>>, sep: Seq<char>) -> Seq<char>
    decreases pieces.len(),
{
    if pieces.len() == 0 {
        seq![]
    } else if pieces.len() == 1 {
        pieces[0]
    } else {
        join(pieces.drop_last(), sep) + sep + pieces.last()
    }
}

pub fn join_with(pieces: &Vec<Vec<char>>, sep: &Vec<char>) -> (r: Vec<char>)
    ensures
        r@ == join(seqs(pieces@), sep@),
{
    if pieces.len() == 0 {
        return Vec::new();
    }
    let mut r = sub_vec(&pieces[0], 0, pieces[0].len());
    assert(r@ =~= pieces@[0]@);
    let mut i: usize = 1;
    while i < pieces.len()
        invariant
            1 <= i <= pieces.len(),
            r@ == join(seqs(pieces@).take(i as int), sep@),
        decreases pieces.len() - i,
    {
        let with_sep = concat(&r, sep);
        r = concat(&with_sep, &pieces[i]);
        i += 1;
        assert(seqs(pieces@).take(i as int).drop_last() =~= seqs(pieces@).take(i - 1));
    }
    assert(seqs(pieces@).take(pieces.len() as int) =~= seqs(pieces@));
    r
}

/// `s.split(sep_chars)` from index `i` on, `cur` being the current piece.
pub open spec fn split_set_from(s: Seq<char>, set: Seq<char>, i: int, cur: Seq<char>) -> Seq<
    Seq<char>,
>
    decreases s.len() - i,
{
    if i >= s.len() {
        seq![cur]
    } else if set.contains(s[i]) {
        seq![cur] + split_set_from(s, set, i + 1, seq![])
    } else {
        split_set_from(s, set, i + 1, cur.push(s[i]))
    }
}

/// `str::split` on any of the characters in `set`.
pub open spec fn split_set(s: Seq<char>, set: Seq<char>) -> Seq<Seq<char>> {
    split_set_from(s, set, 0, seq![])
}

pub fn split_on_chars(v: &Vec<char>, set: &Vec<char>) -> (r: Vec<Vec<char>>)
    ensures
        seqs(r@) == split_set(v@, set@),
        r@.len() > 0,
{
    let mut out: Vec<Vec<char>> = Vec::new();
    let mut cur: Vec<char> = Vec::new();
    let mut i: usize = 0;
    while i < v.len()
        invariant
            i <= v.len(),
            seqs(out@) + split_set_from(v@, set@, i as int, cur@) == split_set(v@, set@),
        decreases v.len() - i,
    {
        let c = v[i];
        if contains_char(set, c) {
            proof {
                lemma_seqs_push(out@, cur);
                assert(seqs(out@) + (seq![cur@] + split_set_from(v@, set@, i + 1, seq![]))
                    =~= seqs(out@).push(cur@) + split_set_from(v@, set@, i + 1, seq![]));
            }
            out.push(cur);
            cur = Vec::new();
        } else {
            cur.push(c);
        }
        i += 1;
    }
    proof {
        lemma_seqs_push(out@, cur);
        assert(seqs(out@) + seq![cur@] =~= seqs(out@).push(cur@));
    }
    out.push(cur);
    out
}

/// `s.split(p)` for a string pattern, from index `i` on: matches are found
/// left to right and do not overlap.
pub open spec fn split_pat_from(s: Seq<char>, p: Seq<char>, i: int, cur: Seq<char>) -> Seq<
    Seq<char>,
>
    decreases s.len() - i,
{
    if i >= s.len() {
        seq![cur]
    } else if p.len() > 0 && matches_at(s, i, p) {
        seq![cur] + split_pat_from(s, p, i + p.len(), seq![])
    } else {
        split_pat_from(s, p, i + 1, cur.push(s[i]))
    }
}

/// `str::split` on a non-empty string pattern.
pub open spec fn split_pat(s: Seq<char>, p: Seq<char>) -> Seq<Seq<char>> {
    split_pat_from(s, p, 0, seq![])
}

pub fn split_on_str(v: &Vec<char>, p: &Vec<char>) -> (r: Vec<Vec<char>>)
    ensures
        seqs(r@) == split_pat(v@, p@),
{
    let mut out: Vec<Vec<char>> = Vec::new();
    let mut cur: Vec<char> = Vec::new();
    let mut i: usize = 0;
    while i < v.len()
        invariant
            i <= v.len(),
            seqs(out@) + split_pat_from(v@, p@, i as int, cur@) == split_pat(v@, p@),
        decreases v.len() - i,
    {
        if p.len() > 0 && match_at(v, i, p) {
            proof {
                lemma_seqs_push(out@, cur);
                assert(seqs(out@) + (seq![cur@] + split_pat_from(v@, p@, i + p@.len(), seq![]))
                    =~= seqs(out@).push(cur@) + split_pat_from(v@, p@, i + p@.len(), seq![]));
            }
            out.push(cur);
            cur = Vec::new();
            i += p.len();
        } else {
            cur.push(v[i]);
            i += 1;
        }
    }
    proof {
        lemma_seqs_push(out@, cur);
        assert(seqs(out@) + seq![cur@] =~= seqs(out@).push(cur@));
    }
    out.push(cur);
    out
}

/// Each piece split on `p`, the results concatenated in order:
/// `pieces.flat_map(|s| s.split(p))`.
pub open spec fn flat_split(pieces: Seq<Seq<char>>, p: Seq<char>) -> Seq<Seq<char>>
    decreases pieces.len(),
{
    if pieces.len() == 0 {
        seq![]
    } else {
        flat_split(pieces.drop_last(), p) + split_pat(pieces.last(), p)
    }
}

pub fn split_all_on_str(pieces: &Vec<Vec<char>>, p: &Vec<char>) -> (r: Vec<Vec<char>>)
    ensures
        seqs(r@) == flat_split(seqs(pieces@), p@),
{
    let mut out: Vec<Vec<char>> = Vec::new();
    let mut i: usize = 0;
    while i < pieces.len()
        invariant
            i <= pieces.len(),
            seqs(out@) == flat_split(seqs(pieces@).take(i as int), p@),
        decreases pieces.len() - i,
    {
        let parts = split_on_str(&pieces[i], p);
        let ghost before = seqs(out@);
        let mut j: usize = 0;
        while j < parts.len()
            invariant
                j <= parts.len(),
                seqs(out@) == before + seqs(parts@).take(j as int),
            decreases parts.len() - j,
        {
            let piece = sub_vec(&parts[j], 0, parts[j].len());
            proof {
                lemma_seqs_push(out@, piece);
                assert(piece@ =~= parts@[j as int]@);
            }
            out.push(piece);
            j += 1;
            assert(seqs(out@) =~= before + seqs(parts@).take(j as int));
        }
        assert(seqs(parts@).take(parts.len() as int) =~= seqs(parts@));
        i += 1;
        assert(seqs(pieces@).take(i as int).drop_last() =~= seqs(pieces@).take(i - 1));
    }
    assert(seqs(pieces@).take(pieces.len() as int) =~= seqs(pieces@));
    out
}

/// Each piece trimmed, the empty ones dropped:
/// `.map(str::trim).filter(|s| !s.is_empty())`.
pub open spec fn trimmed_nonempty(pieces: Seq<Seq<char>>) -> Seq<Seq<char>>
    decreases pieces.len(),
{
    if pieces.len() == 0 {
        seq![]
    } else if trim(pieces.last()).len() > 0 {
        trimmed_nonempty(pieces.drop_last()).push(trim(pieces.last()))
    } else {
        trimmed_nonempty(pieces.drop_last())
    }
}

pub fn trim_and_drop_empty(pieces: &Vec<Vec<char>>) -> (r: Vec<Vec<char>>)
    ensures
        seqs(r@) == trimmed_nonempty(seqs(pieces@)),
{
    let mut out: Vec<Vec<char>> = Vec::new();
    let mut i: usize = 0;
    while i < pieces.len()
        invariant
            i <= pieces.len(),
            seqs(out@) == trimmed_nonempty(seqs(pieces@).take(i as int)),
        decreases pieces.len() - i,
    {
        let t = trim_ws(&pieces[i]);
        if t.len() > 0 {
            proof {
                lemma_seqs_push(out@, t);
            }
            out.push(t);
        }
        i += 1;
        assert(seqs(pieces@).take(i as int).drop_last() =~= seqs(pieces@).take(i - 1));
    }
    assert(seqs(pieces@).take(pieces.len() as int) =~= seqs(pieces@));
    out
}

/// The part of `s` after its last character from `set`, or all of `s` when
/// there is none: `s.rsplit(set).next()`.
pub open spec fn after_last(s: Seq<char>, set: Seq<char>) -> Seq<char>
    decreases s.len(),
{
    if s.len() == 0 {
        s
    } else if set.contains(s.last()) {
        seq![]
    } else {
        after_last(s.drop_last(), set).push(s.last())
    }
}

/// When the tail from `j` on holds no separator, the part after the last
/// separator is that of the head, followed by the tail.
pub proof fn lemma_after_last_tail(s: Seq<char>, set: Seq<char>, j: int)
    requires
        0 <= j <= s.len(),
        forall|k: int| j <= k < s.len() ==> !set.contains(#[trigger] s[k]),
    ensures
        after_last(s, set) == after_last(s.take(j), set) + s.subrange(j, s.len() as int),
    decreases s.len() - j,
{
    if j < s.len() {
        lemma_after_last_tail(s.drop_last(), set, j);
        assert(s.drop_last().take(j) =~= s.take(j));
        assert(s.subrange(j, s.len() as int) =~= s.drop_last().subrange(j, s.len() - 1).push(
            s.last(),
        ));
    } else {
        assert(s.take(j) =~= s);
        assert(s.subrange(j, s.len() as int) =~= seq![]);
    }
}

/// ASCII upper-casing of one character, as `char::to_ascii_uppercase` does it.
pub open spec fn ascii_upper_char(c: char) -> char {
    if 'a' <= c && c <= 'z' {
        ((c as u32) - 32) as char
    } else {
        c
    }
}

/// ASCII upper-casing of a whole string, as `str::to_ascii_uppercase` does it.
pub open spec fn ascii_upper(s: Seq<char>) -> Seq<char> {
    s.map_values(|c: char| ascii_upper_char(c))
}

/// Upper-casing leaves whitespace, and what is not whitespace, as it was.
pub proof fn lemma_upper_keeps_whitespace(c: char)
    ensures
        is_ws(ascii_upper_char(c)) == is_ws(c),
{
}

/// Lowering an upper-cased character gives the lowered character.
pub proof fn lemma_lower_of_upper(c: char)
    ensures
        ascii_lower_char(ascii_upper_char(c)) == ascii_lower_char(c),
{
    if 'a' <= c && c <= 'z' {
        let u = ascii_upper_char(c);
        assert(u as u32 == (c as u32) - 32);
        assert('A' <= u && u <= 'Z');
        assert(ascii_lower_char(u) as u32 == c as u32);
    }
}

/// Lower-casing ignores an upper-casing done first.
pub proof fn lemma_lower_ignores_upper(s: Seq<char>)
    ensures
        ascii_lower(ascii_upper(s)) == ascii_lower(s),
{
    assert forall|k: int| 0 <= k < s.len() implies ascii_lower(ascii_upper(s))[k]
        == #[trigger] ascii_lower(s)[k] by {
        lemma_lower_of_upper(s[k]);
    }
    assert(ascii_lower(ascii_upper(s)) =~= ascii_lower(s));
}

/// Upper-casing commutes with dropping leading characters by a predicate that
/// upper-casing does not change.
pub proof fn lemma_trim_start_upper(s: Seq<char>)
    ensures
        trim_start_by(ascii_upper(s), ws_pred()) == ascii_upper(trim_start_by(s, ws_pred())),
    decreases s.len(),
{
    if s.len() > 0 {
        lemma_upper_keeps_whitespace(s[0]);
        assert(ascii_upper(s)[0] == ascii_upper_char(s[0]));
        assert(ascii_upper(s).drop_first() =~= ascii_upper(s.drop_first()));
        lemma_trim_start_upper(s.drop_first());
    }
}

/// Upper-casing commutes with dropping trailing whitespace.
pub proof fn lemma_trim_end_upper(s: Seq<char>)
    ensures
        trim_end_by(ascii_upper(s), ws_pred()) == ascii_upper(trim_end_by(s, ws_pred())),
    decreases s.len(),
{
    if s.len() > 0 {
        lemma_upper_keeps_whitespace(s.last());
        assert(ascii_upper(s).last() == ascii_upper_char(s.last()));
        assert(ascii_upper(s).drop_last() =~= ascii_upper(s.drop_last()));
        lemma_trim_end_upper(s.drop_last());
    }
}

/// Upper-casing commutes with trimming.
pub proof fn lemma_trim_upper(s: Seq<char>)
    ensures
        trim(ascii_upper(s)) == ascii_upper(trim(s)),
{
    lemma_trim_start_upper(s);
    lemma_trim_end_upper(trim_start_by(s, ws_pred()));
}

/// Upper-casing commutes with taking the part after the last separator, when
/// no separator is a lowercase ASCII letter.
pub proof fn lemma_after_last_upper(s: Seq<char>, set: Seq<char>)
    requires
        forall|k: int| 0 <= k < set.len() ==> !('a' <= #[trigger] set[k] && set[k] <= 'z')
            && !('A' <= set[k] && set[k] <= 'Z'),
    ensures
        after_last(ascii_upper(s), set) == ascii_upper(after_last(s, set)),
    decreases s.len(),
{
    if s.len() > 0 {
        let c = s.last();
        let u = ascii_upper_char(c);
        assert(ascii_upper(s).last() == u);
        assert(set.contains(u) == set.contains(c)) by {
            if 'a' <= c && c <= 'z' {
                assert('A' <= u && u <= 'Z');
                if set.contains(u) {
                    let k = choose|k: int| 0 <= k < set.len() && set[k] == u;
                }
                if set.contains(c) {
                    let k = choose|k: int| 0 <= k < set.len() && set[k] == c;
                }
            }
        }
        assert(ascii_upper(s).drop_last() =~= ascii_upper(s.drop_last()));
        lemma_after_last_upper(s.drop_last(), set);
        if !set.contains(c) {
            assert(ascii_upper(after_last(s.drop_last(), set)).push(u) =~= ascii_upper(
                after_last(s.drop_last(), set).push(c),
            ));
        } else {
            assert(ascii_upper(seq![]) =~= Seq::<char>::empty());
        }
    } else {
        assert(ascii_upper(s) =~= s);
    }
}

pub fn after_last_of(v: &Vec<char>, set: &Vec<char>) -> (r: Vec<char>)
    ensures
        r@ == after_last(v@, set@),
{
    let n = v.len();
    let mut j: usize = n;
    while j > 0 && !contains_char(set, v[j - 1])
        invariant
            j <= n,
            n == v.len(),
            forall|k: int| j <= k < n ==> !set@.contains(#[trigger] v@[k]),
        decreases j,
    {
        j -= 1;
    }
    proof {
        lemma_after_last_tail(v@, set@, j as int);
        if j > 0 {
            assert(v@.take(j as int).last() == v@[j - 1]);
        }
        assert(after_last(v@.take(j as int), set@) =~= seq![]);
    }
    sub_vec(v, j, n)
}

/// `s.strip_suffix(suffix)`.
pub open spec fn strip_suffix(s: Seq<char>, suffix: Seq<char>) -> Option<Seq<char>> {
    if ends_with(s, suffix) {
        Some(s.take(s.len() - suffix.len()))
    } else {
        None
    }
}

/// `s.strip_suffix(suffix).unwrap_or(s)`.
pub fn without_suffix(v: &Vec<char>, suffix: &str) -> (r: Vec<char>)
    ensures
        r@ == (match strip_suffix(v@, suffix@) {
            Some(t) => t,
            None => v@,
        }),
{
    let sv = chars_of(suffix);
    if has_suffix(v, &sv) {
        sub_vec(v, 0, v.len() - sv.len())
    } else {
        sub_vec(v, 0, v.len())
    }
}

/// `s` with every whitespace character removed.
pub open spec fn remove_ws(s: Seq<char>) -> Seq<char>
    decreases s.len(),
{
    if s.len() == 0 {
        s
    } else if is_ws(s.last()) {
        remove_ws(s.drop_last())
    } else {
        remove_ws(s.drop_last()).push(s.last())
    }
}

pub fn without_whitespace(v: &Vec<char>) -> (r: Vec<char>)
    ensures
        r@ == remove_ws(v@),
{
    let mut r: Vec<char> = Vec::new();
    let mut i: usize = 0;
    while i < v.len()
        invariant
            i <= v.len(),
            r@ == remove_ws(v@.take(i as int)),
        decreases v.len() - i,
    {
        if !is_whitespace(v[i]) {
            r.push(v[i]);
        }
        i += 1;
        assert(v@.take(i as int).drop_last() =~= v@.take(i - 1));
    }
    assert(v@.take(v.len() as int) =~= v@);
    r
}

/// `s` with every `from` replaced by `to`.
pub open spec fn replace_char(s: Seq<char>, from: char, to: char) -> Seq<char> {
    s.map_values(|c: char| if c == from { to } else { c })
}

pub fn replaced(v: &Vec<char>, from: char, to: char) -> (r: Vec<char>)
    ensures
        r@ == replace_char(v@, from, to),
{
    let mut r: Vec<char> = Vec::new();
    let mut i: usize = 0;
    while i < v.len()
        invariant
            i <= v.len(),
            r@ == replace_char(v@.take(i as int), from, to),
        decreases v.len() - i,
    {
        let c = v[i];
        r.push(if c == from { to } else { c });
        i += 1;
        assert(r@ =~= replace_char(v@.take(i as int), from, to));
    }
    assert(v@.take(v.len() as int) =~= v@);
    r
}

/// How many of the pieces are non-empty.
pub open spec fn count_nonempty(pieces: Seq<Seq<char>>) -> nat
    decreases pieces.len(),
{
    if pieces.len() == 0 {
        0
    } else {
        count_nonempty(pieces.drop_last()) + if pieces.last().len() > 0 {
            1nat
        } else {
            0nat
        }
    }
}

pub fn count_nonempty_pieces(pieces: &Vec<Vec<char>>) -> (r: usize)
    ensures
        r == count_nonempty(seqs(pieces@)),
{
    let mut r: usize = 0;
    let mut i: usize = 0;
    while i < pieces.len()
        invariant
            i <= pieces.len(),
            r == count_nonempty(seqs(pieces@).take(i as int)),
            r <= i,
        decreases pieces.len() - i,
    {
        if pieces[i].len() > 0 {
            r += 1;
        }
        i += 1;
        assert(seqs(pieces@).take(i as int).drop_last() =~= seqs(pieces@).take(i - 1));
    }
    assert(seqs(pieces@).take(pieces.len() as int) =~= seqs(pieces@));
    r
}


/// The index of the first `c` in `s` at or after `i`: `find(c)`.
pub open spec fn find_from(s: Seq<char>, c: char, i: int) -> Option<int>
    decreases s.len() - i,
{
    if i >= s.len() {
        None
    } else if s[i] == c {
        Some(i)
    } else {
        find_from(s, c, i + 1)
    }
}

/// The index of the first `c` in `s`.
pub open spec fn find_char(s: Seq<char>, c: char) -> Option<int> {
    find_from(s, c, 0)
}

pub fn position_of(v: &Vec<char>, c: char) -> (r: Option<usize>)
    ensures
        r matches Some(k) ==> find_char(v@, c) == Some(k as int) && k < v.len(),
        r is None ==> find_char(v@, c) is None,
{
    let mut i: usize = 0;
    while i < v.len()
        invariant
            i <= v.len(),
            find_char(v@, c) == find_from(v@, c, i as int),
        decreases v.len() - i,
    {
        if v[i] == c {
            return Some(i);
        }
        i += 1;
    }
    None
}


/// A vector holding just `a`.
pub fn chars1(a: char) -> (r: Vec<char>)
    ensures
        r@ == seq![a],
{
    let mut r: Vec<char> = Vec::new();
    r.push(a);
    assert(r@ =~= seq![a]);
    r
}

/// A vector holding `a` then `b`.
pub fn chars2(a: char, b: char) -> (r: Vec<char>)
    ensures
        r@ == seq![a, b],
{
    let mut r: Vec<char> = Vec::new();
    r.push(a);
    r.push(b);
    assert(r@ =~= seq![a, b]);
    r
}

/// A copy of `v[from..to]` for a vector of texts.
pub fn sub_texts(v: &Vec<Vec<char>>, from: usize, to: usize) -> (r: Vec<Vec<char>>)
    requires
        from <= to <= v.len(),
    ensures
        seqs(r@) == seqs(v@).subrange(from as int, to as int),
{
    let mut r: Vec<Vec<char>> = Vec::new();
    let mut i: usize = from;
    while i < to
        invariant
            from <= i <= to,
            to <= v.len(),
            seqs(r@) == seqs(v@).subrange(from as int, i as int),
        decreases to - i,
    {
        let x = sub_vec(&v[i], 0, v[i].len());
        proof {
            lemma_seqs_push(r@, x);
            assert(x@ =~= v@[i as int]@);
        }
        r.push(x);
        i += 1;
        assert(seqs(r@) =~= seqs(v@).subrange(from as int, i as int));
    }
    r
}

/// Whether some text in `items[from..]` satisfies the predicate that `f`
/// decides.
pub fn any_from<F: Fn(&Vec<char>) -> bool>(
    items: &Vec<Vec<char>>,
    from: usize,
    f: F,
    Ghost(p): Ghost<spec_fn(Seq<char>) -> bool>,
) -> (r: bool)
    requires
        forall|x: &Vec<char>| #[trigger] f.requires((x,)),
        forall|x: &Vec<char>, b: bool| f.ensures((x,), b) ==> b == p(x@),
    ensures
        r == exists|j: int| from <= j < items.len() && p(#[trigger] seqs(items@)[j]),
{
    let mut i: usize = from;
    while i < items.len()
        invariant
            from <= i,
            forall|x: &Vec<char>| #[trigger] f.requires((x,)),
            forall|x: &Vec<char>, b: bool| f.ensures((x,), b) ==> b == p(x@),
            forall|j: int| from <= j < i ==> !p(#[trigger] seqs(items@)[j]),
        decreases items.len() - i,
    {
        let b = f(&items[i]);
        if b {
            assert(p(seqs(items@)[i as int]));
            return true;
        }
        i += 1;
    }
    false
}

/// The first index at or after `i` where `p` occurs in `s`: `find(p)`.
pub open spec fn first_match_from(s: Seq<char>, p: Seq<char>, i: int) -> Option<int>
    decreases s.len() + 1 - i,
{
    if i < 0 || i + p.len() > s.len() {
        None
    } else if matches_at(s, i, p) {
        Some(i)
    } else {
        first_match_from(s, p, i + 1)
    }
}

/// The first index where `p` occurs in `s`.
pub open spec fn first_match(s: Seq<char>, p: Seq<char>) -> Option<int> {
    first_match_from(s, p, 0)
}

/// The index of the first occurrence of `p` in `v`.
pub fn find_sub(v: &Vec<char>, p: &str) -> (r: Option<usize>)
    ensures
        r matches Some(k) ==> first_match(v@, p@) == Some(k as int) && k + p@.len() <= v.len(),
        r is None ==> first_match(v@, p@) is None,
{
    let pv = chars_of(p);
    if pv.len() > v.len() {
        return None;
    }
    let last = v.len() - pv.len();
    let mut i: usize = 0;
    while i <= last
        invariant
            last == v.len() - pv.len(),
            pv.len() <= v.len(),
            pv@ == p@,
            first_match(v@, p@) == first_match_from(v@, p@, i as int),
        decreases last + 1 - i,
    {
        if match_at(v, i, &pv) {
            return Some(i);
        }
        if i == last {
            assert(first_match_from(v@, p@, i + 1) is None);
            return None;
        }
        i += 1;
    }
    None
}

/// `s` with every leading repetition of `p` removed: `trim_start_matches(p)`.
pub open spec fn strip_repeated(s: Seq<char>, p: Seq<char>) -> Seq<char>
    decreases s.len(),
{
    if p.len() > 0 && starts_with(s, p) {
        strip_repeated(s.skip(p.len() as int), p)
    } else {
        s
    }
}

/// Removes every leading repetition of `p`.
pub fn strip_leading(v: &Vec<char>, p: &str) -> (r: Vec<char>)
    ensures
        r@ == strip_repeated(v@, p@),
{
    let pv = chars_of(p);
    let mut i: usize = 0;
    assert(v@.skip(0) =~= v@);
    while pv.len() > 0 && i <= v.len() && match_at(v, i, &pv)
        invariant
            i <= v.len(),
            pv@ == p@,
            strip_repeated(v@, p@) == strip_repeated(v@.skip(i as int), p@),
        decreases v.len() - i,
    {
        proof {
            let rest = v@.skip(i as int);
            assert(rest.subrange(0, p@.len() as int) =~= v@.subrange(i as int, i + p@.len()));
            assert(rest.skip(p@.len() as int) =~= v@.skip(i + p@.len()));
        }
        i = i + pv.len();
    }
    proof {
        let rest = v@.skip(i as int);
        if p@.len() > 0 && starts_with(rest, p@) {
            assert(rest.subrange(0, p@.len() as int) =~= v@.subrange(i as int, i + p@.len()));
        }
    }
    sub_vec(v, i, v.len())
}

/// The decimal digit `d`.
pub open spec fn digit(d: nat) -> char {
    seq!['0', '1', '2', '3', '4', '5', '6', '7', '8', '9'][d as int]
}

/// The decimal spelling of `n`, as `Display` writes an unsigned integer.
pub open spec fn decimal(n: nat) -> Seq<char>
    decreases n,
{
    if n < 10 {
        seq![digit(n)]
    } else {
        decimal(n / 10).push(digit(n % 10))
    }
}

fn digit_char(d: u64) -> (c: char)
    requires
        d < 10,
    ensures
        c == digit(d as nat),
{
    match d {
        0 => '0',
        1 => '1',
        2 => '2',
        3 => '3',
        4 => '4',
        5 => '5',
        6 => '6',
        7 => '7',
        8 => '8',
        _ => '9',
    }
}

/// Appends the decimal spelling of `n`.
pub fn push_decimal(s: &mut String, n: u64)
    ensures
        final(s)@ == old(s)@ + decimal(n as nat),
    decreases n,
{
    if n >= 10 {
        push_decimal(s, n / 10);
    }
    push_char(s, digit_char(n % 10));
    assert(old(s)@ + decimal(n as nat) =~= final(s)@) by {
        if n >= 10 {
            assert(decimal(n as nat) == decimal((n / 10) as nat).push(digit((n % 10) as nat)));
        }
    }
}

} // verus!
