//! Character-level text operations, each with the mathematical meaning that
//! the entry fields of the player rely on.

use vstd::prelude::*;
use vstd::string::*;

verus! {

/// Unicode `White_Space`: the characters that `char::is_whitespace` accepts.
pub open spec fn is_white(c: char) -> bool {
    ||| ('\u{9}' <= c && c <= '\u{d}')
    ||| c == ' '
    ||| c == '\u{85}'
    ||| c == '\u{a0}'
    ||| c == '\u{1680}'
    ||| ('\u{2000}' <= c && c <= '\u{200a}')
    ||| c == '\u{2028}'
    ||| c == '\u{2029}'
    ||| c == '\u{202f}'
    ||| c == '\u{205f}'
    ||| c == '\u{3000}'
}

/// `s` without its leading whitespace.
pub open spec fn trim_start(s: Seq<char>) -> Seq<char>
    decreases s.len(),
{
    if s.len() > 0 && is_white(s[0]) {
        trim_start(s.drop_first())
    } else {
        s
    }
}

/// `s` without its trailing whitespace.
pub open spec fn trim_end(s: Seq<char>) -> Seq<char>
    decreases s.len(),
{
    if s.len() > 0 && is_white(s.last()) {
        trim_end(s.drop_last())
    } else {
        s
    }
}

/// `s` without leading and trailing whitespace (what `str::trim` gives).
pub open spec fn trim(s: Seq<char>) -> Seq<char> {
    trim_end(trim_start(s))
}

/// `s` without every trailing occurrence of `c` (what `str::trim_end_matches(c)` gives).
pub open spec fn trim_end_char(s: Seq<char>, c: char) -> Seq<char>
    decreases s.len(),
{
    if s.len() > 0 && s.last() == c {
        trim_end_char(s.drop_last(), c)
    } else {
        s
    }
}

/// ASCII upper-case letters mapped to lower case, every other character kept.
pub open spec fn lower_char(c: char) -> char {
    if 'A' <= c && c <= 'Z' {
        ((c as int) + 32) as char
    } else {
        c
    }
}

/// What `str::to_ascii_lowercase` gives.
pub open spec fn ascii_lowercase(s: Seq<char>) -> Seq<char> {
    s.map_values(|c: char| lower_char(c))
}

/// `a` stands at position `i` of `s`, directly followed by `b`.
pub open spec fn pair_at(s: Seq<char>, i: int, a: char, b: char) -> bool {
    0 <= i && i + 1 < s.len() && s[i] == a && s[i + 1] == b
}

/// `a` directly followed by `b` occurs somewhere in `s`.
pub open spec fn has_pair(s: Seq<char>, a: char, b: char) -> bool {
    exists|i: int| #[trigger] pair_at(s, i, a, b)
}

/// `s` ends with `a` followed by `b`.
pub open spec fn ends_with_pair(s: Seq<char>, a: char, b: char) -> bool {
    s.len() >= 2 && s[s.len() - 2] == a && s[s.len() - 1] == b
}

/// `s` without a final `a` `b` pair if it ends with one, else `s`.
pub open spec fn strip_pair_suffix(s: Seq<char>, a: char, b: char) -> Seq<char> {
    if ends_with_pair(s, a, b) {
        s.take(s.len() - 2)
    } else {
        s
    }
}

/// The multiplication and division signs written as ASCII operators.
pub open spec fn operator_char(c: char) -> char {
    if c == '×' {
        '*'
    } else if c == '÷' {
        '/'
    } else {
        c
    }
}

/// Every `×` replaced by `*` and every `÷` by `/`.
pub open spec fn ascii_operators(s: Seq<char>) -> Seq<char> {
    s.map_values(|c: char| operator_char(c))
}

/// The position of the first `c` in `s`, if any.
pub open spec fn is_first_index(s: Seq<char>, c: char, i: int) -> bool {
    &&& 0 <= i < s.len()
    &&& s[i] == c
    &&& forall|j: int| 0 <= j < i ==> s[j] != c
}

/// `s` cut at its first `c`: the part before it and the part after it, or
/// `None` where `s` holds no `c` (what `str::split_once(c)` gives).
pub open spec fn split_once(s: Seq<char>, c: char) -> Option<(Seq<char>, Seq<char>)> {
    if s.contains(c) {
        let i = choose|i: int| is_first_index(s, c, i);
        Some((s.take(i), s.skip(i + 1)))
    } else {
        None
    }
}

/// `trim_start(s)` is a suffix of `s` that is empty or starts with a non-white character.
pub proof fn lemma_trim_start_shape(s: Seq<char>)
    ensures
        trim_start(s) =~= s.skip(s.len() - trim_start(s).len()),
        trim_start(s).len() <= s.len(),
        trim_start(s).len() > 0 ==> !is_white(trim_start(s)[0]),
    decreases s.len(),
{
    if s.len() > 0 && is_white(s[0]) {
        lemma_trim_start_shape(s.drop_first());
    }
}

/// `trim_end(s)` is a prefix of `s` that is empty or ends with a non-white character.
pub proof fn lemma_trim_end_shape(s: Seq<char>)
    ensures
        trim_end(s) =~= s.take(trim_end(s).len() as int),
        trim_end(s).len() <= s.len(),
        trim_end(s).len() > 0 ==> !is_white(trim_end(s).last()),
    decreases s.len(),
{
    if s.len() > 0 && is_white(s.last()) {
        lemma_trim_end_shape(s.drop_last());
    }
}

/// A trimmed text is empty or starts and ends with a non-white character.
pub proof fn lemma_trim_ends(s: Seq<char>)
    ensures
        trim(s).len() > 0 ==> !is_white(trim(s)[0]) && !is_white(trim(s).last()),
{
    let t = trim_start(s);
    lemma_trim_start_shape(s);
    lemma_trim_end_shape(t);
    if trim(s).len() > 0 {
        assert(trim(s)[0] == t[0]);
    }
}

/// A text that is empty or starts and ends with a non-white character is its own trim.
pub proof fn lemma_trim_fixed(s: Seq<char>)
    requires
        s.len() > 0 ==> !is_white(s[0]) && !is_white(s.last()),
    ensures
        trim(s) == s,
{
}

pub fn char_is_white(c: char) -> (b: bool)
    ensures
        b == is_white(c),
{
    ('\u{9}' <= c && c <= '\u{d}') || c == ' ' || c == '\u{85}' || c == '\u{a0}' || c == '\u{1680}'
        || ('\u{2000}' <= c && c <= '\u{200a}') || c == '\u{2028}' || c == '\u{2029}'
        || c == '\u{202f}' || c == '\u{205f}' || c == '\u{3000}'
}

/// The characters of `s`, in order.
pub fn chars_of(s: &str) -> (v: Vec<char>)
    ensures
        v@ == s@,
{
    let n = s.unicode_len();
    let mut v: Vec<char> = Vec::new();
    let mut i: usize = 0;
    while i < n
        invariant
            n == s@.len(),
            i <= n,
            v@ == s@.take(i as int),
        decreases n - i,
    {
        let c = s.get_char(i);
        v.push(c);
        i = i + 1;
        assert(v@ =~= s@.take(i as int));
    }
    assert(v@ =~= s@);
    v
}

/// Builds a `String` from characters, by std's `FromIterator<&char>` for
/// `String`; claimed: the string holds exactly those characters, in order.
#[verifier::external_body]
pub(crate) fn string_from_chars(v: &Vec<char>) -> (s: String)
    ensures
        s@ == v@,
{
    v.iter().collect()
}

/// The characters of `v` from `from` up to, not including, `to`.
pub fn copy_range(v: &Vec<char>, from: usize, to: usize) -> (r: Vec<char>)
    requires
        from <= to <= v@.len(),
    ensures
        r@ == v@.subrange(from as int, to as int),
{
    let mut r: Vec<char> = Vec::new();
    let mut k: usize = from;
    while k < to
        invariant
            from <= k <= to <= v@.len(),
            r@ == v@.subrange(from as int, k as int),
        decreases to - k,
    {
        r.push(v[k]);
        k = k + 1;
        assert(r@ =~= v@.subrange(from as int, k as int));
    }
    r
}

/// `v` without leading and trailing whitespace.
pub fn trim_chars(v: &Vec<char>) -> (r: Vec<char>)
    ensures
        r@ == trim(v@),
{
    let n = v.len();
    let mut i: usize = 0;
    assert(v@.subrange(0, n as int) =~= v@);
    while i < n && char_is_white(v[i])
        invariant
            n == v@.len(),
            i <= n,
            trim_start(v@) == trim_start(v@.subrange(i as int, n as int)),
        decreases n - i,
    {
        assert(v@.subrange(i as int, n as int).drop_first() =~= v@.subrange(i + 1, n as int));
        i = i + 1;
    }
    if i == n {
        assert(v@.subrange(i as int, n as int) =~= Seq::<char>::empty());
    }
    assert(trim_start(v@) == v@.subrange(i as int, n as int));
    let mut j: usize = n;
    while j > i && char_is_white(v[j - 1])
        invariant
            n == v@.len(),
            i <= j <= n,
            trim_start(v@) == v@.subrange(i as int, n as int),
            trim(v@) == trim_end(v@.subrange(i as int, j as int)),
        decreases j - i,
    {
        assert(v@.subrange(i as int, j as int).drop_last() =~= v@.subrange(i as int, j - 1));
        j = j - 1;
    }
    if j == i {
        assert(v@.subrange(i as int, j as int) =~= Seq::<char>::empty());
    }
    assert(trim(v@) == v@.subrange(i as int, j as int));
    copy_range(v, i, j)
}

/// `v` without every trailing occurrence of `c`.
pub fn trim_end_chars(v: &Vec<char>, c: char) -> (r: Vec<char>)
    ensures
        r@ == trim_end_char(v@, c),
{
    let n = v.len();
    let mut j: usize = n;
    assert(v@.take(n as int) =~= v@);
    while j > 0 && v[j - 1] == c
        invariant
            n == v@.len(),
            j <= n,
            trim_end_char(v@, c) == trim_end_char(v@.take(j as int), c),
        decreases j,
    {
        assert(v@.take(j as int).drop_last() =~= v@.take(j - 1));
        j = j - 1;
    }
    if j == 0 {
        assert(v@.take(0) =~= Seq::<char>::empty());
    }
    assert(trim_end_char(v@, c) == v@.take(j as int));
    copy_range(v, 0, j)
}

pub fn char_to_lower(c: char) -> (d: char)
    ensures
        d == lower_char(c),
{
    if 'A' <= c && c <= 'Z' {
        ((c as u8) + 32) as char
    } else {
        c
    }
}

/// `v` with ASCII upper-case letters in lower case.
pub fn lowercase_chars(v: &Vec<char>) -> (r: Vec<char>)
    ensures
        r@ == ascii_lowercase(v@),
{
    let n = v.len();
    let mut r: Vec<char> = Vec::new();
    let mut k: usize = 0;
    while k < n
        invariant
            n == v@.len(),
            k <= n,
            r@.len() == k,
            forall|j: int| 0 <= j < k ==> r@[j] == lower_char(v@[j]),
        decreases n - k,
    {
        let d = char_to_lower(v[k]);
        r.push(d);
        k = k + 1;
    }
    assert(r@ =~= ascii_lowercase(v@));
    r
}

/// `v` with `×` written as `*` and `÷` as `/`.
pub fn operators_to_ascii(v: &Vec<char>) -> (r: Vec<char>)
    ensures
        r@ == ascii_operators(v@),
{
    let n = v.len();
    let mut r: Vec<char> = Vec::new();
    let mut k: usize = 0;
    while k < n
        invariant
            n == v@.len(),
            k <= n,
            r@.len() == k,
            forall|j: int| 0 <= j < k ==> r@[j] == operator_char(v@[j]),
        decreases n - k,
    {
        let c = v[k];
        let d = if c == '×' {
            '*'
        } else if c == '÷' {
            '/'
        } else {
            c
        };
        r.push(d);
        k = k + 1;
    }
    assert(r@ =~= ascii_operators(v@));
    r
}

/// Whether `a` directly followed by `b` occurs in `v`.
pub fn contains_pair(v: &Vec<char>, a: char, b: char) -> (found: bool)
    ensures
        found == has_pair(v@, a, b),
{
    let n = v.len();
    if n < 2 {
        return false;
    }
    let mut i: usize = 0;
    while i < n - 1
        invariant
            n == v@.len(),
            n >= 2,
            forall|j: int| 0 <= j < i ==> !#[trigger] pair_at(v@, j, a, b),
        decreases n - i,
    {
        if v[i] == a && v[i + 1] == b {
            assert(pair_at(v@, i as int, a, b));
            return true;
        }
        i = i + 1;
    }
    false
}

/// `v` without a final `a` `b` pair, if it ends with one.
pub fn strip_pair(v: &Vec<char>, a: char, b: char) -> (r: Vec<char>)
    ensures
        r@ == strip_pair_suffix(v@, a, b),
{
    let n = v.len();
    if n >= 2 && v[n - 2] == a && v[n - 1] == b {
        copy_range(v, 0, n - 2)
    } else {
        copy_range(v, 0, n)
    }
}

/// The position of the first `c` in `v`, or `None` where `v` holds none.
pub fn find_char(v: &Vec<char>, c: char) -> (r: Option<usize>)
    ensures
        r matches Some(i) ==> is_first_index(v@, c, i as int),
        r is None ==> !v@.contains(c),
{
    let n = v.len();
    let mut i: usize = 0;
    while i < n
        invariant
            n == v@.len(),
            i <= n,
            forall|j: int| 0 <= j < i ==> v@[j] != c,
        decreases n - i,
    {
        if v[i] == c {
            return Some(i);
        }
        i = i + 1;
    }
    None
}

/// `v` cut at its first `c`, as `split_once` describes.
pub fn split_once_chars(v: &Vec<char>, c: char) -> (r: Option<(Vec<char>, Vec<char>)>)
    ensures
        r is Some <==> split_once(v@, c) is Some,
        r matches Some((left, right)) ==> split_once(v@, c) == Some((left@, right@)),
{
    match find_char(v, c) {
        None => None,
        Some(i) => {
            assert(is_first_index(v@, c, i as int));
            assert(i < v.len());
            assert(v@.contains(c)) by {
                assert(v@[i as int] == c);
            }
            let ghost k = choose|k: int| is_first_index(v@, c, k);
            assert(k == i as int);
            let left = copy_range(v, 0, i);
            let right = copy_range(v, i + 1, v.len());
            assert(left@ =~= v@.take(i as int));
            assert(right@ =~= v@.skip(i + 1));
            Some((left, right))
        },
    }
}

/// A formatted decimal number without the zeros that end its fraction and
/// then without a point left at its end (`2.500000` gives `2.5`, `3.000000` gives `3`).
pub fn trim_fraction_zeros(formatted: &str) -> (r: String)
    ensures
        r@ == trim_end_char(trim_end_char(formatted@, '0'), '.'),
{
    let v = chars_of(formatted);
    let w = trim_end_chars(&v, '0');
    let t = trim_end_chars(&w, '.');
    string_from_chars(&t)
}

} // verus!
