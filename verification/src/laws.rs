//! Properties that hold across the operations of the library.

use vstd::prelude::*;
use crate::controls::{
    ratio_entry, read_entry, read_follow, Controls, EntryReading, FollowReading,
};
use crate::expression::{expression_text, mentions_hertz, spec_ratio_mode, RatioMode};
use crate::expression::frequency_text;
use crate::text::{
    ascii_lowercase, ascii_operators, has_pair, is_first_index, is_white, lemma_trim_end_shape,
    lemma_trim_ends, lemma_trim_fixed, lemma_trim_start_shape, lower_char, operator_char, pair_at,
    split_once, strip_pair_suffix, trim, trim_end, trim_end_char, trim_start,
};

verus! {

/// Trimming twice gives what trimming once gives, so the second trim that a
/// frequency gets on its way to the evaluator changes nothing.
pub proof fn law_trim_idempotent(s: Seq<char>)
    ensures
        trim(trim(s)) == trim(s),
{
    lemma_trim_ends(s);
    lemma_trim_fixed(trim(s));
}

/// Toggling play twice gives back the settings one started from.
pub proof fn law_toggle_twice_restores(c: Controls)
    ensures
        c.after_toggle().after_toggle() == c,
{
}

/// The entry `1:ratio` that shows an accepted ratio reads back, under the lock,
/// as the ratio 1 : `ratio`, both when the entry is re-read and when X is set;
/// so the lock keeps Y at the ratio shown. This holds where `ratio` is trimmed,
/// not empty, and holds neither `:` nor `Hz`, as shown ratios do.
pub proof fn law_shown_ratio_reads_back(ratio: Seq<char>)
    requires
        trim(ratio) == ratio,
        ratio.len() > 0,
        !ratio.contains(':'),
        !mentions_hertz(ratio),
    ensures
        read_entry(true, ratio_entry(ratio)) == EntryReading::Ratio(seq!['1'], ascii_operators(ratio)),
        read_follow(true, ratio_entry(ratio)) == FollowReading::Scale(
            seq!['1'],
            ascii_operators(ratio),
        ),
{
    let s = ratio_entry(ratio);
    lemma_trim_ends(ratio);
    assert(s[0] == '1');
    assert(s.last() == ratio.last());
    lemma_trim_fixed(s);
    let one = seq!['1'];
    lemma_trim_fixed(one);
    assert(is_first_index(s, ':', 1));
    assert(s.contains(':')) by {
        assert(s[1] == ':');
    }
    let k = choose|k: int| is_first_index(s, ':', k);
    assert(k == 1);
    assert(s.take(1) =~= one);
    assert(s.skip(2) =~= ratio);
    assert(split_once(trim(s), ':') == Some((one, ratio)));
    assert(!mentions_hertz(one)) by {
        if has_pair(ascii_lowercase(one), 'h', 'z') {
            let i = choose|i: int| pair_at(ascii_lowercase(one), i, 'h', 'z');
            assert(ascii_lowercase(one).len() == 1);
        }
    }
    assert(spec_ratio_mode(one, ratio) == RatioMode::Ratio);
    assert(ascii_operators(one) =~= one);
    assert(expression_text(one) == Some(one));
    assert(expression_text(ratio) == Some(ascii_operators(ratio)));
}

/// Preparing an already prepared expression leaves it as it is.
pub proof fn law_prepared_expression_is_stable(s: Seq<char>)
    ensures
        expression_text(s) matches Some(e) ==> expression_text(e) == Some(e),
{
    if let Some(e) = expression_text(s) {
        let t = trim(s);
        lemma_trim_ends(s);
        assert(e[0] == operator_char(t[0]));
        assert(e.last() == operator_char(t.last()));
        lemma_trim_fixed(e);
        assert(ascii_operators(e) =~= e);
    }
}

/// Whether a text names `Hz` does not depend on the case of its letters.
pub proof fn law_hertz_any_case(s: Seq<char>)
    ensures
        mentions_hertz(ascii_lowercase(s)) == mentions_hertz(s),
{
    assert forall|i: int| 0 <= i < s.len() implies lower_char(lower_char(s[i])) == lower_char(
        s[i],
    ) by {}
    assert(ascii_lowercase(ascii_lowercase(s)) =~= ascii_lowercase(s));
}

/// A number text with its trailing points removed never ends with a point.
pub proof fn law_no_trailing_point(s: Seq<char>)
    ensures
        trim_end_char(s, '.').len() > 0 ==> trim_end_char(s, '.').last() != '.',
    decreases s.len(),
{
    if s.len() > 0 && s.last() == '.' {
        law_no_trailing_point(s.drop_last());
    }
}

/// `s` names the unit Hz: an `h` or `H` directly followed by a `z` or `Z`.
pub open spec fn names_hertz(s: Seq<char>) -> bool {
    exists|i: int|
        0 <= i && i + 1 < s.len() && (#[trigger] s[i] == 'h' || s[i] == 'H') && (s[i + 1] == 'z'
            || s[i + 1] == 'Z')
}

/// Lower-casing keeps the length, turns each of `A`..`Z` into the letter 32
/// code points above it, and keeps every other character.
pub proof fn law_ascii_lowercase(s: Seq<char>)
    ensures
        ascii_lowercase(s).len() == s.len(),
        forall|i: int|
            0 <= i < s.len() ==> {
                let c = s[i];
                let d = #[trigger] ascii_lowercase(s)[i];
                &&& ('A' <= c && c <= 'Z') ==> d as int == c as int + 32
                &&& !('A' <= c && c <= 'Z') ==> d == c
            },
{
}

/// Lower-casing turns a character into `h` exactly when it is `h` or `H`, and
/// into `z` exactly when it is `z` or `Z`; it never makes or unmakes whitespace.
proof fn lemma_lower_char_letters(c: char)
    ensures
        lower_char(c) == 'h' <==> (c == 'h' || c == 'H'),
        lower_char(c) == 'z' <==> (c == 'z' || c == 'Z'),
        is_white(lower_char(c)) == is_white(c),
{
    if 'A' <= c && c <= 'Z' {
        assert(lower_char(c) as int == c as int + 32);
    }
}

/// An `X:Y` side reads as a frequency exactly when it names Hz anywhere, in
/// any case: the two sides give `Frequencies` exactly when one of them does.
pub proof fn law_ratio_mode_names_hertz(left: Seq<char>, right: Seq<char>)
    ensures
        mentions_hertz(left) == names_hertz(left),
        mentions_hertz(right) == names_hertz(right),
        (spec_ratio_mode(left, right) == RatioMode::Frequencies) <==> (names_hertz(left)
            || names_hertz(right)),
{
    lemma_mentions_hertz(left);
    lemma_mentions_hertz(right);
}

/// Under the lock an entry is cut at its first `:` after trimming. Where either
/// side names Hz, both sides are read as frequencies (refused where one of them
/// is empty once its unit is off), never as ratio terms; where neither does,
/// both are read as ratio terms (refused where one is empty), never as
/// frequencies. Without the lock the entry is not read.
pub proof fn law_read_entry(input: Seq<char>)
    ensures
        read_entry(false, input) == EntryReading::Ignored,
        split_once(trim(input), ':') is None ==> read_entry(true, input) == EntryReading::Rejected,
        split_once(trim(input), ':') matches Some((l, r)) ==> {
            &&& (names_hertz(l) || names_hertz(r)) ==> read_entry(true, input) == match (
                expression_text(frequency_text(l)),
                expression_text(frequency_text(r)),
            ) {
                (Some(a), Some(b)) => EntryReading::Frequencies(a, b),
                _ => EntryReading::Rejected,
            }
            &&& !(names_hertz(l) || names_hertz(r)) ==> read_entry(true, input) == match (
                expression_text(l),
                expression_text(r),
            ) {
                (Some(a), Some(b)) => EntryReading::Ratio(a, b),
                _ => EntryReading::Rejected,
            }
        },
{
    if let Some((l, r)) = split_once(trim(input), ':') {
        law_ratio_mode_names_hertz(l, r);
    }
}

/// When X is set under the lock, Y follows the trimmed entry: it takes X's
/// value exactly where the entry holds no `:`; it is scaled by the entry's two
/// sides, in order, where they are what stands before and after its first `:`,
/// both non-empty; else it keeps its value. Without the lock it keeps its value.
pub proof fn law_read_follow(input: Seq<char>)
    ensures
        read_follow(false, input) == FollowReading::Keep,
        (read_follow(true, input) == FollowReading::SameAsX) <==> !trim(input).contains(':'),
        read_follow(true, input) matches FollowReading::Scale(a, b) ==> exists|l: Seq<char>, r: Seq<char>|
            trim(input) == l + seq![':'] + r && !l.contains(':') && expression_text(l) == Some(a)
                && expression_text(r) == Some(b),
        read_follow(true, input) == FollowReading::Keep ==> exists|l: Seq<char>, r: Seq<char>|
            trim(input) == l + seq![':'] + r && !l.contains(':') && (trim(l).len() == 0 || trim(
                r,
            ).len() == 0),
{
    law_split_once(trim(input), ':');
    if let Some((l, r)) = split_once(trim(input), ':') {
        law_prepare_expression(l);
        law_prepare_expression(r);
    }
}

proof fn lemma_mentions_hertz(s: Seq<char>)
    ensures
        mentions_hertz(s) == names_hertz(s),
{
    let t = ascii_lowercase(s);
    if mentions_hertz(s) {
        let i = choose|i: int| pair_at(t, i, 'h', 'z');
        lemma_lower_char_letters(s[i]);
        lemma_lower_char_letters(s[i + 1]);
        assert(s[i] == 'h' || s[i] == 'H');
    }
    if names_hertz(s) {
        let i = choose|i: int|
            0 <= i && i + 1 < s.len() && (#[trigger] s[i] == 'h' || s[i] == 'H') && (s[i + 1]
                == 'z' || s[i + 1] == 'Z');
        lemma_lower_char_letters(s[i]);
        lemma_lower_char_letters(s[i + 1]);
        assert(pair_at(t, i, 'h', 'z'));
    }
}

/// Cutting at the first `c`: the parts around it rebuild the text, and the
/// first part holds no `c`; where nothing is cut the text holds no `c`.
pub proof fn law_split_once(s: Seq<char>, c: char)
    ensures
        split_once(s, c) is None <==> !s.contains(c),
        split_once(s, c) matches Some((l, r)) ==> s == l + seq![c] + r && !l.contains(c),
{
    if s.contains(c) {
        let j = choose|j: int| 0 <= j < s.len() && s[j] == c;
        let k = choose|k: int| is_first_index(s, c, k) && forall|m: int| 0 <= m < k ==> s[m] != c
            && k <= j;
        lemma_first_index_exists(s, c, j);
        let i = choose|i: int| is_first_index(s, c, i);
        assert(s =~= s.take(i) + seq![c] + s.skip(i + 1));
        if s.take(i).contains(c) {
            let m = choose|m: int| 0 <= m < s.take(i).len() && s.take(i)[m] == c;
            assert(s[m] == c);
        }
    }
}

proof fn lemma_first_index_exists(s: Seq<char>, c: char, j: int)
    requires
        0 <= j < s.len(),
        s[j] == c,
    ensures
        exists|i: int| is_first_index(s, c, i),
    decreases j,
{
    if forall|m: int| 0 <= m < j ==> s[m] != c {
        assert(is_first_index(s, c, j));
    } else {
        let m = choose|m: int| 0 <= m < j && s[m] == c;
        lemma_first_index_exists(s, c, m);
    }
}

/// Trimming keeps a contiguous part of the text and removes only whitespace
/// before and after it; what it keeps is empty or starts and ends with a
/// character that is not whitespace.
pub proof fn law_trim(s: Seq<char>)
    ensures
        exists|a: int, b: int|
            0 <= a <= b <= s.len() && trim(s) == s.subrange(a, b) && (forall|i: int|
                0 <= i < a ==> is_white(#[trigger] s[i])) && (forall|i: int|
                b <= i < s.len() ==> is_white(#[trigger] s[i])),
        trim(s).len() > 0 ==> !is_white(trim(s)[0]) && !is_white(trim(s).last()),
{
    lemma_trim_start_shape(s);
    let t = trim_start(s);
    lemma_trim_end_shape(t);
    lemma_trim_ends(s);
    let a = s.len() - t.len();
    let b = a + trim(s).len();
    assert(trim(s) =~= s.subrange(a, b));
    assert forall|i: int| b <= i < s.len() implies is_white(#[trigger] s[i]) by {
        assert(s[i] == t[i - a]);
        lemma_trim_end_removes_white(t, i - a);
    }
    assert forall|i: int| 0 <= i < a implies is_white(#[trigger] s[i]) by {
        lemma_trim_start_removes_white(s, i);
    }
}

proof fn lemma_trim_start_removes_white(s: Seq<char>, i: int)
    requires
        0 <= i < s.len() - trim_start(s).len(),
    ensures
        is_white(s[i]),
    decreases s.len(),
{
    if s.len() > 0 && is_white(s[0]) {
        if i > 0 {
            lemma_trim_start_removes_white(s.drop_first(), i - 1);
        }
    }
}

/// Preparing an expression keeps the trimmed text character for character,
/// except that `×` becomes `*` and `÷` becomes `/`; it refuses exactly a text
/// that trims to nothing.
pub proof fn law_prepare_expression(s: Seq<char>)
    ensures
        expression_text(s) is None <==> trim(s).len() == 0,
        expression_text(s) matches Some(e) ==> {
            &&& e.len() == trim(s).len()
            &&& forall|i: int|
                0 <= i < e.len() ==> {
                    let c = trim(s)[i];
                    &&& c == '×' ==> #[trigger] e[i] == '*'
                    &&& c == '÷' ==> e[i] == '/'
                    &&& (c != '×' && c != '÷') ==> e[i] == c
                }
        },
{
}

/// Trimming the trailing `c`s keeps a prefix of the text, removes only `c`s,
/// and leaves no `c` at the end.
pub proof fn law_trim_end_char(s: Seq<char>, c: char)
    ensures
        trim_end_char(s, c).len() <= s.len(),
        trim_end_char(s, c) == s.take(trim_end_char(s, c).len() as int),
        forall|i: int| trim_end_char(s, c).len() <= i < s.len() ==> #[trigger] s[i] == c,
        trim_end_char(s, c).len() > 0 ==> trim_end_char(s, c).last() != c,
    decreases s.len(),
{
    if s.len() > 0 && s.last() == c {
        law_trim_end_char(s.drop_last(), c);
        let r = trim_end_char(s, c);
        assert(r =~= s.take(r.len() as int));
        assert forall|i: int| r.len() <= i < s.len() implies #[trigger] s[i] == c by {
            if i < s.len() - 1 {
                assert(s[i] == s.drop_last()[i]);
            }
        }
    } else {
        assert(s =~= s.take(s.len() as int));
    }
}

/// Taking the unit off a typed frequency removes only whitespace and one
/// final `hz`: the lower-cased trimmed text is the result, then whitespace,
/// then `hz` where it ended with `hz`.
pub proof fn law_frequency_text(s: Seq<char>)
    ensures
        ({
            let t = ascii_lowercase(trim(s));
            let p = frequency_text(s);
            exists|w: Seq<char>|
                (forall|i: int| 0 <= i < w.len() ==> is_white(#[trigger] w[i])) && (if t.len()
                    >= 2 && t[t.len() - 2] == 'h' && t[t.len() - 1] == 'z' {
                    t == p + w + seq!['h', 'z']
                } else {
                    t == p + w
                })
        }),
{
    let u = trim(s);
    let t = ascii_lowercase(u);
    let st = strip_pair_suffix(t, 'h', 'z');
    let p = frequency_text(s);
    lemma_trim_ends(s);
    if st.len() > 0 {
        lemma_lower_char_letters(u[0]);
        assert(st[0] == t[0]);
        assert(!is_white(st[0]));
    }
    assert(trim_start(st) == st);
    lemma_trim_end_shape(st);
    let w = st.skip(p.len() as int);
    assert(st =~= p + w);
    assert forall|i: int| 0 <= i < w.len() implies is_white(#[trigger] w[i]) by {
        lemma_trim_end_removes_white(st, p.len() + i);
    }
    if t.len() >= 2 && t[t.len() - 2] == 'h' && t[t.len() - 1] == 'z' {
        assert(t =~= p + w + seq!['h', 'z']);
    } else {
        assert(t =~= p + w);
    }
}

proof fn lemma_trim_end_removes_white(s: Seq<char>, i: int)
    requires
        trim_end(s).len() <= i < s.len(),
    ensures
        is_white(s[i]),
    decreases s.len(),
{
    if s.len() > 0 && is_white(s.last()) {
        if i < s.len() - 1 {
            lemma_trim_end_removes_white(s.drop_last(), i);
        }
    }
}

} // verus!
