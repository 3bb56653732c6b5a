//! Text handling on character sequences: white space, words, path segments,
//! trimming and splitting. Every function is stated over the `Seq<char>` view
//! of its argument.

use vstd::prelude::*;

verus! {

/// Whether `c` is one of the code points that Unicode gives the property
/// `White_Space`.
pub open spec fn whitespace(c: char) -> bool {
    let n = c as u32;
    ||| 0x09 <= n <= 0x0D
    ||| n == 0x20
    ||| n == 0x85
    ||| n == 0xA0
    ||| n == 0x1680
    ||| 0x2000 <= n <= 0x200A
    ||| n == 0x2028
    ||| n == 0x2029
    ||| n == 0x202F
    ||| n == 0x205F
    ||| n == 0x3000
}

/// The least index from `i` on at which `s` holds no white space; the length
/// of `s` where only white space follows.
pub open spec fn skip_whitespace(s: Seq<char>, i: int) -> int
    decreases s.len() - i,
{
    if 0 <= i < s.len() && whitespace(s[i]) {
        skip_whitespace(s, i + 1)
    } else {
        i
    }
}

/// The least index from `i` on at which `s` holds white space; the length of
/// `s` where none follows.
pub open spec fn skip_word(s: Seq<char>, i: int) -> int
    decreases s.len() - i,
{
    if 0 <= i < s.len() && !whitespace(s[i]) {
        skip_word(s, i + 1)
    } else {
        i
    }
}

/// The first maximal run of characters of `s` that are not white space, if
/// `s` holds any such character.
pub open spec fn first_word_of(s: Seq<char>) -> Option<Seq<char>> {
    let from = skip_whitespace(s, 0);
    if from < s.len() {
        Some(s.subrange(from, skip_word(s, from)))
    } else {
        None
    }
}

/// Where the run of characters other than `sep` that ends before `end`
/// begins: just behind the last `sep` before `end`, or 0.
pub open spec fn segment_start(s: Seq<char>, sep: char, end: int) -> int
    decreases end,
{
    if 0 < end <= s.len() && s[end - 1] != sep {
        segment_start(s, sep, end - 1)
    } else {
        end
    }
}

/// What follows the last `sep` in `s`; all of `s` where it holds no `sep`.
pub open spec fn last_segment_of(s: Seq<char>, sep: char) -> Seq<char> {
    s.subrange(segment_start(s, sep, s.len() as int), s.len() as int)
}

/// The index behind the last character of `s` before `end` that is not
/// white space, and not less than `from`.
pub open spec fn trim_end(s: Seq<char>, from: int, end: int) -> int
    decreases end,
{
    if 0 <= from < end <= s.len() && whitespace(s[end - 1]) {
        trim_end(s, from, end - 1)
    } else {
        end
    }
}

/// `s` without the white space at its two ends.
pub open spec fn trimmed(s: Seq<char>) -> Seq<char> {
    let from = skip_whitespace(s, 0);
    s.subrange(from, trim_end(s, from, s.len() as int))
}

/// The pieces between the occurrences of `sep` in `s` from `start` on, where
/// the characters from `start` up to `i` hold no `sep`.
pub open spec fn fields_from(s: Seq<char>, sep: char, start: int, i: int) -> Seq<Seq<char>>
    decreases s.len() - i,
{
    if 0 <= start <= i < s.len() {
        if s[i] == sep {
            seq![s.subrange(start, i)] + fields_from(s, sep, i + 1, i + 1)
        } else {
            fields_from(s, sep, start, i + 1)
        }
    } else {
        seq![s.subrange(start, s.len() as int)]
    }
}

/// The pieces into which the occurrences of `sep` cut `s`: one more than
/// there are occurrences, empty pieces included.
pub open spec fn fields(s: Seq<char>, sep: char) -> Seq<Seq<char>> {
    fields_from(s, sep, 0, 0)
}

/// The pieces put together again, with `sep` between each two.
pub open spec fn joined(pieces: Seq<Seq<char>>, sep: char) -> Seq<char>
    decreases pieces.len(),
{
    if pieces.len() == 0 {
        Seq::empty()
    } else if pieces.len() == 1 {
        pieces[0]
    } else {
        pieces[0] + seq![sep] + joined(pieces.skip(1), sep)
    }
}

/// What a text that may be absent holds.
pub open spec fn text_view(text: Option<String>) -> Option<Seq<char>> {
    match text {
        Some(t) => Some(t@),
        None => None,
    }
}

/// The text that `str::to_lowercase` returns for the text `s`.
pub uninterp spec fn lowercase(s: Seq<char>) -> Seq<char>;

/// `skip_whitespace` stays within `s`, and passes white space only.
pub proof fn lemma_skip_whitespace(s: Seq<char>, i: int)
    requires
        0 <= i <= s.len(),
    ensures
        i <= skip_whitespace(s, i) <= s.len(),
        forall|j: int| i <= j < skip_whitespace(s, i) ==> whitespace(s[j]),
        skip_whitespace(s, i) < s.len() ==> !whitespace(s[skip_whitespace(s, i)]),
    decreases s.len() - i,
{
    if i < s.len() && whitespace(s[i]) {
        lemma_skip_whitespace(s, i + 1);
    }
}

/// `skip_word` stays within `s`, and passes no white space.
pub proof fn lemma_skip_word(s: Seq<char>, i: int)
    requires
        0 <= i <= s.len(),
    ensures
        i <= skip_word(s, i) <= s.len(),
        forall|j: int| i <= j < skip_word(s, i) ==> !whitespace(s[j]),
        skip_word(s, i) < s.len() ==> whitespace(s[skip_word(s, i)]),
    decreases s.len() - i,
{
    if i < s.len() && !whitespace(s[i]) {
        lemma_skip_word(s, i + 1);
    }
}

/// A first word is not empty and holds no white space.
pub proof fn lemma_first_word(s: Seq<char>)
    ensures
        first_word_of(s) matches Some(w) ==> w.len() > 0 && forall|j: int|
            0 <= j < w.len() ==> !whitespace(#[trigger] w[j]),
        first_word_of(s) is None <==> forall|j: int|
            0 <= j < s.len() ==> whitespace(#[trigger] s[j]),
{
    lemma_skip_whitespace(s, 0);
    let from = skip_whitespace(s, 0);
    if from < s.len() {
        lemma_skip_word(s, from);
    }
}

/// The first word is the one run of characters that are not white space
/// which only white space precedes and which white space or the end of the
/// text follows.
pub proof fn lemma_first_word_is(s: Seq<char>, from: int, to: int)
    requires
        0 <= from < to <= s.len(),
        forall|j: int| 0 <= j < from ==> whitespace(s[j]),
        forall|j: int| from <= j < to ==> !whitespace(s[j]),
        to < s.len() ==> whitespace(s[to]),
    ensures
        first_word_of(s) == Some(s.subrange(from, to)),
{
    lemma_skip_whitespace(s, 0);
    lemma_skip_word(s, from);
}

/// A last segment holds no separator, and a separator stands before it
/// unless it is all of `s`.
pub proof fn lemma_segment_start(s: Seq<char>, sep: char, end: int)
    requires
        0 <= end <= s.len(),
    ensures
        0 <= segment_start(s, sep, end) <= end,
        forall|j: int| segment_start(s, sep, end) <= j < end ==> s[j] != sep,
        segment_start(s, sep, end) > 0 ==> s[segment_start(s, sep, end) - 1] == sep,
    decreases end,
{
    if 0 < end && s[end - 1] != sep {
        lemma_segment_start(s, sep, end - 1);
    }
}

/// The last segment is the one end of the text that holds no separator and
/// that is all of the text or stands behind a separator.
pub proof fn lemma_last_segment_is(s: Seq<char>, sep: char, from: int)
    requires
        0 <= from <= s.len(),
        forall|j: int| from <= j < s.len() ==> s[j] != sep,
        from > 0 ==> s[from - 1] == sep,
    ensures
        last_segment_of(s, sep) == s.subrange(from, s.len() as int),
{
    lemma_segment_start(s, sep, s.len() as int);
}

/// `trim_end` stays between `from` and `end`, and passes white space only.
pub proof fn lemma_trim_end(s: Seq<char>, from: int, end: int)
    requires
        0 <= from <= end <= s.len(),
    ensures
        from <= trim_end(s, from, end) <= end,
        forall|j: int| trim_end(s, from, end) <= j < end ==> whitespace(s[j]),
        trim_end(s, from, end) > from ==> !whitespace(s[trim_end(s, from, end) - 1]),
    decreases end,
{
    if from < end && whitespace(s[end - 1]) {
        lemma_trim_end(s, from, end - 1);
    }
}

/// A trimmed text neither begins nor ends with white space.
pub proof fn lemma_trimmed(s: Seq<char>)
    ensures
        trimmed(s).len() > 0 ==> !whitespace(trimmed(s).first()) && !whitespace(
            trimmed(s).last(),
        ),
        trimmed(s).len() == 0 <==> forall|j: int|
            0 <= j < s.len() ==> whitespace(#[trigger] s[j]),
{
    lemma_skip_whitespace(s, 0);
    lemma_trim_end(s, skip_whitespace(s, 0), s.len() as int);
}

/// The trimmed text is the one part of the text that neither begins nor
/// ends with white space and has white space only before and behind it.
pub proof fn lemma_trimmed_is(s: Seq<char>, from: int, to: int)
    requires
        0 <= from <= to <= s.len(),
        forall|j: int| 0 <= j < from ==> whitespace(s[j]),
        forall|j: int| to <= j < s.len() ==> whitespace(s[j]),
        from < to ==> !whitespace(s[from]) && !whitespace(s[to - 1]),
    ensures
        trimmed(s) == s.subrange(from, to),
{
    lemma_skip_whitespace(s, 0);
    lemma_trim_end(s, skip_whitespace(s, 0), s.len() as int);
}

/// Cutting a text gives at least one piece.
pub proof fn lemma_fields_nonempty(s: Seq<char>, sep: char, start: int, i: int)
    ensures
        fields_from(s, sep, start, i).len() >= 1,
    decreases s.len() - i,
{
    if 0 <= start <= i < s.len() {
        if s[i] == sep {
            lemma_fields_nonempty(s, sep, i + 1, i + 1);
        } else {
            lemma_fields_nonempty(s, sep, start, i + 1);
        }
    }
}

/// The pieces from `start` on hold no separator, and put together again
/// they are the text from `start` on.
pub proof fn lemma_fields_from(s: Seq<char>, sep: char, start: int, i: int)
    requires
        0 <= start <= i <= s.len(),
        forall|j: int| start <= j < i ==> s[j] != sep,
    ensures
        joined(fields_from(s, sep, start, i), sep) == s.subrange(start, s.len() as int),
        forall|k: int, j: int|
            0 <= k < fields_from(s, sep, start, i).len() && 0 <= j < fields_from(
                s,
                sep,
                start,
                i,
            )[k].len() ==> #[trigger] fields_from(s, sep, start, i)[k][j] != sep,
    decreases s.len() - i,
{
    let pieces = fields_from(s, sep, start, i);
    if i < s.len() {
        if s[i] == sep {
            let rest = fields_from(s, sep, i + 1, i + 1);
            lemma_fields_from(s, sep, i + 1, i + 1);
            lemma_fields_nonempty(s, sep, i + 1, i + 1);
            assert(pieces.skip(1) =~= rest);
        } else {
            lemma_fields_from(s, sep, start, i + 1);
        }
    }
}

/// Cutting a text at a separator gives pieces without that separator, and
/// joining them with it gives the text back.
pub proof fn lemma_fields_join(s: Seq<char>, sep: char)
    ensures
        joined(fields(s, sep), sep) == s,
        forall|k: int, j: int|
            0 <= k < fields(s, sep).len() && 0 <= j < fields(s, sep)[k].len() ==> #[trigger] fields(
                s,
                sep,
            )[k][j] != sep,
{
    lemma_fields_from(s, sep, 0, 0);
}

/// Whether `c` is white space.
pub fn is_whitespace(c: char) -> (r: bool)
    ensures
        r == whitespace(c),
{
    let n: u32 = c as u32;
    (0x09 <= n && n <= 0x0D) || n == 0x20 || n == 0x85 || n == 0xA0 || n == 0x1680 || (0x2000 <= n
        && n <= 0x200A) || n == 0x2028 || n == 0x2029 || n == 0x202F || n == 0x205F || n == 0x3000
}

/// The characters of a text, one element for each `char`.
pub fn chars_of(s: &str) -> (v: Vec<char>)
    ensures
        v@ == s@,
{
    let mut v: Vec<char> = Vec::new();
    for c in it: s.chars()
        invariant
            v@ == it.seq().take(it.index()),
            it.seq() == s@,
    {
        v.push(c);
    }
    v
}

/// Whether two texts hold the same characters.
pub fn str_equal(a: &str, b: &str) -> (r: bool)
    ensures
        r == (a@ == b@),
{
    let x = chars_of(a);
    let y = chars_of(b);
    if x.len() != y.len() {
        return false;
    }
    let mut i: usize = 0;
    while i < x.len()
        invariant
            x@ == a@,
            y@ == b@,
            x.len() == y.len(),
            i <= x.len(),
            forall|j: int| 0 <= j < i ==> x@[j] == y@[j],
        decreases x.len() - i,
    {
        if x[i] != y[i] {
            return false;
        }
        i += 1;
    }
    assert(x@ =~= y@);
    true
}

/// The first word of `s`: its first run of characters that are not white
/// space. `None` where `s` is empty or all white space.
pub fn first_word(s: &str) -> (r: Option<&str>)
    ensures
        match r {
            Some(w) => first_word_of(s@) == Some(w@),
            None => first_word_of(s@) is None,
        },
{
    let v = chars_of(s);
    let n: usize = v.len();
    let mut from: usize = 0;
    while from < n && is_whitespace(v[from])
        invariant
            n == v.len(),
            from <= n,
            skip_whitespace(v@, 0) == skip_whitespace(v@, from as int),
        decreases n - from,
    {
        from += 1;
    }
    if from == n {
        return None;
    }
    let mut to: usize = from;
    while to < n && !is_whitespace(v[to])
        invariant
            n == v.len(),
            from <= to <= n,
            skip_word(v@, from as int) == skip_word(v@, to as int),
        decreases n - to,
    {
        to += 1;
    }
    Some(s.substring_char(from, to))
}

/// What follows the last `sep` in `s`; all of `s` where it holds no `sep`.
pub fn last_segment(s: &str, sep: char) -> (r: &str)
    ensures
        r@ == last_segment_of(s@, sep),
{
    let v = chars_of(s);
    let n: usize = v.len();
    let mut from: usize = n;
    while from > 0 && v[from - 1] != sep
        invariant
            n == v.len(),
            from <= n,
            segment_start(v@, sep, n as int) == segment_start(v@, sep, from as int),
        decreases from,
    {
        from -= 1;
    }
    s.substring_char(from, n)
}

/// `s` without the white space at its two ends.
pub fn trim(s: &str) -> (r: &str)
    ensures
        r@ == trimmed(s@),
{
    let v = chars_of(s);
    let n: usize = v.len();
    let mut from: usize = 0;
    while from < n && is_whitespace(v[from])
        invariant
            n == v.len(),
            from <= n,
            skip_whitespace(v@, 0) == skip_whitespace(v@, from as int),
        decreases n - from,
    {
        from += 1;
    }
    let mut to: usize = n;
    while from < to && is_whitespace(v[to - 1])
        invariant
            n == v.len(),
            from <= to <= n,
            trim_end(v@, from as int, n as int) == trim_end(v@, from as int, to as int),
        decreases to,
    {
        to -= 1;
    }
    s.substring_char(from, to)
}

/// The pieces into which the occurrences of `sep` cut `s`, in order.
pub fn split<'a>(s: &'a str, sep: char) -> (r: Vec<&'a str>)
    ensures
        r@.len() == fields(s@, sep).len(),
        forall|k: int| 0 <= k < r@.len() ==> (#[trigger] r@[k])@ == fields(s@, sep)[k],
{
    let v = chars_of(s);
    let n: usize = v.len();
    let mut r: Vec<&'a str> = Vec::new();
    let mut start: usize = 0;
    let mut i: usize = 0;
    while i < n
        invariant
            n == v.len(),
            v@ == s@,
            start <= i <= n,
            fields(s@, sep) =~= Seq::new(r@.len(), |k: int| r@[k]@) + fields_from(
                s@,
                sep,
                start as int,
                i as int,
            ),
        decreases n - i,
    {
        if v[i] == sep {
            r.push(s.substring_char(start, i));
            start = i + 1;
        }
        i += 1;
    }
    r.push(s.substring_char(start, n));
    r
}

/// Calls `str::to_lowercase`, which gives the lower-case form of `s` as
/// Unicode defines it. The contract is taken on trust: it gives the result
/// its name, `lowercase`, and claims nothing else of it.
#[verifier::external_body]
pub(crate) fn to_lowercase(s: &str) -> (r: String)
    ensures
        r@ == lowercase(s@),
{
    s.to_lowercase()
}

} // verus!
