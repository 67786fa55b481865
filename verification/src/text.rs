//! Text as sequences of characters: searching, splitting and trimming,
//! with the few functions of std that nothing here could state in full.

use vstd::prelude::*;

verus! {

/// Whether `c` has the Unicode property White_Space.
pub uninterp spec fn white_space(c: char) -> bool;

/// `char::is_whitespace` of std: whether the character has the Unicode
/// property White_Space. The answer depends on the character alone.
#[verifier::external_body]
pub(crate) fn is_whitespace(c: char) -> (blank: bool)
    ensures
        blank == white_space(c),
{
    c.is_whitespace()
}

/// `String::push` of std: the character is added at the end of the text.
#[verifier::external_body]
pub(crate) fn push_char(text: &mut String, c: char)
    ensures
        final(text)@ == old(text)@.push(c),
{
    text.push(c)
}

/// Index of the first `c` in `s`, or `s.len()` where there is none.
pub open spec fn first_index_of(s: Seq<char>, c: char) -> int
    decreases s.len(),
{
    if s.len() == 0 {
        0
    } else if s[0] == c {
        0
    } else {
        1 + first_index_of(s.drop_first(), c)
    }
}

/// The texts of a list of strings.
pub open spec fn texts(list: Seq<String>) -> Seq<Seq<char>> {
    list.map_values(|s: String| s@)
}

/// Index of the last `c` in `s`, or -1 where there is none.
pub open spec fn last_index_of(s: Seq<char>, c: char) -> int
    decreases s.len(),
{
    if s.len() == 0 {
        -1
    } else if s.last() == c {
        s.len() - 1
    } else {
        last_index_of(s.drop_last(), c)
    }
}

/// Whether `s` begins with `prefix`.
pub open spec fn starts_with(s: Seq<char>, prefix: Seq<char>) -> bool {
    prefix.len() <= s.len() && s.subrange(0, prefix.len() as int) == prefix
}

/// Whether `s` ends with `suffix`.
pub open spec fn ends_with(s: Seq<char>, suffix: Seq<char>) -> bool {
    suffix.len() <= s.len() && s.subrange(s.len() - suffix.len(), s.len() as int) == suffix
}

/// Index at which `pattern` first occurs in `s`, searched from `from` on,
/// or `s.len()` where it does not occur.
pub open spec fn first_match_from(s: Seq<char>, pattern: Seq<char>, from: int) -> int
    decreases s.len() - from,
{
    if from < 0 || from >= s.len() {
        s.len() as int
    } else if starts_with(s.subrange(from, s.len() as int), pattern) {
        from
    } else {
        first_match_from(s, pattern, from + 1)
    }
}

/// The fields of `s` between the separators `sep`: one more than there are
/// separators.
pub open spec fn split_fields(s: Seq<char>, sep: char) -> Seq<Seq<char>>
    decreases s.len(),
{
    let cut = first_index_of(s, sep);
    if 0 <= cut < s.len() {
        seq![s.subrange(0, cut)] + split_fields(s.subrange(cut + 1, s.len() as int), sep)
    } else {
        seq![s]
    }
}

/// Number of white-space characters at the start of `s`.
pub open spec fn leading_blanks(s: Seq<char>) -> int
    decreases s.len(),
{
    if s.len() > 0 && white_space(s[0]) {
        1 + leading_blanks(s.drop_first())
    } else {
        0
    }
}

/// Number of white-space characters at the end of `s`.
pub open spec fn trailing_blanks(s: Seq<char>) -> int
    decreases s.len(),
{
    if s.len() > 0 && white_space(s.last()) {
        1 + trailing_blanks(s.drop_last())
    } else {
        0
    }
}

/// Number of characters at the start of `s` that are no white space.
pub open spec fn leading_solid(s: Seq<char>) -> int
    decreases s.len(),
{
    if s.len() > 0 && !white_space(s[0]) {
        1 + leading_solid(s.drop_first())
    } else {
        0
    }
}

/// `s` without the white space at its start and at its end.
pub open spec fn trim_of(s: Seq<char>) -> Seq<char> {
    if leading_blanks(s) >= s.len() {
        Seq::empty()
    } else {
        s.subrange(leading_blanks(s), s.len() - trailing_blanks(s))
    }
}

/// `s` without any `suffix` at its end, however often it is repeated there.
pub open spec fn without_suffixes(s: Seq<char>, suffix: Seq<char>) -> Seq<char>
    decreases s.len(),
{
    if suffix.len() > 0 && ends_with(s, suffix) {
        without_suffixes(s.subrange(0, s.len() - suffix.len()), suffix)
    } else {
        s
    }
}

/// `s` without any `prefix` at its start, however often it is repeated
/// there.
pub open spec fn without_prefixes(s: Seq<char>, prefix: Seq<char>) -> Seq<char>
    decreases s.len(),
{
    if prefix.len() > 0 && starts_with(s, prefix) {
        without_prefixes(s.subrange(prefix.len() as int, s.len() as int), prefix)
    } else {
        s
    }
}

/// The first word of `s`: what stands between the white space at its start
/// and the next white space. A text of white space alone is its own first
/// word.
pub open spec fn first_word(s: Seq<char>) -> Seq<char> {
    let from = leading_blanks(s);
    if from >= s.len() {
        s
    } else {
        s.subrange(from, from + leading_solid(s.subrange(from, s.len() as int)))
    }
}

/// `s` with every `from` replaced by `to`.
pub open spec fn replaced(s: Seq<char>, from: char, to: char) -> Seq<char> {
    s.map_values(
        |c: char|
            if c == from {
                to
            } else {
                c
            },
    )
}

/// The decimal digits of `n`, without leading zeros.
pub open spec fn decimal_digits(n: nat) -> Seq<char>
    decreases n,
{
    if n < 10 {
        seq![(n + 48) as char]
    } else {
        decimal_digits(n / 10).push((n % 10 + 48) as char)
    }
}

/// `first_index_of` is the one index before which no `c` stands and at
/// which `c` stands, or the length where `c` does not occur.
pub proof fn lemma_first_index_of(s: Seq<char>, c: char, i: int)
    requires
        0 <= i <= s.len(),
        forall|j: int| 0 <= j < i ==> s[j] != c,
        i < s.len() ==> s[i] == c,
    ensures
        first_index_of(s, c) == i,
    decreases s.len(),
{
    if s.len() > 0 && s[0] != c {
        let rest = s.drop_first();
        lemma_first_index_of(rest, c, i - 1);
    }
}

/// `last_index_of` is the one index after which no `c` stands and at
/// which `c` stands, or -1 where `c` does not occur.
pub proof fn lemma_last_index_of(s: Seq<char>, c: char, i: int)
    requires
        -1 <= i < s.len(),
        forall|j: int| i < j < s.len() ==> s[j] != c,
        0 <= i ==> s[i] == c,
    ensures
        last_index_of(s, c) == i,
    decreases s.len(),
{
    if s.len() > 0 && s.last() != c {
        lemma_last_index_of(s.drop_last(), c, i);
    }
}

/// `leading_blanks` counts exactly the white space before the first other
/// character.
pub proof fn lemma_leading_blanks(s: Seq<char>, n: int)
    requires
        0 <= n <= s.len(),
        forall|j: int| 0 <= j < n ==> white_space(#[trigger] s[j]),
        n < s.len() ==> !white_space(s[n]),
    ensures
        leading_blanks(s) == n,
    decreases s.len(),
{
    if n > 0 {
        let rest = s.drop_first();
        lemma_leading_blanks(rest, n - 1);
    }
}

/// `leading_solid` counts exactly the characters before the first white
/// space.
pub proof fn lemma_leading_solid(s: Seq<char>, n: int)
    requires
        0 <= n <= s.len(),
        forall|j: int| 0 <= j < n ==> !white_space(#[trigger] s[j]),
        n < s.len() ==> white_space(s[n]),
    ensures
        leading_solid(s) == n,
    decreases s.len(),
{
    if n > 0 {
        let rest = s.drop_first();
        lemma_leading_solid(rest, n - 1);
    }
}

/// `trailing_blanks` counts exactly the white space after the last other
/// character.
pub proof fn lemma_trailing_blanks(s: Seq<char>, n: int)
    requires
        0 <= n <= s.len(),
        forall|j: int| s.len() - n <= j < s.len() ==> white_space(#[trigger] s[j]),
        n < s.len() ==> !white_space(s[s.len() - n - 1]),
    ensures
        trailing_blanks(s) == n,
    decreases s.len(),
{
    if n > 0 {
        let rest = s.drop_last();
        lemma_trailing_blanks(rest, n - 1);
    }
}

/// The characters of a string, in order.
pub fn to_chars(text: &str) -> (chars: Vec<char>)
    ensures
        chars@ == text@,
{
    let mut chars: Vec<char> = Vec::new();
    for c in it: text.chars()
        invariant
            chars@ == it.seq().take(it.index() as int),
    {
        chars.push(c);
    }
    chars
}

/// Index of the first `c` in `chars[from..to]`, counted from the start of
/// `chars`, or `to` where there is none.
pub fn find_char(chars: &Vec<char>, c: char, from: usize, to: usize) -> (at: usize)
    requires
        from <= to <= chars.len(),
    ensures
        from <= at <= to,
        at - from == first_index_of(chars@.subrange(from as int, to as int), c),
{
    let mut at: usize = from;
    while at < to && chars[at] != c
        invariant
            from <= at <= to <= chars.len(),
            forall|j: int| from <= j < at ==> chars[j] != c,
        decreases to - at,
    {
        at += 1;
    }
    proof {
        lemma_first_index_of(chars@.subrange(from as int, to as int), c, at - from);
    }
    at
}

/// Index of the last `c` in `chars`, if there is one.
pub fn find_last_char(chars: &Vec<char>, c: char) -> (at: Option<usize>)
    ensures
        match at {
            Some(i) => i == last_index_of(chars@, c) && i < chars.len(),
            None => last_index_of(chars@, c) == -1,
        },
{
    let mut end: usize = chars.len();
    while end > 0 && chars[end - 1] != c
        invariant
            end <= chars.len(),
            forall|j: int| end <= j < chars.len() ==> chars[j] != c,
        decreases end,
    {
        end -= 1;
    }
    proof {
        lemma_last_index_of(chars@, c, end - 1);
    }
    if end > 0 {
        Some(end - 1)
    } else {
        None
    }
}

/// Whether `pattern` stands in `chars` at `at`.
fn matches_at(chars: &Vec<char>, pattern: &Vec<char>, at: usize) -> (yes: bool)
    requires
        at <= chars.len(),
    ensures
        yes == starts_with(chars@.subrange(at as int, chars.len() as int), pattern@),
{
    let ghost tail = chars@.subrange(at as int, chars.len() as int);
    if pattern.len() > chars.len() - at {
        return false;
    }
    let mut i: usize = 0;
    while i < pattern.len()
        invariant
            i <= pattern.len() <= chars.len() - at,
            tail == chars@.subrange(at as int, chars.len() as int),
            forall|j: int| 0 <= j < i ==> tail[j] == pattern[j],
        decreases pattern.len() - i,
    {
        if chars[at + i] != pattern[i] {
            return false;
        }
        i += 1;
    }
    assert(tail.subrange(0, pattern.len() as int) =~= pattern@);
    true
}

/// Whether `chars` begins with `prefix`.
pub fn has_prefix(chars: &Vec<char>, prefix: &str) -> (yes: bool)
    ensures
        yes == starts_with(chars@, prefix@),
{
    let wanted = to_chars(prefix);
    assert(chars@.subrange(0, chars.len() as int) =~= chars@);
    matches_at(chars, &wanted, 0)
}

/// Index at which `pattern` first occurs in `chars`, or `chars.len()`
/// where it does not occur.
pub fn find_text(chars: &Vec<char>, pattern: &str) -> (at: usize)
    ensures
        at == first_match_from(chars@, pattern@, 0),
        at <= chars.len(),
{
    let wanted = to_chars(pattern);
    let mut at: usize = 0;
    while at < chars.len()
        invariant
            at <= chars.len(),
            wanted@ == pattern@,
            first_match_from(chars@, pattern@, 0) == first_match_from(chars@, pattern@, at as int),
        decreases chars.len() - at,
    {
        if matches_at(chars, &wanted, at) {
            return at;
        }
        at += 1;
    }
    at
}

/// Splits `chars[from..to]` at every `sep`: the bounds of each field,
/// counted from the start of `chars`.
pub fn split_ranges(chars: &Vec<char>, sep: char, from: usize, to: usize) -> (fields: Vec<
    (usize, usize),
>)
    requires
        from <= to <= chars.len(),
    ensures
        fields.len() == split_fields(chars@.subrange(from as int, to as int), sep).len(),
        fields.len() >= 1,
        forall|k: int|
            0 <= k < fields.len() ==> {
                let (a, b) = #[trigger] fields[k];
                &&& from <= a <= b <= to
                &&& chars@.subrange(a as int, b as int) == split_fields(
                    chars@.subrange(from as int, to as int),
                    sep,
                )[k]
            },
{
    let ghost whole = split_fields(chars@.subrange(from as int, to as int), sep);
    let mut fields: Vec<(usize, usize)> = Vec::new();
    let mut start: usize = from;
    loop
        invariant_except_break
            whole.len() == fields.len() + split_fields(
                chars@.subrange(start as int, to as int),
                sep,
            ).len(),
            forall|k: int|
                0 <= k < split_fields(chars@.subrange(start as int, to as int), sep).len()
                    ==> whole[fields.len() + k] == #[trigger] split_fields(
                    chars@.subrange(start as int, to as int),
                    sep,
                )[k],
        invariant
            from <= start <= to <= chars.len(),
            whole == split_fields(chars@.subrange(from as int, to as int), sep),
            forall|k: int|
                0 <= k < fields.len() ==> {
                    let (a, b) = #[trigger] fields[k];
                    &&& from <= a <= b <= to
                    &&& chars@.subrange(a as int, b as int) == whole[k]
                },
        ensures
            fields.len() == whole.len(),
            fields.len() >= 1,
        decreases to - start,
    {
        let ghost tail = chars@.subrange(start as int, to as int);
        let ghost rest = split_fields(tail, sep);
        let cut: usize = find_char(chars, sep, start, to);
        if cut < to {
            proof {
                assert(tail.subrange(cut - start + 1, tail.len() as int) =~= chars@.subrange(
                    cut + 1,
                    to as int,
                ));
                let after = split_fields(chars@.subrange(cut + 1, to as int), sep);
                assert(rest[0] == tail.subrange(0, cut - start));
                assert forall|k: int| 0 <= k < after.len() implies whole[fields.len() + 1 + k]
                    == #[trigger] after[k] by {
                    assert(rest[k + 1] == after[k]);
                }
            }
            fields.push((start, cut));
            start = cut + 1;
        } else {
            proof {
                assert(rest[0] == tail);
            }
            fields.push((start, to));
            break ;
        }
    }
    fields
}

/// Splits `text` at every `sep`.
pub fn split(text: &str, sep: char) -> (fields: Vec<String>)
    ensures
        texts(fields@) == split_fields(text@, sep),
{
    let chars = to_chars(text);
    let ranges = split_ranges(&chars, sep, 0, chars.len());
    assert(chars@.subrange(0, chars.len() as int) =~= text@);
    let mut fields: Vec<String> = Vec::new();
    let mut k: usize = 0;
    while k < ranges.len()
        invariant
            k <= ranges.len(),
            chars@ == text@,
            ranges.len() == split_fields(text@, sep).len(),
            forall|j: int|
                0 <= j < ranges.len() ==> {
                    let (a, b) = #[trigger] ranges[j];
                    &&& 0 <= a <= b <= chars.len()
                    &&& chars@.subrange(a as int, b as int) == split_fields(text@, sep)[j]
                },
            fields.len() == k,
            forall|j: int| 0 <= j < k ==> (#[trigger] fields[j])@ == split_fields(text@, sep)[j],
        decreases ranges.len() - k,
    {
        let (a, b) = ranges[k];
        fields.push(String::from_str(text.substring_char(a, b)));
        k += 1;
    }
    fields
}

/// Removes the white space at both ends of `text`.
pub fn trim(text: &str) -> (trimmed: String)
    ensures
        trimmed@ == trim_of(text@),
{
    let chars = to_chars(text);
    let n: usize = chars.len();
    let mut from: usize = 0;
    while from < n && is_whitespace(chars[from])
        invariant
            from <= n == chars.len(),
            forall|j: int| 0 <= j < from ==> white_space(#[trigger] chars[j]),
        decreases n - from,
    {
        from += 1;
    }
    proof {
        lemma_leading_blanks(chars@, from as int);
    }
    if from == n {
        return String::new();
    }
    let mut to: usize = n;
    while to > from && is_whitespace(chars[to - 1])
        invariant
            from <= to <= n == chars.len(),
            from < n,
            !white_space(chars[from as int]),
            forall|j: int| to <= j < n ==> white_space(#[trigger] chars[j]),
        decreases to,
    {
        to -= 1;
    }
    proof {
        lemma_trailing_blanks(chars@, n - to);
    }
    String::from_str(text.substring_char(from, to))
}

/// Removes every `suffix` from the end of `text`.
pub fn strip_suffixes(text: &str, suffix: &str) -> (stripped: String)
    ensures
        stripped@ == without_suffixes(text@, suffix@),
{
    let chars = to_chars(text);
    let wanted = to_chars(suffix);
    let mut end: usize = chars.len();
    if wanted.len() == 0 {
        return String::from_str(text);
    }
    assert(chars@.take(end as int) =~= chars@);
    loop
        invariant
            end <= chars.len(),
            wanted.len() > 0,
            wanted@ == suffix@,
            chars@ == text@,
            without_suffixes(text@, suffix@) == without_suffixes(chars@.take(end as int), suffix@),
        ensures
            end <= chars.len(),
            without_suffixes(text@, suffix@) == chars@.take(end as int),
        decreases end,
    {
        let ghost head = chars@.take(end as int);
        if end < wanted.len() {
            break ;
        }
        let at: usize = end - wanted.len();
        let mut same: bool = true;
        let mut i: usize = 0;
        while i < wanted.len()
            invariant
                i <= wanted.len(),
                at + wanted.len() == end <= chars.len(),
                same == (forall|j: int| 0 <= j < i ==> chars[at + j] == wanted[j]),
            decreases wanted.len() - i,
        {
            if chars[at + i] != wanted[i] {
                same = false;
            }
            i += 1;
        }
        proof {
            let tail = head.subrange(head.len() - wanted.len(), head.len() as int);
            if same {
                assert(tail =~= wanted@);
                assert(head.subrange(0, head.len() - wanted.len()) =~= chars@.take(at as int));
            } else {
                let j = choose|j: int| 0 <= j < wanted.len() && chars[at + j] != wanted[j];
            }
        }
        if !same {
            break ;
        }
        end = at;
    }
    String::from_str(text.substring_char(0, end))
}

/// Removes every `prefix` from the start of `text`.
pub fn strip_prefixes(text: &str, prefix: &str) -> (stripped: String)
    ensures
        stripped@ == without_prefixes(text@, prefix@),
{
    let chars = to_chars(text);
    let wanted = to_chars(prefix);
    let n: usize = chars.len();
    let mut start: usize = 0;
    if wanted.len() == 0 {
        return String::from_str(text);
    }
    assert(chars@.subrange(0, n as int) =~= chars@);
    while matches_at(&chars, &wanted, start)
        invariant
            start <= n == chars.len(),
            wanted.len() > 0,
            wanted@ == prefix@,
            chars@ == text@,
            without_prefixes(text@, prefix@) == without_prefixes(
                chars@.subrange(start as int, n as int),
                prefix@,
            ),
        decreases n - start,
    {
        let ghost tail = chars@.subrange(start as int, n as int);
        assert(tail.subrange(wanted.len() as int, tail.len() as int) =~= chars@.subrange(
            start + wanted.len(),
            n as int,
        ));
        start = start + wanted.len();
    }
    String::from_str(text.substring_char(start, n))
}

/// The first word of `text`.
pub fn leading_word(text: &str) -> (word: String)
    ensures
        word@ == first_word(text@),
{
    let chars = to_chars(text);
    let n: usize = chars.len();
    let mut from: usize = 0;
    while from < n && is_whitespace(chars[from])
        invariant
            from <= n == chars.len(),
            forall|j: int| 0 <= j < from ==> white_space(#[trigger] chars[j]),
        decreases n - from,
    {
        from += 1;
    }
    proof {
        lemma_leading_blanks(chars@, from as int);
    }
    if from == n {
        return String::from_str(text);
    }
    let ghost tail = chars@.subrange(from as int, n as int);
    let mut to: usize = from;
    while to < n && !is_whitespace(chars[to])
        invariant
            from <= to <= n == chars.len(),
            tail == chars@.subrange(from as int, n as int),
            forall|j: int| 0 <= j < to - from ==> !white_space(#[trigger] tail[j]),
        decreases n - to,
    {
        to += 1;
    }
    proof {
        lemma_leading_solid(tail, to - from);
    }
    String::from_str(text.substring_char(from, to))
}

/// Replaces every `from` in `text` by `to`.
pub fn replace_char(text: &str, from: char, to: char) -> (out: String)
    ensures
        out@ == replaced(text@, from, to),
{
    let chars = to_chars(text);
    let mut out = String::new();
    let mut i: usize = 0;
    while i < chars.len()
        invariant
            i <= chars.len(),
            chars@ == text@,
            out@ == replaced(text@.take(i as int), from, to),
        decreases chars.len() - i,
    {
        let c: char = if chars[i] == from {
            to
        } else {
            chars[i]
        };
        push_char(&mut out, c);
        i += 1;
    }
    out
}

/// Writes `n` in decimal digits.
pub fn decimal_text(n: u32) -> (out: String)
    ensures
        out@ == decimal_digits(n as nat),
{
    let mut lowest_first: Vec<char> = Vec::new();
    let mut rest: u32 = n;
    while rest >= 10
        invariant
            decimal_digits(n as nat) == decimal_digits(rest as nat) + lowest_first@.reverse(),
        decreases rest,
    {
        let digit: u8 = (rest % 10) as u8;
        lowest_first.push((digit + 48) as char);
        rest = rest / 10;
    }
    let mut out = String::new();
    push_char(&mut out, ((rest as u8) + 48) as char);
    let mut i: usize = lowest_first.len();
    while i > 0
        invariant
            i <= lowest_first.len(),
            out@ == decimal_digits(rest as nat) + lowest_first@.reverse().take(
                lowest_first.len() - i,
            ),
        decreases i,
    {
        i -= 1;
        push_char(&mut out, lowest_first[i]);
    }
    out
}

} // verus!
