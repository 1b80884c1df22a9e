//! Verified text primitives shared by the tool capabilities and the agent
//! loop: exact-match substring replacement (the heart of the file-edit
//! engine), substring-occurrence reasoning, whitespace trimming, and the
//! case-insensitive exit-keyword test.

use vstd::prelude::*;

verus! {

/// Leftmost, non-overlapping replacement of `o` by `n` in `c`.
///
/// An empty pattern matches at every position, including both ends, so the
/// replacement is interleaved between all characters of `c`.
pub open spec fn replace_seq(c: Seq<char>, o: Seq<char>, n: Seq<char>) -> Seq<char>
    decreases c.len(),
{
    if o.len() == 0 {
        if c.len() == 0 {
            n
        } else {
            n + seq![c[0]] + replace_seq(c.skip(1), o, n)
        }
    } else if c.len() < o.len() {
        c
    } else if c.subrange(0, o.len() as int) == o {
        n + replace_seq(c.skip(o.len() as int), o, n)
    } else {
        seq![c[0]] + replace_seq(c.skip(1), o, n)
    }
}

/// `o` occurs in `c` starting at position `i`.
pub open spec fn occurs_at(c: Seq<char>, o: Seq<char>, i: int) -> bool {
    0 <= i && i + o.len() <= c.len() && c.subrange(i, i + o.len() as int) == o
}

/// `o` occurs somewhere in `c`.
pub open spec fn occurs(c: Seq<char>, o: Seq<char>) -> bool {
    exists|i: int| occurs_at(c, o, i)
}

/// Occurrences in a suffix of `c` are occurrences in `c`, shifted.
proof fn lemma_occurs_shift(c: Seq<char>, o: Seq<char>, j: int, k: int)
    requires
        0 <= k <= c.len(),
    ensures
        occurs_at(c.skip(k), o, j) <==> (0 <= j && occurs_at(c, o, j + k)),
{
    if 0 <= j && j + o.len() <= c.len() - k {
        assert(c.skip(k).subrange(j, j + o.len() as int) =~= c.subrange(
            j + k,
            j + k + o.len() as int,
        ));
    }
}

/// Law: replacing a non-empty pattern that occurs nowhere in the text leaves
/// the text unchanged.
pub proof fn law_missing_pattern_keeps_text(c: Seq<char>, o: Seq<char>, n: Seq<char>)
    requires
        o.len() > 0,
        !occurs(c, o),
    ensures
        replace_seq(c, o, n) == c,
    decreases c.len(),
{
    if c.len() >= o.len() {
        assert(!occurs_at(c, o, 0));
        assert(c.subrange(0, o.len() as int) != o);
        assert forall|j: int| !occurs_at(c.skip(1), o, j) by {
            lemma_occurs_shift(c, o, j, 1);
        }
        law_missing_pattern_keeps_text(c.skip(1), o, n);
        assert(seq![c[0]] + c.skip(1) =~= c);
    }
}

/// A text splits around any occurrence of a pattern in it.
proof fn lemma_split_at_occurrence(c: Seq<char>, o: Seq<char>, i: int)
    requires
        occurs_at(c, o, i),
    ensures
        c == c.take(i) + o + c.skip(i + o.len() as int),
{
    assert(c =~= c.take(i) + c.subrange(i, i + o.len() as int) + c.skip(i + o.len() as int));
}

/// When the pattern occurs exactly once, the replacement is the text with
/// that one occurrence substituted.
proof fn lemma_unique_occurrence_replace(c: Seq<char>, o: Seq<char>, n: Seq<char>, i: int)
    requires
        o.len() > 0,
        occurs_at(c, o, i),
        forall|j: int| occurs_at(c, o, j) ==> j == i,
    ensures
        replace_seq(c, o, n) == c.take(i) + n + c.skip(i + o.len() as int),
    decreases c.len(),
{
    if i == 0 {
        assert(c.subrange(0, o.len() as int) == o);
        assert forall|j: int| !occurs_at(c.skip(o.len() as int), o, j) by {
            lemma_occurs_shift(c, o, j, o.len() as int);
        }
        law_missing_pattern_keeps_text(c.skip(o.len() as int), o, n);
        assert(c.take(0) + n + c.skip(o.len() as int) =~= n + c.skip(o.len() as int));
    } else {
        assert(!occurs_at(c, o, 0));
        assert(c.subrange(0, o.len() as int) != o);
        assert(occurs_at(c.skip(1), o, i - 1)) by {
            lemma_occurs_shift(c, o, i - 1, 1);
        }
        assert forall|j: int| occurs_at(c.skip(1), o, j) implies j == i - 1 by {
            lemma_occurs_shift(c, o, j, 1);
        }
        lemma_unique_occurrence_replace(c.skip(1), o, n, i - 1);
        assert(seq![c[0]] + (c.skip(1).take(i - 1) + n + c.skip(1).skip(i - 1 + o.len() as int))
            =~= c.take(i) + n + c.skip(i + o.len() as int));
    }
}

/// Law: if a non-empty pattern occurs exactly once in the text and the
/// replacement differs from the pattern, the result is the text with that
/// occurrence substituted, and it differs from the original text.
pub proof fn law_single_occurrence_replacement(c: Seq<char>, o: Seq<char>, n: Seq<char>, i: int)
    requires
        o.len() > 0,
        n != o,
        occurs_at(c, o, i),
        forall|j: int| occurs_at(c, o, j) ==> j == i,
    ensures
        replace_seq(c, o, n) == c.take(i) + n + c.skip(i + o.len() as int),
        replace_seq(c, o, n) != c,
{
    lemma_unique_occurrence_replace(c, o, n, i);
    lemma_split_at_occurrence(c, o, i);
    let r = c.take(i) + n + c.skip(i + o.len() as int);
    if n.len() == o.len() {
        assert(exists|j: int| 0 <= j < n.len() && n[j] != o[j]) by {
            if forall|j: int| 0 <= j < n.len() ==> n[j] == o[j] {
                assert(n =~= o);
            }
        }
        let j = choose|j: int| 0 <= j < n.len() && n[j] != o[j];
        assert(r[i + j] == n[j]);
        assert(c[i + j] == o[j]);
        assert(r != c);
    } else {
        assert(r.len() != c.len());
    }
}

/// Two string slices hold the same characters.
pub fn str_eq(a: &str, b: &str) -> (r: bool)
    ensures
        r == (a@ == b@),
{
    let a_len = a.unicode_len();
    let b_len = b.unicode_len();
    if a_len != b_len {
        return false;
    }
    let mut i: usize = 0;
    while i < a_len
        invariant
            0 <= i <= a_len,
            a_len == a@.len(),
            a@.len() == b@.len(),
            forall|k: int| 0 <= k < i ==> a@[k] == b@[k],
        decreases a_len - i,
    {
        if a.get_char(i) != b.get_char(i) {
            return false;
        }
        i = i + 1;
    }
    proof {
        assert(a@ =~= b@);
    }
    true
}

/// The pattern `o` matches `c` at character position `i`.
fn match_at(c: &str, o: &str, i: usize) -> (r: bool)
    requires
        c@.len() <= usize::MAX,
        i + o@.len() <= c@.len(),
    ensures
        r == (c@.subrange(i as int, i as int + o@.len() as int) == o@),
{
    let o_len = o.unicode_len();
    let mut j: usize = 0;
    while j < o_len
        invariant
            0 <= j <= o_len,
            o_len == o@.len(),
            c@.len() <= usize::MAX,
            i + o_len <= c@.len(),
            forall|k: int| 0 <= k < j ==> c@[i + k] == o@[k],
        decreases o_len - j,
    {
        if c.get_char(i + j) != o.get_char(j) {
            proof {
                assert(c@.subrange(i as int, i as int + o@.len() as int)[j as int] == c@[i + j]);
            }
            return false;
        }
        j = j + 1;
    }
    proof {
        assert(c@.subrange(i as int, i as int + o@.len() as int) =~= o@);
    }
    true
}

/// Leftmost, non-overlapping replacement of `o` by `n` in `c`, as
/// [`replace_seq`] states it.
pub fn replace_all(c: &str, o: &str, n: &str) -> (r: String)
    ensures
        r@ == replace_seq(c@, o@, n@),
{
    let c_len = c.unicode_len();
    let o_len = o.unicode_len();
    let mut r = String::new();
    let mut i: usize = 0;
    proof {
        assert(c@.skip(0) =~= c@);
        assert(r@ + replace_seq(c@, o@, n@) =~= replace_seq(c@, o@, n@));
    }
    if o_len == 0 {
        while i < c_len
            invariant
                0 <= i <= c_len,
                c_len == c@.len(),
                o@.len() == 0,
                replace_seq(c@, o@, n@) == r@ + replace_seq(c@.skip(i as int), o@, n@),
            decreases c_len - i,
        {
            proof {
                let rem = c@.skip(i as int);
                assert(rem.skip(1) =~= c@.skip(i as int + 1));
                assert(replace_seq(rem, o@, n@) == n@ + seq![rem[0]] + replace_seq(
                    c@.skip(i as int + 1),
                    o@,
                    n@,
                ));
                assert(c@.subrange(i as int, i as int + 1) =~= seq![rem[0]]);
            }
            r.append(n);
            r.append(c.substring_char(i, i + 1));
            i = i + 1;
        }
        proof {
            assert(c@.skip(c_len as int) =~= Seq::<char>::empty());
            assert(replace_seq(c@.skip(c_len as int), o@, n@) == n@);
        }
        r.append(n);
        return r;
    }
    while i < c_len
        invariant
            0 <= i <= c_len,
            c_len == c@.len(),
            o_len == o@.len(),
            o_len > 0,
            replace_seq(c@, o@, n@) == r@ + replace_seq(c@.skip(i as int), o@, n@),
        decreases c_len - i,
    {
        let rest = c_len - i;
        if o_len <= rest && match_at(c, o, i) {
            proof {
                let rem = c@.skip(i as int);
                assert(rem.subrange(0, o@.len() as int) =~= c@.subrange(
                    i as int,
                    i as int + o@.len() as int,
                ));
                assert(rem.skip(o@.len() as int) =~= c@.skip(i as int + o_len as int));
                assert(replace_seq(rem, o@, n@) == n@ + replace_seq(
                    c@.skip(i as int + o_len as int),
                    o@,
                    n@,
                ));
            }
            r.append(n);
            i = i + o_len;
        } else {
            proof {
                let rem = c@.skip(i as int);
                let rem1 = c@.skip(i as int + 1);
                assert(rem.skip(1) =~= rem1);
                if rem.len() < o@.len() {
                    assert(replace_seq(rem, o@, n@) == rem);
                    assert(replace_seq(rem1, o@, n@) == rem1);
                    assert(rem =~= seq![rem[0]] + rem1);
                } else {
                    assert(rem.subrange(0, o@.len() as int) =~= c@.subrange(
                        i as int,
                        i as int + o@.len() as int,
                    ));
                    assert(replace_seq(rem, o@, n@) == seq![rem[0]] + replace_seq(rem1, o@, n@));
                }
                assert(c@.subrange(i as int, i as int + 1) =~= seq![rem[0]]);
            }
            r.append(c.substring_char(i, i + 1));
            i = i + 1;
        }
    }
    proof {
        assert(c@.skip(c_len as int) =~= Seq::<char>::empty());
        assert(replace_seq(c@.skip(c_len as int), o@, n@) == Seq::<char>::empty());
        assert(r@ + Seq::<char>::empty() =~= r@);
    }
    r
}

/// The characters the exit-keyword test strips from either end of the input:
/// space, tab, line feed, carriage return, and form feed.
pub open spec fn is_space_char(ch: char) -> bool {
    ch == ' ' || ch == '\t' || ch == '\n' || ch == '\r' || ch == '\u{000C}'
}

/// The input with leading whitespace removed.
pub open spec fn trim_front_spec(s: Seq<char>) -> Seq<char>
    decreases s.len(),
{
    if s.len() > 0 && is_space_char(s[0]) {
        trim_front_spec(s.skip(1))
    } else {
        s
    }
}

/// The input with trailing whitespace removed.
pub open spec fn trim_back_spec(s: Seq<char>) -> Seq<char>
    decreases s.len(),
{
    if s.len() > 0 && is_space_char(s[s.len() - 1]) {
        trim_back_spec(s.take(s.len() - 1))
    } else {
        s
    }
}

/// The input with surrounding whitespace removed.
pub open spec fn trim_spec(s: Seq<char>) -> Seq<char> {
    trim_back_spec(trim_front_spec(s))
}

/// The trimmed input equals the exit keyword, ignoring ASCII case.
pub open spec fn matches_exit_keyword(t: Seq<char>) -> bool {
    &&& t.len() == 4
    &&& (t[0] == 'e' || t[0] == 'E')
    &&& (t[1] == 'x' || t[1] == 'X')
    &&& (t[2] == 'i' || t[2] == 'I')
    &&& (t[3] == 't' || t[3] == 'T')
}

/// The input, once trimmed, is the exit keyword up to ASCII case.
pub open spec fn is_exit_spec(s: Seq<char>) -> bool {
    matches_exit_keyword(trim_spec(s))
}

proof fn lemma_trim_front_is_skip(s: Seq<char>, j: int)
    requires
        0 <= j <= s.len(),
        forall|k: int| 0 <= k < j ==> is_space_char(s[k]),
        j == s.len() || !is_space_char(s[j]),
    ensures
        trim_front_spec(s) == s.skip(j),
    decreases j,
{
    if j == 0 {
        assert(s.skip(0) =~= s);
    } else {
        lemma_trim_front_is_skip(s.skip(1), j - 1);
        assert(s.skip(1).skip(j - 1) =~= s.skip(j));
    }
}

proof fn lemma_trim_back_is_take(s: Seq<char>, j: int)
    requires
        0 <= j <= s.len(),
        forall|k: int| j <= k < s.len() ==> is_space_char(s[k]),
        j == 0 || !is_space_char(s[j - 1]),
    ensures
        trim_back_spec(s) == s.take(j),
    decreases s.len(),
{
    if j == s.len() {
        assert(s.take(j) =~= s);
    } else {
        lemma_trim_back_is_take(s.take(s.len() - 1), j);
        assert(s.take(s.len() - 1).take(j) =~= s.take(j));
    }
}

fn is_space(ch: char) -> (r: bool)
    ensures
        r == is_space_char(ch),
{
    ch == ' ' || ch == '\t' || ch == '\n' || ch == '\r' || ch == '\u{000C}'
}

/// The input, with surrounding whitespace trimmed, equals the exit keyword
/// `exit` up to ASCII case.
pub fn is_exit_command(input: &str) -> (r: bool)
    ensures
        r == is_exit_spec(input@),
{
    let len = input.unicode_len();
    let mut start: usize = 0;
    while start < len && is_space(input.get_char(start))
        invariant
            0 <= start <= len,
            len == input@.len(),
            forall|k: int| 0 <= k < start ==> is_space_char(input@[k]),
        decreases len - start,
    {
        start = start + 1;
    }
    let mut end: usize = len;
    while end > start && is_space(input.get_char(end - 1))
        invariant
            start <= end <= len,
            len == input@.len(),
            forall|k: int| end <= k < len ==> is_space_char(input@[k]),
        decreases end,
    {
        end = end - 1;
    }
    proof {
        lemma_trim_front_is_skip(input@, start as int);
        lemma_trim_back_is_take(input@.skip(start as int), end - start as int);
        assert(input@.skip(start as int).take(end - start as int) =~= input@.subrange(
            start as int,
            end as int,
        ));
    }
    if end - start != 4 {
        return false;
    }
    let c0 = input.get_char(start);
    let c1 = input.get_char(start + 1);
    let c2 = input.get_char(start + 2);
    let c3 = input.get_char(start + 3);
    (c0 == 'e' || c0 == 'E') && (c1 == 'x' || c1 == 'X') && (c2 == 'i' || c2 == 'I') && (c3 == 't'
        || c3 == 'T')
}

/// The character `ch` occurs somewhere in `s`.
pub open spec fn contains_char_spec(s: Seq<char>, ch: char) -> bool {
    exists|i: int| 0 <= i < s.len() && s[i] == ch
}

/// Whether the character `ch` occurs in `s`.
pub fn contains_char(s: &str, ch: char) -> (r: bool)
    ensures
        r == contains_char_spec(s@, ch),
{
    let len = s.unicode_len();
    let mut i: usize = 0;
    while i < len
        invariant
            0 <= i <= len,
            len == s@.len(),
            forall|k: int| 0 <= k < i ==> s@[k] != ch,
        decreases len - i,
    {
        if s.get_char(i) == ch {
            return true;
        }
        i = i + 1;
    }
    false
}

} // verus!
