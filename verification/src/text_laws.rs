//! What holds of texts: trimming, lines, numbers and the like.

use vstd::prelude::*;
use crate::text;

verus! {

broadcast use vstd::string::group_string_axioms;

/// Whether a text is white space from `from` up to `to`.
pub open spec fn blank_between(s: Seq<char>, from: int, to: int) -> bool {
    forall|i: int| from <= i < to ==> text::is_white_space(#[trigger] s[i])
}

/// Trimming takes white space from either end, all of it, and nothing else.
pub proof fn law_trimming_takes_the_white_space(s: Seq<char>)
    ensures
        exists|i: int, j: int|
            {
                &&& 0 <= i <= j <= s.len()
                &&& text::trimmed(s) == #[trigger] s.subrange(i, j)
                &&& blank_between(s, 0, i)
                &&& blank_between(s, j, s.len() as int)
            },
        text::trimmed(s).len() > 0 ==> !text::is_white_space(text::trimmed(s)[0])
            && !text::is_white_space(text::trimmed(s).last()),
{
    let i = lemma_front(s);
    let front = text::trim_front(s);
    let k = lemma_back(front);
    let j = i + k;
    assert(text::trimmed(s) =~= s.subrange(i, j));
    assert forall|x: int| j <= x < s.len() implies text::is_white_space(#[trigger] s[x]) by {
        assert(front[x - i] == s[x]);
    }
    if text::trimmed(s).len() > 0 {
        assert(text::trimmed(s)[0] == front[0]);
    }
}

proof fn lemma_front(s: Seq<char>) -> (i: int)
    ensures
        0 <= i <= s.len(),
        text::trim_front(s) == s.skip(i),
        blank_between(s, 0, i),
        i < s.len() ==> !text::is_white_space(s[i]),
    decreases s.len(),
{
    if s.len() > 0 && text::is_white_space(s[0]) {
        let k = lemma_front(s.skip(1));
        assert(s.skip(1).skip(k) =~= s.skip(k + 1));
        assert forall|x: int| 0 <= x < k + 1 implies text::is_white_space(#[trigger] s[x]) by {
            if x > 0 {
                assert(s.skip(1)[x - 1] == s[x]);
            }
        }
        k + 1
    } else {
        assert(s.skip(0) =~= s);
        0
    }
}

proof fn lemma_back(s: Seq<char>) -> (j: int)
    ensures
        0 <= j <= s.len(),
        text::trim_back(s) == s.take(j),
        blank_between(s, j, s.len() as int),
        j > 0 ==> !text::is_white_space(s[j - 1]),
    decreases s.len(),
{
    if s.len() > 0 && text::is_white_space(s.last()) {
        let k = lemma_back(s.drop_last());
        assert(s.drop_last().take(k) =~= s.take(k));
        assert forall|x: int| k <= x < s.len() implies text::is_white_space(#[trigger] s[x]) by {
            if x < s.len() - 1 {
                assert(s.drop_last()[x] == s[x]);
            }
        }
        k
    } else {
        assert(s.take(s.len() as int) =~= s);
        s.len() as int
    }
}

/// A text without white space at its ends is left as it is.
pub proof fn law_trimmed_texts_stay(s: Seq<char>)
    requires
        s.len() > 0 ==> !text::is_white_space(s[0]) && !text::is_white_space(s.last()),
    ensures
        text::trimmed(s) == s,
{
}

/// What is typed with a key is no white space, except for the space bar and the
/// keys that move on.
pub proof fn law_white_space(c: char)
    ensures
        text::is_white_space(' '),
        text::is_white_space('\t'),
        text::is_white_space('\n'),
        text::is_white_space('\r'),
        '!' as u32 <= c as u32 <= '~' as u32 ==> !text::is_white_space(c),
{
}

/// A line ends at a line feed, and a carriage return just before it is not part of
/// the line. What follows is read in the same way, and an empty rest has no lines.
pub proof fn law_lines_end_at_line_feeds(line: Seq<char>, rest: Seq<char>)
    requires
        !line.contains('\n'),
    ensures
        text::lines_of(Seq::empty()).len() == 0,
        line.len() > 0 ==> text::lines_of(line) == seq![line],
        line.len() == 0 || line.last() != '\r' ==> text::lines_of(line + seq!['\n'] + rest) == seq![
            line,
        ] + text::lines_of(rest),
        text::lines_of(line + seq!['\r', '\n'] + rest) == seq![line] + text::lines_of(rest),
{
    line.index_of_first_ensures('\n');
    lemma_one_line(line, rest);
    let returned = line.push('\r');
    assert(!returned.contains('\n')) by {
        if returned.contains('\n') {
            let i = choose|i: int| 0 <= i < returned.len() && returned[i] == '\n';
            assert(line[i] == '\n');
        }
    }
    lemma_one_line(returned, rest);
    assert(returned + seq!['\n'] + rest =~= line + seq!['\r', '\n'] + rest);
    assert(returned.drop_last() =~= line);
}

proof fn lemma_one_line(line: Seq<char>, rest: Seq<char>)
    requires
        !line.contains('\n'),
    ensures
        text::lines_of(line + seq!['\n'] + rest) == seq![text::without_return(line)]
            + text::lines_of(rest),
{
    let s = line + seq!['\n'] + rest;
    let n = line.len() as int;
    assert(s[n] == '\n');
    assert forall|k: int| 0 <= k < n implies s[k] != '\n' by {
        assert(s[k] == line[k]);
        if line[k] == '\n' {
            assert(line.contains('\n'));
        }
    }
    crate::lists::lemma_first_index(s, '\n', n);
    assert(s.take(n) =~= line);
    assert(s.skip(n + 1) =~= rest);
}

/// The number that decimal digits stand for.
pub open spec fn number(s: Seq<char>) -> int
    decreases s.len(),
{
    if s.len() == 0 {
        0
    } else {
        10 * number(s.drop_last()) + (s.last() as u32 - '0' as u32)
    }
}

/// A number is read back from its decimal text, which has digits only and no
/// leading zeros.
pub proof fn law_numbers_are_read_back(n: nat, i: int)
    ensures
        number(text::decimal(n)) == n,
        text::decimal(n).len() > 0,
        n > 0 ==> text::decimal(n)[0] != '0',
        0 <= i < text::decimal(n).len() ==> '0' as u32 <= text::decimal(n)[i] as u32 <= '9' as u32,
    decreases n,
{
    let s = text::decimal(n);
    if n < 10 {
        assert(s.drop_last().len() == 0);
        assert(s.last() == text::digit(n));
        assert(number(s.drop_last()) == 0);
    } else {
        law_numbers_are_read_back(n / 10, i);
        assert(s.drop_last() =~= text::decimal(n / 10));
    }
}

/// A text is split at the first place where the separator occurs, and at no other;
/// where it does not occur, the text is not split.
pub proof fn law_texts_are_split_at_the_first_place(s: Seq<char>, p: Seq<char>, i: int)
    ensures
        text::split_first(s, p) is None && 0 <= i <= s.len() ==> !text::has_prefix(s.skip(i), p),
        text::split_first(s, p) matches Some((a, b)) ==> s == a + p + b && (0 <= i < a.len()
            ==> !text::has_prefix(s.skip(i), p)),
{
    lemma_first_place(s, p, i);
    if let Some(n) = text::first_place(s, p) {
        assert(s.skip(n).take(p.len() as int) == p);
        assert(s =~= s.take(n) + p + s.skip(n + p.len())) by {
            assert forall|k: int| 0 <= k < p.len() implies s[n + k] == p[k] by {
                assert(s.skip(n).take(p.len() as int)[k] == p[k]);
            }
        }
    }
}

proof fn lemma_first_place(s: Seq<char>, p: Seq<char>, i: int)
    ensures
        text::first_place(s, p) is None && 0 <= i <= s.len() ==> !text::has_prefix(s.skip(i), p),
        text::first_place(s, p) matches Some(n) ==> 0 <= n && n + p.len() <= s.len()
            && text::has_prefix(s.skip(n), p) && (0 <= i < n ==> !text::has_prefix(s.skip(i), p)),
    decreases s.len(),
{
    assert(s.skip(0) =~= s);
    if !text::has_prefix(s, p) && s.len() > 0 {
        lemma_first_place(s.skip(1), p, i - 1);
        if 0 < i <= s.len() {
            assert(s.skip(1).skip(i - 1) =~= s.skip(i));
        }
        if let Some(n) = text::first_place(s.skip(1), p) {
            assert(s.skip(1).skip(n) =~= s.skip(n + 1));
        }
    }
}

/// Lower case has no upper-case letters, and changes nothing else.
pub proof fn law_lower_case(s: Seq<char>, i: int)
    requires
        0 <= i < s.len(),
    ensures
        text::lowered(s).len() == s.len(),
        !('A' as u32 <= text::lowered(s)[i] as u32 <= 'Z' as u32),
        !('A' as u32 <= s[i] as u32 <= 'Z' as u32) ==> text::lowered(s)[i] == s[i],
        'A' as u32 <= s[i] as u32 <= 'Z' as u32 ==> text::lowered(s)[i] as u32 - 'a' as u32
            == s[i] as u32 - 'A' as u32,
        text::lowered(text::lowered(s)) == text::lowered(s),
{
    let low = text::lowered(s);
    assert forall|k: int| 0 <= k < s.len() implies text::lower_char(#[trigger] low[k])
        == low[k] by {
        assert(low[k] == text::lower_char(s[k]));
    }
    assert(text::lowered(low) =~= low);
}

/// The ASCII letters and digits.
pub proof fn law_letters_and_digits(c: char)
    ensures
        '0' as u32 <= c as u32 <= '9' as u32 ==> text::is_alphanumeric(c),
        'a' as u32 <= c as u32 <= 'z' as u32 ==> text::is_alphanumeric(c),
        'A' as u32 <= c as u32 <= 'Z' as u32 ==> text::is_alphanumeric(c),
        text::is_alphanumeric(c) ==> c as u32 <= 'z' as u32 && c != '-' && c != '_' && c != '.' && c
            != '/' && c != ' ' && c != '@' && c != ':',
{
}

} // verus!
