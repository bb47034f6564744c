//! Text that another program reads back: shell words, ssh configuration values
//! and file name components.

use vstd::prelude::*;
use crate::text;

verus! {

/// The characters that a shell reads as themselves wherever they stand.
pub open spec fn is_plain(c: char) -> bool {
    ||| text::is_alphanumeric(c)
    ||| c == '@'
    ||| c == '%'
    ||| c == '_'
    ||| c == '+'
    ||| c == '='
    ||| c == ':'
    ||| c == ','
    ||| c == '.'
    ||| c == '/'
    ||| c == '-'
}

fn plain(c: char) -> (r: bool)
    ensures
        r == is_plain(c),
{
    text::ascii_alphanumeric(c) || c == '@' || c == '%' || c == '_' || c == '+' || c == '=' || c
        == ':' || c == ',' || c == '.' || c == '/' || c == '-'
}

/// One character inside single quotes: a quote leaves the quotes, stands
/// escaped, and opens them again.
pub open spec fn quoted_char(c: char) -> Seq<char> {
    if c == '\'' {
        seq!['\'', '\\', '\'', '\'']
    } else {
        seq![c]
    }
}

/// A text as it stands between single quotes.
pub open spec fn quoted_body(s: Seq<char>) -> Seq<char>
    decreases s.len(),
{
    if s.len() == 0 {
        seq![]
    } else {
        quoted_body(s.drop_last()) + quoted_char(s.last())
    }
}

/// A text as one word of a shell command.
pub open spec fn shell_word(s: Seq<char>) -> Seq<char> {
    if s.len() > 0 && (forall|i: int| 0 <= i < s.len() ==> is_plain(#[trigger] s[i])) {
        s
    } else {
        seq!['\''] + quoted_body(s) + seq!['\'']
    }
}

/// Quotes a text so that a shell reads it as one word.
pub fn shell_quote(value: &str) -> (r: String)
    ensures
        r@ == shell_word(value@),
{
    let v = text::to_chars(value);
    let mut all_plain = true;
    let mut i: usize = 0;
    while i < v.len()
        invariant
            i <= v@.len(),
            v@ == value@,
            all_plain == (forall|k: int| 0 <= k < i ==> is_plain(#[trigger] v@[k])),
        decreases v@.len() - i,
    {
        let p = plain(v[i]);
        assert(p == is_plain(v@[i as int]));
        all_plain = all_plain && p;
        i = i + 1;
    }
    if v.len() > 0 && all_plain {
        return value.to_string();
    }
    let mut r = String::new();
    r.push('\'');
    let ghost open = r@;
    assert(open =~= seq!['\'']);
    let mut j: usize = 0;
    assert(v@.take(0) =~= seq![]);
    assert(r@ =~= open + quoted_body(v@.take(0)));
    while j < v.len()
        invariant
            j <= v@.len(),
            r@ == open + quoted_body(v@.take(j as int)),
        decreases v@.len() - j,
    {
        let ghost before = r@;
        let c = v[j];
        if c == '\'' {
            r.push('\'');
            r.push('\\');
            r.push('\'');
            r.push('\'');
        } else {
            r.push(c);
        }
        assert(r@ =~= before + quoted_char(c));
        assert(v@.take(j + 1).drop_last() =~= v@.take(j as int));
        assert(r@ =~= open + quoted_body(v@.take(j + 1)));
        j = j + 1;
    }
    assert(v@.take(j as int) =~= v@);
    r.push('\'');
    assert(r@ =~= seq!['\''] + quoted_body(value@) + seq!['\'']);
    r
}

/// What a shell makes of the characters of one word: between single quotes
/// every character but the quote stands for itself; outside, a backslash makes
/// the next character on its line stand for itself, and so does a plain
/// character. Any other character ends or changes the word, which gives `None`, as
/// does a quote that is never closed.
pub open spec fn shell_reads(s: Seq<char>, inside: bool) -> Option<Seq<char>>
    decreases s.len(),
{
    if s.len() == 0 {
        if inside {
            None
        } else {
            Some(seq![])
        }
    } else if s[0] == '\'' {
        shell_reads(s.skip(1), !inside)
    } else if inside || is_plain(s[0]) {
        then_read(seq![s[0]], shell_reads(s.skip(1), inside))
    } else if s[0] == '\\' && s.len() >= 2 && s[1] != '\n' {
        then_read(seq![s[1]], shell_reads(s.skip(2), false))
    } else {
        None
    }
}

/// A text in front of what is read after it.
pub open spec fn then_read(a: Seq<char>, rest: Option<Seq<char>>) -> Option<Seq<char>> {
    match rest {
        Some(b) => Some(a + b),
        None => None,
    }
}

proof fn lemma_plain_reads(s: Seq<char>)
    requires
        forall|i: int| 0 <= i < s.len() ==> is_plain(#[trigger] s[i]),
    ensures
        shell_reads(s, false) == Some(s),
    decreases s.len(),
{
    if s.len() > 0 {
        assert forall|i: int| 0 <= i < s.skip(1).len() implies is_plain(#[trigger] s.skip(1)[i]) by {
            assert(is_plain(s[i + 1]));
        }
        lemma_plain_reads(s.skip(1));
        assert(is_plain(s[0]));
        assert(seq![s[0]] + s.skip(1) =~= s);
    } else {
        assert(s =~= seq![]);
    }
}

proof fn lemma_quoted_reads(s: Seq<char>, tail: Seq<char>, read: Seq<char>)
    requires
        shell_reads(tail, true) == Some(read),
    ensures
        shell_reads(quoted_body(s) + tail, true) == Some(s + read),
    decreases s.len(),
{
    if s.len() == 0 {
        assert(quoted_body(s) + tail =~= tail);
        assert(s + read =~= read);
    } else {
        let c = s.last();
        let q = quoted_char(c) + tail;
        assert(shell_reads(q, true) == Some(seq![c] + read)) by {
            if c == '\'' {
                assert(q.skip(1)[0] == '\\');
                assert(q.skip(1).skip(2) =~= q.skip(3));
                assert(q.skip(3)[0] == '\'');
                assert(q.skip(3).skip(1) =~= tail);
                assert(shell_reads(q.skip(3), false) == shell_reads(tail, true));
                assert(q.skip(1)[1] == '\'');
                assert(!is_plain('\\'));
                assert(shell_reads(q.skip(1), false) == Some(seq![c] + read));
            } else {
                assert(q.skip(1) =~= tail);
            }
        }
        lemma_quoted_reads(s.drop_last(), q, seq![c] + read);
        assert(quoted_body(s.drop_last()) + q =~= quoted_body(s) + tail);
        assert(s.drop_last() + (seq![c] + read) =~= s + read);
    }
}

/// A shell reads a quoted text back as the text itself, as one word, whatever
/// characters it holds.
pub proof fn law_shell_reads_back_what_is_quoted(s: Seq<char>)
    ensures
        shell_reads(shell_word(s), false) == Some(s),
{
    if s.len() > 0 && (forall|i: int| 0 <= i < s.len() ==> is_plain(#[trigger] s[i])) {
        lemma_plain_reads(s);
    } else {
        let tail = seq!['\''];
        assert(tail.skip(1) =~= seq![]);
        assert(shell_reads(tail.skip(1), false) == Some(Seq::<char>::empty()));
        assert(tail[0] == '\'');
        assert(shell_reads(tail, true) == Some(Seq::<char>::empty()));
        lemma_quoted_reads(s, tail, seq![]);
        let w = shell_word(s);
        assert(w.skip(1) =~= quoted_body(s) + tail);
        assert(s + seq![] =~= s);
    }
}

/// Different texts are quoted differently.
pub proof fn law_quoted_texts_differ(a: Seq<char>, b: Seq<char>)
    requires
        shell_word(a) == shell_word(b),
    ensures
        a == b,
{
    law_shell_reads_back_what_is_quoted(a);
    law_shell_reads_back_what_is_quoted(b);
}

/// What has been read of a word, if anything, with more behind it.
pub open spec fn word_with(word: Option<Seq<char>>, more: Seq<char>) -> Seq<char> {
    match word {
        Some(w) => w + more,
        None => more,
    }
}

/// A word in front of those that are read after it.
pub open spec fn then_words(word: Option<Seq<char>>, rest: Option<Seq<Seq<char>>>) -> Option<
    Seq<Seq<char>>,
> {
    match (word, rest) {
        (Some(w), Some(ws)) => Some(seq![w] + ws),
        (None, Some(ws)) => Some(ws),
        (_, None) => None,
    }
}

/// The words that a shell reads from a command line, where `word` is what it has read
/// of the current word. The characters of a word are read as `shell_reads` tells, and
/// blanks stand between words. Any other character makes more of the line than words,
/// which gives `None`.
pub open spec fn words_from(s: Seq<char>, word: Option<Seq<char>>, inside: bool) -> Option<
    Seq<Seq<char>>,
>
    decreases s.len(),
{
    if s.len() == 0 {
        if inside {
            None
        } else {
            then_words(word, Some(seq![]))
        }
    } else if s[0] == '\'' {
        words_from(s.skip(1), Some(word_with(word, seq![])), !inside)
    } else if inside || is_plain(s[0]) {
        words_from(s.skip(1), Some(word_with(word, seq![s[0]])), inside)
    } else if s[0] == '\\' && s.len() >= 2 && s[1] != '\n' {
        words_from(s.skip(2), Some(word_with(word, seq![s[1]])), false)
    } else if s[0] == ' ' {
        then_words(word, words_from(s.skip(1), None, false))
    } else {
        None
    }
}

/// The words that a shell reads from a command line.
pub open spec fn shell_words(s: Seq<char>) -> Option<Seq<Seq<char>>> {
    words_from(s, None, false)
}

proof fn lemma_word_is_read(
    s: Seq<char>,
    read: Seq<char>,
    tail: Seq<char>,
    word: Option<Seq<char>>,
    inside: bool,
)
    requires
        shell_reads(s, inside) == Some(read),
    ensures
        words_from(s + tail, word, inside) == words_from(
            tail,
            if s.len() == 0 {
                word
            } else {
                Some(word_with(word, read))
            },
            false,
        ),
    decreases s.len(),
{
    let all = s + tail;
    if s.len() == 0 {
        assert(all =~= tail);
    } else {
        assert(all[0] == s[0]);
        assert(all.skip(1) =~= s.skip(1) + tail);
        if s[0] == '\'' {
            let next = Some(word_with(word, seq![]));
            lemma_word_is_read(s.skip(1), read, tail, next, !inside);
            if s.skip(1).len() == 0 {
                assert(read =~= seq![]);
            } else {
                assert(word_with(next, read) =~= word_with(word, read));
            }
        } else if inside || is_plain(s[0]) {
            let rest = shell_reads(s.skip(1), inside)->0;
            let next = Some(word_with(word, seq![s[0]]));
            lemma_word_is_read(s.skip(1), rest, tail, next, inside);
            if s.skip(1).len() == 0 {
                assert(read =~= seq![s[0]]);
            } else {
                assert(word_with(next, rest) =~= word_with(word, read));
            }
        } else {
            let rest = shell_reads(s.skip(2), false)->0;
            let next = Some(word_with(word, seq![s[1]]));
            assert(all[1] == s[1]);
            assert(all.skip(2) =~= s.skip(2) + tail);
            lemma_word_is_read(s.skip(2), rest, tail, next, false);
            if s.skip(2).len() == 0 {
                assert(read =~= seq![s[1]]);
            } else {
                assert(word_with(next, rest) =~= word_with(word, read));
            }
        }
    }
}

/// The command line of some words: each quoted, with blanks between them.
pub open spec fn command_line(words: Seq<Seq<char>>) -> Seq<char>
    decreases words.len(),
{
    if words.len() == 0 {
        seq![]
    } else if words.len() == 1 {
        shell_word(words[0])
    } else {
        shell_word(words[0]) + seq![' '] + command_line(words.skip(1))
    }
}

/// The command line of two lists of words has those of the two, with a blank between
/// them.
pub proof fn lemma_command_lines_join(a: Seq<Seq<char>>, b: Seq<Seq<char>>)
    requires
        a.len() > 0,
        b.len() > 0,
    ensures
        command_line(a + b) == command_line(a) + seq![' '] + command_line(b),
    decreases a.len(),
{
    assert((a + b)[0] == a[0]);
    if a.len() == 1 {
        assert((a + b).skip(1) =~= b);
    } else {
        lemma_command_lines_join(a.skip(1), b);
        assert((a + b).skip(1) =~= a.skip(1) + b);
        assert(command_line(a + b) =~= command_line(a) + seq![' '] + command_line(b));
    }
}

/// A shell reads the command line of some words back as those words, whatever
/// characters they hold.
pub proof fn law_shell_reads_back_command_lines(words: Seq<Seq<char>>)
    ensures
        shell_words(command_line(words)) == Some(words),
    decreases words.len(),
{
    if words.len() == 0 {
        assert(words =~= seq![]);
    } else {
        let w = words[0];
        law_shell_reads_back_what_is_quoted(w);
        assert(shell_word(w).len() > 0);
        if words.len() == 1 {
            lemma_word_is_read(shell_word(w), w, seq![], None, false);
            assert(shell_word(w) + seq![] =~= shell_word(w));
            assert(seq![w] + Seq::<Seq<char>>::empty() =~= words);
        } else {
            let rest = command_line(words.skip(1));
            let tail = seq![' '] + rest;
            lemma_word_is_read(shell_word(w), w, tail, None, false);
            assert(shell_word(w) + tail =~= command_line(words));
            law_shell_reads_back_command_lines(words.skip(1));
            assert(tail[0] == ' ');
            assert(tail.skip(1) =~= rest);
            assert(seq![w] + words.skip(1) =~= words);
        }
    }
}

/// Quotes a path for an ssh configuration value, so that a path with spaces or
/// glob characters stays one literal token.
pub fn ssh_config_quote(path: &str) -> (r: String)
    ensures
        r@ == "\""@ + path@ + "\""@,
{
    text::join3("\"", path, "\"")
}

/// The characters that a file name component keeps.
pub open spec fn is_name_char(c: char) -> bool {
    text::is_alphanumeric(c) || c == '.' || c == '_' || c == '-'
}

/// Whether a file name component keeps the character.
pub fn name_char(c: char) -> (r: bool)
    ensures
        r == is_name_char(c),
{
    text::ascii_alphanumeric(c) || c == '.' || c == '_' || c == '-'
}

/// A text with a dash in place of every character that a file name component
/// does not keep.
pub open spec fn dashed(s: Seq<char>) -> Seq<char> {
    Seq::new(
        s.len(),
        |i: int|
            if is_name_char(s[i]) {
                s[i]
            } else {
                '-'
            },
    )
}

/// At most the first `n` elements.
pub open spec fn at_most(s: Seq<char>, n: nat) -> Seq<char> {
    if s.len() <= n {
        s
    } else {
        s.take(n as int)
    }
}

/// The length that a file name component is cut to.
pub const COMPONENT_LEN: usize = 32;

/// A text as a component of a file name.
pub open spec fn component(s: Seq<char>) -> Seq<char> {
    at_most(text::skip_back(text::skip_front(dashed(s), '-'), '-'), COMPONENT_LEN as nat)
}

/// At most the first `n` characters.
pub fn first_chars(s: &str, n: usize) -> (r: String)
    ensures
        r@ == at_most(s@, n as nat),
{
    let v = text::to_chars(s);
    let to: usize = if v.len() <= n {
        v.len()
    } else {
        n
    };
    assert(v@.subrange(0, to as int) =~= at_most(s@, n as nat));
    text::from_chars(v.as_slice(), 0, to)
}

/// A text as a component of a file name: other characters than letters, digits,
/// `.`, `_` and `-` become dashes, dashes at the ends are dropped, and at most
/// the first `COMPONENT_LEN` characters are kept.
pub fn sanitize_path_component(input: &str) -> (r: String)
    ensures
        r@ == component(input@),
{
    let v = text::to_chars(input);
    let mut d = String::new();
    let mut i: usize = 0;
    while i < v.len()
        invariant
            i <= v@.len(),
            v@ == input@,
            d@ == dashed(input@).take(i as int),
        decreases v@.len() - i,
    {
        if name_char(v[i]) {
            d.push(v[i]);
        } else {
            d.push('-');
        }
        i = i + 1;
        assert(dashed(input@).take(i as int) =~= dashed(input@).take(i - 1).push(
            dashed(input@)[i - 1],
        ));
    }
    assert(dashed(input@).take(i as int) =~= dashed(input@));
    let front = text::trim_start_of(d.as_str(), '-');
    let both = text::trim_end_of(front.as_str(), '-');
    first_chars(both.as_str(), COMPONENT_LEN)
}

proof fn lemma_skips_keep(s: Seq<char>, p: spec_fn(char) -> bool)
    requires
        forall|i: int| 0 <= i < s.len() ==> p(#[trigger] s[i]),
    ensures
        forall|i: int| 0 <= i < text::skip_front(s, '-').len() ==> p(#[trigger] text::skip_front(s, '-')[i]),
        forall|i: int| 0 <= i < text::skip_back(s, '-').len() ==> p(#[trigger] text::skip_back(s, '-')[i]),
    decreases s.len(),
{
    if s.len() > 0 {
        assert forall|i: int| 0 <= i < s.skip(1).len() implies p(#[trigger] s.skip(1)[i]) by {
            assert(p(s[i + 1]));
        }
        assert forall|i: int| 0 <= i < s.drop_last().len() implies p(#[trigger] s.drop_last()[i]) by {
            assert(p(s[i]));
        }
        lemma_skips_keep(s.skip(1), p);
        lemma_skips_keep(s.drop_last(), p);
    }
    let f = text::skip_front(s, '-');
    let b = text::skip_back(s, '-');
    assert forall|i: int| 0 <= i < f.len() implies p(#[trigger] f[i]) by {
        if s.len() > 0 && s[0] == '-' {
            assert(f == text::skip_front(s.skip(1), '-'));
        } else {
            assert(p(s[i]));
        }
    }
    assert forall|i: int| 0 <= i < b.len() implies p(#[trigger] b[i]) by {
        if s.len() > 0 && s.last() == '-' {
            assert(b == text::skip_back(s.drop_last(), '-'));
        } else {
            assert(p(s[i]));
        }
    }
}

proof fn lemma_skip_front_len(s: Seq<char>)
    ensures
        text::skip_front(s, '-').len() <= s.len(),
        text::skip_front(s, '-').len() > 0 ==> text::skip_front(s, '-')[0] != '-',
    decreases s.len(),
{
    if s.len() > 0 {
        lemma_skip_front_len(s.skip(1));
    }
}

proof fn lemma_skip_back_front(s: Seq<char>)
    ensures
        text::skip_back(s, '-').len() > 0 ==> text::skip_back(s, '-')[0] == s[0],
    decreases s.len(),
{
    if s.len() > 0 {
        lemma_skip_back_front(s.drop_last());
        if s.len() > 1 {
            assert(s.drop_last()[0] == s[0]);
        }
    }
}

/// A component is short, holds only letters, digits, `.`, `_` and `-`, and
/// does not begin with a dash.
pub proof fn law_components_are_file_names(s: Seq<char>)
    ensures
        component(s).len() <= COMPONENT_LEN,
        forall|i: int| 0 <= i < component(s).len() ==> is_name_char(#[trigger] component(s)[i]),
        component(s).len() > 0 ==> component(s)[0] != '-',
{
    let p = |c: char| is_name_char(c);
    let d = dashed(s);
    let f = text::skip_front(d, '-');
    let b = text::skip_back(f, '-');
    assert forall|i: int| 0 <= i < d.len() implies p(#[trigger] d[i]) by {}
    lemma_skips_keep(d, p);
    lemma_skips_keep(f, p);
    lemma_skip_front_len(d);
    lemma_skip_back_front(f);
    assert forall|i: int| 0 <= i < component(s).len() implies is_name_char(
        #[trigger] component(s)[i],
    ) by {
        assert(component(s)[i] == b[i]);
        assert(p(b[i]));
    }
}

} // verus!
