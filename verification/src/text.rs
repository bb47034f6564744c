//! Text as sequences of characters: the operations on strings that the rest of
//! the crate is built from, each proved against a statement over `Seq<char>`.

use vstd::prelude::*;

verus! {

broadcast use vstd::string::group_string_axioms;

/// `String::push` appends the character to the end of the string.
pub assume_specification[ String::push ](s: &mut String, c: char)
    ensures
        final(s)@ == old(s)@.push(c),
;

/// `String::pop` removes the last character and returns it, or returns `None`
/// and leaves the string alone when it is empty.
pub assume_specification[ String::pop ](s: &mut String) -> (r: Option<char>)
    ensures
        old(s)@.len() == 0 ==> r is None && final(s)@ == old(s)@,
        old(s)@.len() > 0 ==> r == Some(old(s)@.last()) && final(s)@ == old(s)@.drop_last(),
;

/// `String::clear` removes all contents.
pub assume_specification[ String::clear ](s: &mut String)
    ensures
        final(s)@ == Seq::<char>::empty(),
;

/// The views of the elements of a sequence.
pub open spec fn views<T: View>(s: Seq<T>) -> Seq<T::V> {
    Seq::new(s.len(), |i: int| s[i]@)
}

/// The view of an optional value.
pub open spec fn opt_view<T: View>(o: Option<T>) -> Option<T::V> {
    match o {
        Some(x) => Some(x@),
        None => None,
    }
}

pub proof fn lemma_views_push<T: View>(s: Seq<T>, x: T)
    ensures
        views(s.push(x)) == views(s).push(x@),
{
    assert(views(s.push(x)) =~= views(s).push(x@));
}

pub proof fn lemma_views_update<T: View>(s: Seq<T>, i: int, x: T)
    requires
        0 <= i < s.len(),
    ensures
        views(s.update(i, x)) == views(s).update(i, x@),
{
    assert(views(s.update(i, x)) =~= views(s).update(i, x@));
}

/// The characters of a string, one by one.
pub fn to_chars(s: &str) -> (r: Vec<char>)
    ensures
        r@ == s@,
{
    let mut r: Vec<char> = Vec::new();
    for c in it: s.chars()
        invariant
            r@ == it.seq().take(it.index() as int),
            it.seq() == s@,
    {
        r.push(c);
        assert(it.seq().take(it.index() + 1) =~= it.seq().take(it.index() as int).push(c));
    }
    assert(s@.take(s@.len() as int) =~= s@);
    r
}

/// The string made of the characters from `from` up to `to`.
pub fn from_chars(v: &[char], from: usize, to: usize) -> (r: String)
    requires
        from <= to <= v@.len(),
    ensures
        r@ == v@.subrange(from as int, to as int),
{
    let mut r = String::new();
    let mut i: usize = from;
    assert(r@ =~= v@.subrange(from as int, from as int));
    while i < to
        invariant
            from <= i <= to <= v@.len(),
            r@ == v@.subrange(from as int, i as int),
        decreases to - i,
    {
        r.push(v[i]);
        i = i + 1;
        assert(v@.subrange(from as int, i as int) =~= v@.subrange(from as int, i - 1).push(
            v@[i - 1],
        ));
    }
    r
}

/// Whether two strings hold the same characters.
pub fn same_text(a: &str, b: &str) -> (r: bool)
    ensures
        r == (a@ == b@),
{
    let x = to_chars(a);
    let y = to_chars(b);
    if x.len() != y.len() {
        return false;
    }
    let mut i: usize = 0;
    while i < x.len()
        invariant
            i <= x@.len() == y@.len(),
            x@ == a@,
            y@ == b@,
            forall|k: int| 0 <= k < i ==> x@[k] == y@[k],
        decreases x@.len() - i,
    {
        if x[i] != y[i] {
            return false;
        }
        i = i + 1;
    }
    assert(a@ =~= b@);
    true
}

/// Whether an optional string holds the given text.
pub fn opt_is(o: &Option<String>, text: &str) -> (r: bool)
    ensures
        r == (opt_view(*o) == Some(text@)),
{
    match o {
        Some(s) => same_text(s.as_str(), text),
        None => false,
    }
}

/// A copy of an optional string.
pub fn clone_opt(o: &Option<String>) -> (r: Option<String>)
    ensures
        r == *o,
{
    match o {
        Some(s) => Some(s.clone()),
        None => None,
    }
}

/// A copy of a list of strings.
pub fn clone_all(v: &Vec<String>) -> (r: Vec<String>)
    ensures
        r@ == v@,
{
    let mut r: Vec<String> = Vec::new();
    let mut i: usize = 0;
    while i < v.len()
        invariant
            i <= v@.len(),
            r@ == v@.take(i as int),
        decreases v@.len() - i,
    {
        r.push(v[i].clone());
        i = i + 1;
        assert(v@.take(i as int) =~= v@.take(i - 1).push(v@[i - 1]));
    }
    assert(v@.take(i as int) =~= v@);
    r
}

/// Adds a copy of a text to the end of a list.
pub fn push_text(list: &mut Vec<String>, s: &str)
    ensures
        views(final(list)@) == views(old(list)@).push(s@),
{
    let ghost before = list@;
    let x = s.to_string();
    list.push(x);
    proof {
        lemma_views_push(before, x);
        assert(list@ =~= before.push(x));
    }
}

/// The text of two strings, one after the other.
pub fn join2(a: &str, b: &str) -> (r: String)
    ensures
        r@ == a@ + b@,
{
    let mut r = a.to_string();
    r.append(b);
    r
}

/// The text of three strings, one after the other.
pub fn join3(a: &str, b: &str, c: &str) -> (r: String)
    ensures
        r@ == a@ + b@ + c@,
{
    let mut r = a.to_string();
    r.append(b);
    r.append(c);
    r
}

/// Whether `s` begins with `p`.
pub open spec fn has_prefix(s: Seq<char>, p: Seq<char>) -> bool {
    p.len() <= s.len() && s.take(p.len() as int) == p
}

/// Whether `s` ends with `p`.
pub open spec fn has_suffix(s: Seq<char>, p: Seq<char>) -> bool {
    p.len() <= s.len() && s.skip(s.len() - p.len()) == p
}

/// What follows `p` in `s`, when `s` begins with `p`.
pub open spec fn after_prefix(s: Seq<char>, p: Seq<char>) -> Option<Seq<char>> {
    if has_prefix(s, p) {
        Some(s.skip(p.len() as int))
    } else {
        None
    }
}

/// What follows the prefix, when the string begins with it.
pub fn strip_prefix(s: &str, p: &str) -> (r: Option<String>)
    ensures
        opt_view(r) == after_prefix(s@, p@),
{
    let v = to_chars(s);
    let q = to_chars(p);
    if q.len() > v.len() {
        return None;
    }
    let mut i: usize = 0;
    while i < q.len()
        invariant
            i <= q@.len() <= v@.len(),
            v@ == s@,
            q@ == p@,
            forall|k: int| 0 <= k < i ==> v@[k] == q@[k],
        decreases q@.len() - i,
    {
        if v[i] != q[i] {
            assert(s@.take(p@.len() as int)[i as int] != p@[i as int]);
            return None;
        }
        i = i + 1;
    }
    assert(s@.take(p@.len() as int) =~= p@);
    let rest = from_chars(v.as_slice(), q.len(), v.len());
    assert(rest@ =~= s@.skip(p@.len() as int));
    Some(rest)
}

/// Whether the string begins with the prefix.
pub fn starts_with(s: &str, p: &str) -> (r: bool)
    ensures
        r == has_prefix(s@, p@),
{
    strip_prefix(s, p).is_some()
}

/// Whether the string ends with the suffix.
pub fn ends_with(s: &str, p: &str) -> (r: bool)
    ensures
        r == has_suffix(s@, p@),
{
    let v = to_chars(s);
    let q = to_chars(p);
    if q.len() > v.len() {
        return false;
    }
    let off: usize = v.len() - q.len();
    let mut i: usize = 0;
    while i < q.len()
        invariant
            i <= q@.len() <= v@.len(),
            off == v@.len() - q@.len(),
            v@.len() <= usize::MAX,
            v@ == s@,
            q@ == p@,
            forall|k: int| 0 <= k < i ==> v@[off + k] == q@[k],
        decreases q@.len() - i,
    {
        if v[off + i] != q[i] {
            assert(s@.skip(off as int)[i as int] != p@[i as int]);
            return false;
        }
        i = i + 1;
    }
    assert(s@.skip(off as int) =~= p@);
    true
}

/// The Unicode `White_Space` property.
pub open spec fn is_white_space(c: char) -> bool {
    ||| 0x09 <= c as u32 <= 0x0D
    ||| c as u32 == 0x20
    ||| c as u32 == 0x85
    ||| c as u32 == 0xA0
    ||| c as u32 == 0x1680
    ||| 0x2000 <= c as u32 <= 0x200A
    ||| c as u32 == 0x2028
    ||| c as u32 == 0x2029
    ||| c as u32 == 0x202F
    ||| c as u32 == 0x205F
    ||| c as u32 == 0x3000
}

/// Whether a character is white space.
pub fn white_space(c: char) -> (r: bool)
    ensures
        r == is_white_space(c),
{
    let u: u32 = c as u32;
    (0x09 <= u && u <= 0x0D) || u == 0x20 || u == 0x85 || u == 0xA0 || u == 0x1680 || (0x2000 <= u
        && u <= 0x200A) || u == 0x2028 || u == 0x2029 || u == 0x202F || u == 0x205F || u == 0x3000
}

/// `s` without its leading white space.
pub open spec fn trim_front(s: Seq<char>) -> Seq<char>
    decreases s.len(),
{
    if s.len() > 0 && is_white_space(s[0]) {
        trim_front(s.skip(1))
    } else {
        s
    }
}

/// `s` without its trailing white space.
pub open spec fn trim_back(s: Seq<char>) -> Seq<char>
    decreases s.len(),
{
    if s.len() > 0 && is_white_space(s.last()) {
        trim_back(s.drop_last())
    } else {
        s
    }
}

/// `s` without white space at either end.
pub open spec fn trimmed(s: Seq<char>) -> Seq<char> {
    trim_back(trim_front(s))
}

/// The string without white space at either end.
pub fn trim(s: &str) -> (r: String)
    ensures
        r@ == trimmed(s@),
{
    let v = to_chars(s);
    let mut a: usize = 0;
    assert(v@.skip(0) =~= s@);
    while a < v.len() && white_space(v[a])
        invariant
            a <= v@.len(),
            v@ == s@,
            trim_front(s@) == trim_front(v@.skip(a as int)),
        decreases v@.len() - a,
    {
        assert(v@.skip(a as int).skip(1) =~= v@.skip(a + 1));
        a = a + 1;
    }
    let ghost front = trim_front(s@);
    assert(front == v@.skip(a as int));
    let mut b: usize = v.len();
    assert(v@.subrange(a as int, b as int) =~= front);
    while a < b && white_space(v[b - 1])
        invariant
            a <= b <= v@.len(),
            trim_back(front) == trim_back(v@.subrange(a as int, b as int)),
        decreases b,
    {
        assert(v@.subrange(a as int, b as int).last() == v@[b - 1]);
        assert(v@.subrange(a as int, b as int).drop_last() =~= v@.subrange(a as int, b - 1));
        b = b - 1;
    }
    if a < b {
        assert(v@.subrange(a as int, b as int).last() == v@[b - 1]);
    }
    from_chars(v.as_slice(), a, b)
}

/// The decimal digit of a number below ten.
pub open spec fn digit(n: nat) -> char {
    (('0' as u32) + n) as char
}

/// A number in decimal, without leading zeros.
pub open spec fn decimal(n: nat) -> Seq<char>
    decreases n,
{
    if n < 10 {
        seq![digit(n)]
    } else {
        decimal(n / 10).push(digit(n % 10))
    }
}

fn digit_char(n: u64) -> (c: char)
    requires
        n < 10,
    ensures
        c == digit(n as nat),
{
    match n {
        0 => '0',
        1 => '1',
        2 => '2',
        3 => '3',
        4 => '4',
        5 => '5',
        6 => '6',
        7 => '7',
        8 => '8',
        _ => '9',
    }
}

/// The number in decimal.
pub fn decimal_text(n: u64) -> (r: String)
    ensures
        r@ == decimal(n as nat),
    decreases n,
{
    if n < 10 {
        let mut r = String::new();
        r.push(digit_char(n));
        assert(r@ =~= decimal(n as nat));
        r
    } else {
        let mut r = decimal_text(n / 10);
        r.push(digit_char(n % 10));
        r
    }
}

/// `s` without the `c`s at its front.
pub open spec fn skip_front(s: Seq<char>, c: char) -> Seq<char>
    decreases s.len(),
{
    if s.len() > 0 && s[0] == c {
        skip_front(s.skip(1), c)
    } else {
        s
    }
}

/// `s` without the `c`s at its end.
pub open spec fn skip_back(s: Seq<char>, c: char) -> Seq<char>
    decreases s.len(),
{
    if s.len() > 0 && s.last() == c {
        skip_back(s.drop_last(), c)
    } else {
        s
    }
}

/// The string without the `c`s at its front.
pub fn trim_start_of(s: &str, c: char) -> (r: String)
    ensures
        r@ == skip_front(s@, c),
{
    let v = to_chars(s);
    let mut a: usize = 0;
    assert(v@.skip(0) =~= s@);
    while a < v.len() && v[a] == c
        invariant
            a <= v@.len(),
            v@ == s@,
            skip_front(s@, c) == skip_front(v@.skip(a as int), c),
        decreases v@.len() - a,
    {
        assert(v@.skip(a as int).skip(1) =~= v@.skip(a + 1));
        a = a + 1;
    }
    assert(v@.skip(a as int) =~= v@.subrange(a as int, v@.len() as int));
    from_chars(v.as_slice(), a, v.len())
}

/// The string without the `c`s at its end.
pub fn trim_end_of(s: &str, c: char) -> (r: String)
    ensures
        r@ == skip_back(s@, c),
{
    let v = to_chars(s);
    let mut b: usize = v.len();
    assert(v@.take(b as int) =~= s@);
    while 0 < b && v[b - 1] == c
        invariant
            b <= v@.len(),
            v@ == s@,
            skip_back(s@, c) == skip_back(v@.take(b as int), c),
        decreases b,
    {
        assert(v@.take(b as int).drop_last() =~= v@.take(b - 1));
        assert(v@.take(b as int).last() == v@[b - 1]);
        b = b - 1;
    }
    if 0 < b {
        assert(v@.take(b as int).last() == v@[b - 1]);
    }
    assert(v@.take(b as int) =~= v@.subrange(0, b as int));
    from_chars(v.as_slice(), 0, b)
}

/// `s` without a carriage return at its end.
pub open spec fn without_return(s: Seq<char>) -> Seq<char> {
    if s.len() > 0 && s.last() == '\r' {
        s.drop_last()
    } else {
        s
    }
}

/// The lines of a text. A line ends at a line feed, which is not part of it,
/// nor is a carriage return just before the line feed. The last line needs no
/// line feed.
pub open spec fn lines_of(s: Seq<char>) -> Seq<Seq<char>>
    decreases s.len(),
{
    if s.len() == 0 {
        seq![]
    } else {
        match s.index_of_first('\n') {
            Some(n) => if 0 <= n < s.len() {
                seq![without_return(s.take(n))] + lines_of(s.skip(n + 1))
            } else {
                seq![]
            },
            None => seq![s],
        }
    }
}

/// The lines of the text.
pub fn lines(s: &str) -> (r: Vec<String>)
    ensures
        views(r@) == lines_of(s@),
{
    let v = to_chars(s);
    let mut r: Vec<String> = Vec::new();
    let mut from: usize = 0;
    let mut i: usize = 0;
    assert(v@.skip(0) =~= s@);
    assert(views(r@) + lines_of(s@) =~= lines_of(s@));
    while i < v.len()
        invariant
            from <= i <= v@.len(),
            forall|k: int| from <= k < i ==> v@[k] != '\n',
            views(r@) + lines_of(v@.skip(from as int)) == lines_of(s@),
        decreases v@.len() - i,
    {
        if v[i] == '\n' {
            let ghost rest = v@.skip(from as int);
            let ghost before = r@;
            proof {
                crate::lists::lemma_first_index(rest, '\n', i - from);
                assert(rest.skip(i - from + 1) =~= v@.skip(i + 1));
                assert(rest.take(i - from) =~= v@.subrange(from as int, i as int));
            }
            let ghost line = v@.subrange(from as int, i as int);
            let to: usize = if i > from && v[i - 1] == '\r' {
                i - 1
            } else {
                i
            };
            proof {
                if i > from {
                    assert(line.last() == v@[i - 1]);
                    assert(line.drop_last() =~= v@.subrange(from as int, i - 1));
                }
            }
            r.push(from_chars(v.as_slice(), from, to));
            proof {
                lemma_views_push(before, r@.last());
                assert(r@ =~= before.push(r@.last()));
                assert(views(r@) + lines_of(v@.skip(i + 1)) =~= views(before) + (seq![
                    without_return(line),
                ] + lines_of(v@.skip(i + 1))));
            }
            from = i + 1;
        }
        i = i + 1;
    }
    let ghost rest = v@.skip(from as int);
    if from < v.len() {
        let ghost before = r@;
        proof {
            crate::lists::lemma_no_index(rest, '\n');
        }
        r.push(from_chars(v.as_slice(), from, v.len()));
        proof {
            assert(v@.subrange(from as int, v@.len() as int) =~= rest);
            lemma_views_push(before, r@.last());
            assert(r@ =~= before.push(r@.last()));
            assert(views(r@) =~= views(before) + seq![rest]);
        }
    } else {
        assert(rest =~= seq![]);
        assert(views(r@) =~= views(r@) + lines_of(rest));
    }
    r
}

/// Whether `p` occurs somewhere in `s`.
pub open spec fn occurs(s: Seq<char>, p: Seq<char>) -> bool {
    exists|i: int| 0 <= i && #[trigger] has_prefix(s.skip(i), p) && i <= s.len()
}

/// Whether the string holds the given text somewhere.
pub fn contains(s: &str, p: &str) -> (r: bool)
    ensures
        r == occurs(s@, p@),
{
    let v = to_chars(s);
    let mut i: usize = 0;
    loop
        invariant
            i <= v@.len(),
            v@ == s@,
            forall|k: int| 0 <= k < i ==> !(#[trigger] has_prefix(s@.skip(k), p@)),
        decreases v@.len() - i,
    {
        let rest = from_chars(v.as_slice(), i, v.len());
        assert(rest@ =~= s@.skip(i as int));
        if starts_with(rest.as_str(), p) {
            assert(has_prefix(s@.skip(i as int), p@));
            return true;
        }
        if i == v.len() {
            return false;
        }
        i = i + 1;
    }
}

/// Where `p` occurs first in `s`.
pub open spec fn first_place(s: Seq<char>, p: Seq<char>) -> Option<int>
    decreases s.len(),
{
    if has_prefix(s, p) {
        Some(0)
    } else if s.len() == 0 {
        None
    } else {
        match first_place(s.skip(1), p) {
            Some(n) => Some(n + 1),
            None => None,
        }
    }
}

/// What is before the first `p` in `s` and what is behind it.
pub open spec fn split_first(s: Seq<char>, p: Seq<char>) -> Option<(Seq<char>, Seq<char>)> {
    match first_place(s, p) {
        Some(n) => Some((s.take(n), s.skip(n + p.len()))),
        None => None,
    }
}

/// What is before the first separator and what is behind it.
pub fn split_once(s: &str, p: &str) -> (r: Option<(String, String)>)
    ensures
        match r {
            Some((a, b)) => split_first(s@, p@) == Some((a@, b@)),
            None => split_first(s@, p@) is None,
        },
{
    let v = to_chars(s);
    let n: usize = to_chars(p).len();
    let mut i: usize = 0;
    assert(s@.skip(0) =~= s@);
    loop
        invariant
            i <= v@.len(),
            v@ == s@,
            n == p@.len(),
            first_place(s@, p@) == (match first_place(s@.skip(i as int), p@) {
                Some(k) => Some(k + i),
                None => None,
            }),
        decreases v@.len() - i,
    {
        let rest = from_chars(v.as_slice(), i, v.len());
        assert(rest@ =~= s@.skip(i as int));
        if starts_with(rest.as_str(), p) {
            let before = from_chars(v.as_slice(), 0, i);
            let behind = from_chars(v.as_slice(), i + n, v.len());
            assert(before@ =~= s@.take(i as int));
            assert(behind@ =~= s@.skip(i + n));
            return Some((before, behind));
        }
        if i == v.len() {
            return None;
        }
        assert(s@.skip(i as int).skip(1) =~= s@.skip(i + 1));
        i = i + 1;
    }
}

/// An upper-case ASCII letter in lower case; any other character as it is.
pub open spec fn lower_char(c: char) -> char {
    if 'A' as u32 <= c as u32 <= 'Z' as u32 {
        (c as u32 + 32) as char
    } else {
        c
    }
}

/// A text with its upper-case ASCII letters in lower case.
pub open spec fn lowered(s: Seq<char>) -> Seq<char> {
    Seq::new(s.len(), |i: int| lower_char(s[i]))
}

/// The string with its upper-case ASCII letters in lower case.
pub fn ascii_lowercase(s: &str) -> (r: String)
    ensures
        r@ == lowered(s@),
{
    let v = to_chars(s);
    let mut r = String::new();
    let mut i: usize = 0;
    while i < v.len()
        invariant
            i <= v@.len(),
            v@ == s@,
            r@ == lowered(s@).take(i as int),
        decreases v@.len() - i,
    {
        let c = v[i];
        let u: u32 = c as u32;
        if 65 <= u && u <= 90 {
            let b: u8 = (u + 32) as u8;
            assert(b as char == (c as u32 + 32) as char);
            r.push(b as char);
        } else {
            r.push(c);
        }
        i = i + 1;
        assert(lowered(s@).take(i as int) =~= lowered(s@).take(i - 1).push(lowered(s@)[i - 1]));
    }
    assert(lowered(s@).take(i as int) =~= lowered(s@));
    r
}

/// Whether a character is an ASCII letter or digit.
pub open spec fn is_alphanumeric(c: char) -> bool {
    ||| '0' as u32 <= c as u32 <= '9' as u32
    ||| 'A' as u32 <= c as u32 <= 'Z' as u32
    ||| 'a' as u32 <= c as u32 <= 'z' as u32
}

/// Whether a character is an ASCII letter or digit.
pub fn ascii_alphanumeric(c: char) -> (r: bool)
    ensures
        r == is_alphanumeric(c),
{
    let u: u32 = c as u32;
    (48 <= u && u <= 57) || (65 <= u && u <= 90) || (97 <= u && u <= 122)
}

} // verus!
