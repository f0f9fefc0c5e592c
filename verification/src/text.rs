//! Text as sequences of characters: the few operations on strings that the
//! harness and the runner are built from.

use vstd::prelude::*;

verus! {

/// `String::push` of the standard library: appends one character and leaves
/// the rest of the string as it is.
#[verifier::external_body]
pub(crate) fn push(text: &mut String, c: char)
    ensures
        final(text)@ == old(text)@.push(c),
{
    text.push(c)
}

/// The texts of `strings`, in order.
pub open spec fn views(strings: Seq<String>) -> Seq<Seq<char>> {
    strings.map_values(|text: String| text@)
}

/// The characters of `text`, in order.
pub fn chars(text: &str) -> (all: Vec<char>)
    ensures
        all@ == text@,
{
    let mut all: Vec<char> = Vec::new();
    for c in it: text.chars()
        invariant
            it.seq() == text@,
            all@ == text@.take(it.index()),
    {
        all.push(c);
    }
    all
}

/// Appends the characters of `chars` to `text`, in order.
pub fn append_chars(text: &mut String, chars: &[char])
    ensures
        final(text)@ == old(text)@ + chars@,
{
    let mut i: usize = 0;
    while i < chars.len()
        invariant
            i <= chars.len(),
            text@ == old(text)@ + chars@.take(i as int),
        decreases chars.len() - i,
    {
        push(text, chars[i]);
        i += 1;
    }
}

/// Whether `pattern` stands in `text` at position `at`.
pub open spec fn occurs_at(pattern: Seq<char>, text: Seq<char>, at: int) -> bool {
    &&& 0 <= at
    &&& at + pattern.len() <= text.len()
    &&& text.subrange(at, at + pattern.len()) == pattern
}

/// Whether `pattern` stands somewhere in `text`. The empty pattern does, in
/// every text.
pub open spec fn occurs(pattern: Seq<char>, text: Seq<char>) -> bool {
    exists|at: int| occurs_at(pattern, text, at)
}

/// Whether `pattern` stands in `text` at position `at`, which must leave room
/// for it.
fn matches_at(text: &[char], pattern: &[char], at: usize) -> (found: bool)
    requires
        at + pattern@.len() <= text@.len(),
    ensures
        found == occurs_at(pattern@, text@, at as int),
{
    let length: usize = text.len();
    let mut j: usize = 0;
    while j < pattern.len()
        invariant
            j <= pattern@.len(),
            at + pattern@.len() <= text@.len(),
            length == text@.len(),
            forall|k: int| 0 <= k < j ==> text@[at + k] == pattern@[k],
        decreases pattern.len() - j,
    {
        if text[at + j] != pattern[j] {
            return false;
        }
        j += 1;
    }
    assert(text@.subrange(at as int, at + pattern@.len()) =~= pattern@);
    true
}

/// Whether `text` begins with `prefix`.
pub fn starts_with(text: &str, prefix: &str) -> (found: bool)
    ensures
        found == prefix@.is_prefix_of(text@),
{
    let hay = chars(text);
    let needle = chars(prefix);
    if needle.len() > hay.len() {
        return false;
    }
    matches_at(hay.as_slice(), needle.as_slice(), 0)
}

/// Whether `pattern` stands somewhere in `text`.
pub fn contains(text: &str, pattern: &str) -> (found: bool)
    ensures
        found == occurs(pattern@, text@),
{
    let hay = chars(text);
    let needle = chars(pattern);
    if needle.len() > hay.len() {
        return false;
    }
    let last: usize = hay.len() - needle.len();
    let mut at: usize = 0;
    while at < last
        invariant
            hay@ == text@,
            needle@ == pattern@,
            last == hay@.len() - needle@.len(),
            at <= last,
            forall|k: int| 0 <= k < at ==> !occurs_at(pattern@, text@, k),
        decreases last - at,
    {
        if matches_at(hay.as_slice(), needle.as_slice(), at) {
            return true;
        }
        at += 1;
    }
    matches_at(hay.as_slice(), needle.as_slice(), last)
}

/// The decimal digit for `d`, which is below ten.
pub open spec fn digit(d: nat) -> char {
    (48 + d) as char
}

/// The decimal digits of a number that is not zero, and no digit for zero.
pub open spec fn significant_digits(n: nat) -> Seq<char>
    decreases n,
{
    if n == 0 {
        Seq::empty()
    } else {
        significant_digits(n / 10).push(digit(n % 10))
    }
}

/// `n` in decimal notation: its digits without leading zeros, and `0` for
/// zero.
pub open spec fn decimal_digits(n: nat) -> Seq<char> {
    if n == 0 {
        seq!['0']
    } else {
        significant_digits(n)
    }
}

/// Writes `n` in decimal notation.
pub fn decimal(n: usize) -> (text: String)
    ensures
        text@ == decimal_digits(n as nat),
{
    let mut text = String::new();
    if n == 0 {
        push(&mut text, '0');
        return text;
    }
    // The digits from the last to the first.
    let mut digits: Vec<char> = Vec::new();
    let mut rest: usize = n;
    while rest > 0
        invariant
            significant_digits(n as nat) == significant_digits(rest as nat) + digits@.reverse(),
        decreases rest,
    {
        let d: u8 = (rest % 10) as u8;
        let c: char = (48u8 + d) as char;
        proof {
            let before = digits@;
            let after = digits@.push(c);
            assert(significant_digits((rest / 10) as nat).push(c) + before.reverse()
                =~= significant_digits((rest / 10) as nat) + after.reverse());
        }
        digits.push(c);
        rest = rest / 10;
    }
    let mut i: usize = digits.len();
    while i > 0
        invariant
            i <= digits@.len(),
            text@ == digits@.reverse().take(digits@.len() - i),
        decreases i,
    {
        i -= 1;
        push(&mut text, digits[i]);
    }
    text
}

/// How many characters stand before the first line feed of `text`; all of
/// them if it has none.
pub open spec fn line_len(text: Seq<char>) -> nat
    decreases text.len(),
{
    if text.len() == 0 || text[0] == '\n' {
        0
    } else {
        1 + line_len(text.skip(1))
    }
}

/// A line without the carriage return that ended it, if one did.
pub open spec fn without_return(line: Seq<char>) -> Seq<char> {
    if line.len() > 0 && line.last() == '\r' {
        line.drop_last()
    } else {
        line
    }
}

/// The lines of `text`. A line ends at a line feed, or at a carriage return
/// that a line feed follows; neither belongs to the line. What follows the
/// last line feed is a line too, unless it is empty.
pub open spec fn lines(text: Seq<char>) -> Seq<Seq<char>>
    decreases text.len(),
{
    let first = line_len(text);
    if text.len() == 0 {
        Seq::empty()
    } else if first >= text.len() {
        seq![text]
    } else {
        seq![without_return(text.take(first as int))] + lines(text.skip(first + 1 as int))
    }
}

/// A line behind four spaces, and ended by a line feed.
pub open spec fn indented(line: Seq<char>) -> Seq<char> {
    seq![' ', ' ', ' ', ' '] + line + seq!['\n']
}

/// The lines of `text`, each indented, one after the other.
pub open spec fn tabbed(text: Seq<char>) -> Seq<char> {
    lines(text).map_values(|line: Seq<char>| indented(line)).flatten()
}

/// What follows the first character of a text without a line feed has no
/// line feed either.
proof fn lemma_plain_tail(line: Seq<char>)
    requires
        !line.contains('\n'),
        line.len() > 0,
    ensures
        !line.skip(1).contains('\n'),
{
    if line.skip(1).contains('\n') {
        let i = choose|i: int| 0 <= i < line.skip(1).len() && line.skip(1)[i] == '\n';
        assert(line[i + 1] == '\n');
    }
}

/// A text without a line feed is one line long.
proof fn lemma_line_len_plain(line: Seq<char>)
    requires
        !line.contains('\n'),
    ensures
        line_len(line) == line.len(),
    decreases line.len(),
{
    if line.len() > 0 {
        lemma_plain_tail(line);
        lemma_line_len_plain(line.skip(1));
    }
}

/// The first line of a text ends at its first line feed.
proof fn lemma_line_len_first(line: Seq<char>, rest: Seq<char>)
    requires
        !line.contains('\n'),
    ensures
        line_len(line + seq!['\n'] + rest) == line.len(),
    decreases line.len(),
{
    let text = line + seq!['\n'] + rest;
    if line.len() > 0 {
        lemma_plain_tail(line);
        assert(text.skip(1) =~= line.skip(1) + seq!['\n'] + rest);
        lemma_line_len_first(line.skip(1), rest);
    }
}

/// Indenting a text whose first line is ended by a line feed: that line,
/// indented, and then the rest, indented.
proof fn lemma_tabbed_first(line: Seq<char>, rest: Seq<char>)
    requires
        !line.contains('\n'),
    ensures
        tabbed(line + seq!['\n'] + rest) == indented(without_return(line)) + tabbed(rest),
{
    let text = line + seq!['\n'] + rest;
    let indent = |line: Seq<char>| indented(line);
    lemma_line_len_first(line, rest);
    assert(text.take(line.len() as int) =~= line);
    assert(text.skip(line.len() + 1 as int) =~= rest);
    let head = seq![without_return(line)];
    assert((head + lines(rest)).map_values(indent) =~= seq![indent(without_return(line))] + lines(
        rest,
    ).map_values(indent));
    lemma_flatten_first(indent(without_return(line)), lines(rest).map_values(indent));
}

/// Indenting a text without a line feed: the text, indented, unless it is
/// empty.
proof fn lemma_tabbed_last(line: Seq<char>)
    requires
        !line.contains('\n'),
    ensures
        tabbed(line) == if line.len() == 0 {
            Seq::empty()
        } else {
            indented(line)
        },
{
    let indent = |line: Seq<char>| indented(line);
    lemma_line_len_plain(line);
    if line.len() > 0 {
        assert(lines(line).map_values(indent) =~= seq![indented(line)] + Seq::<Seq<char>>::empty());
        lemma_flatten_first(indented(line), Seq::<Seq<char>>::empty());
    }
}

/// Flattening a sequence of texts puts the first before the others.
proof fn lemma_flatten_first(first: Seq<char>, others: Seq<Seq<char>>)
    ensures
        (seq![first] + others).flatten() == first + others.flatten(),
{
    let all = seq![first] + others;
    assert(all.drop_first() =~= others);
}

/// Indents every line of `text` by four spaces and ends it with a line feed.
pub fn tab(text: &str) -> (result: String)
    ensures
        result@ == tabbed(text@),
{
    let all = chars(text);
    let mut result = String::new();
    let mut line: Vec<char> = Vec::new();
    let mut i: usize = 0;
    assert(line@ + all@.skip(0) =~= text@);
    while i < all.len()
        invariant
            all@ == text@,
            i <= all@.len(),
            !line@.contains('\n'),
            tabbed(text@) == result@ + tabbed(line@ + all@.skip(i as int)),
        decreases all.len() - i,
    {
        let c = all[i];
        let ghost rest = all@.skip(i + 1);
        if c == '\n' {
            proof {
                lemma_tabbed_first(line@, rest);
                assert(line@ + all@.skip(i as int) =~= line@ + seq!['\n'] + rest);
            }
            let length = line.len();
            if length > 0 && line[length - 1] == '\r' {
                line.pop();
            }
            append_line(&mut result, line.as_slice());
            line = Vec::new();
        } else {
            proof {
                let longer = line@.push(c);
                assert(longer + rest =~= line@ + all@.skip(i as int));
                assert(!longer.contains('\n')) by {
                    if longer.contains('\n') {
                        let k = choose|k: int| 0 <= k < longer.len() && longer[k] == '\n';
                        assert(line@.contains(line@[k]));
                    }
                }
            }
            line.push(c);
        }
        i += 1;
    }
    proof {
        lemma_tabbed_last(line@);
    }
    if line.len() > 0 {
        append_line(&mut result, line.as_slice());
    }
    result
}

/// Appends `line`, indented, to `text`.
fn append_line(text: &mut String, line: &[char])
    ensures
        final(text)@ == old(text)@ + indented(line@),
{
    push(text, ' ');
    push(text, ' ');
    push(text, ' ');
    push(text, ' ');
    append_chars(text, line);
    push(text, '\n');
}

} // verus!
