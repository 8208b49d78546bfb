//! Text as sequences of characters: the few operations on strings that the
//! screen model and the reports are built from.

use vstd::prelude::*;
use vstd::string::StringExecFns;

verus! {

/// `std::string::String::push` appends the character to the end of the string.
pub assume_specification[ std::string::String::push ](s: &mut std::string::String, c: char)
    ensures
        final(s)@ == old(s)@.push(c),
;

/// `std::string::String::pop` removes the last character and returns it, and
/// returns `None` and leaves the string as it is if it is empty.
pub assume_specification[ std::string::String::pop ](s: &mut std::string::String) -> (c: Option<
    char,
>)
    ensures
        old(s)@.len() == 0 ==> c is None && final(s)@ == old(s)@,
        old(s)@.len() > 0 ==> c == Some(old(s)@.last()) && final(s)@ == old(s)@.drop_last(),
;

/// `text` without the line break at its end, if it ends in one.
pub open spec fn without_final_newline(text: Seq<char>) -> Seq<char> {
    if text.len() > 0 && text.last() == '\n' {
        text.drop_last()
    } else {
        text
    }
}

/// Removes one line break from the end of `text`, if it ends in one.
pub fn strip_newline(text: &mut String)
    ensures
        final(text)@ == without_final_newline(old(text)@),
{
    match text.pop() {
        Some(last) => {
            if last != '\n' {
                text.push(last);
            }
        },
        None => {},
    }
}

/// The texts that the strings hold.
pub open spec fn texts(strings: Seq<String>) -> Seq<Seq<char>> {
    Seq::new(strings.len(), |i: int| strings[i]@)
}

/// The pieces of `s` between the occurrences of `sep`, in their order. There
/// is one piece more than there are separators, so the empty text has one
/// empty piece.
pub open spec fn split_on(s: Seq<char>, sep: char) -> Seq<Seq<char>>
    decreases s.len(),
{
    if s.len() == 0 {
        seq![Seq::empty()]
    } else {
        let front = split_on(s.drop_last(), sep);
        if s.last() == sep {
            front.push(Seq::empty())
        } else {
            front.drop_last().push(front.last().push(s.last()))
        }
    }
}

/// The pieces put together again, with `sep` between one and the next.
pub open spec fn join_with(pieces: Seq<Seq<char>>, sep: char) -> Seq<char>
    decreases pieces.len(),
{
    if pieces.len() == 0 {
        Seq::empty()
    } else if pieces.len() == 1 {
        pieces[0]
    } else {
        join_with(pieces.drop_last(), sep).push(sep) + pieces.last()
    }
}

/// Splitting loses nothing: there is at least one piece, no piece holds the
/// separator, and the pieces joined by it are the text.
pub proof fn lemma_split_on(s: Seq<char>, sep: char)
    ensures
        split_on(s, sep).len() >= 1,
        forall|i: int, j: int|
            0 <= i < split_on(s, sep).len() && 0 <= j < split_on(s, sep)[i].len() ==> split_on(
                s,
                sep,
            )[i][j] != sep,
        join_with(split_on(s, sep), sep) == s,
    decreases s.len(),
{
    if s.len() > 0 {
        let front = split_on(s.drop_last(), sep);
        lemma_split_on(s.drop_last(), sep);
        if s.last() == sep {
            assert(front.push(Seq::empty()).drop_last() =~= front);
        } else {
            let all = front.drop_last().push(front.last().push(s.last()));
            assert(all.drop_last() =~= front.drop_last());
            if front.len() > 1 {
                let head = join_with(front.drop_last(), sep).push(sep);
                assert(head + front.last().push(s.last()) =~= (head + front.last()).push(
                    s.last(),
                ));
            }
        }
    }
}

/// The lines one after the other, each with `prefix` before it and a line
/// break after it.
pub open spec fn lines_with(prefix: Seq<char>, lines: Seq<Seq<char>>) -> Seq<char>
    decreases lines.len(),
{
    if lines.len() == 0 {
        Seq::empty()
    } else {
        lines_with(prefix, lines.drop_last()) + prefix + lines.last() + seq!['\n']
    }
}

/// The lines that are not empty, in their order.
pub open spec fn nonempty(lines: Seq<Seq<char>>) -> Seq<Seq<char>> {
    lines.filter(|line: Seq<char>| line.len() > 0)
}

/// Splits `s` at its line breaks.
pub fn split_lines(s: &str) -> (lines: Vec<String>)
    ensures
        texts(lines@) == split_on(s@, '\n'),
{
    broadcast use vstd::string::group_string_axioms;

    let mut lines: Vec<String> = Vec::new();
    let mut current = String::new();
    let chars = s.chars();
    for c in it: chars
        invariant
            it.seq() == s@,
            texts(lines@).push(current@) == split_on(s@.subrange(0, it.index()), '\n'),
    {
        let ghost before = s@.subrange(0, it.index());
        let ghost now = s@.subrange(0, it.index() + 1);
        assert(now.drop_last() =~= before);
        if c == '\n' {
            lines.push(current);
            current = String::new();
        } else {
            current.push(c);
        }
    }
    assert(s@.subrange(0, s@.len() as int) =~= s@);
    lines.push(current);
    lines
}

/// Appends the lines to `out`, each with `prefix` before it and a line break
/// after it.
pub fn push_lines(out: &mut String, prefix: &str, lines: &Vec<String>)
    ensures
        final(out)@ == old(out)@ + lines_with(prefix@, texts(lines@)),
{
    let mut i: usize = 0;
    while i < lines.len()
        invariant
            i <= lines.len(),
            out@ == old(out)@ + lines_with(prefix@, texts(lines@.take(i as int))),
        decreases lines.len() - i,
    {
        let ghost before = texts(lines@.take(i as int));
        let ghost now = texts(lines@.take(i + 1));
        assert(now.drop_last() =~= before);
        out.append(prefix);
        out.append(lines[i].as_str());
        out.push('\n');
        i += 1;
    }
    assert(lines@.take(i as int) =~= lines@);
}

/// Appends the lines that are not empty to `out`, each with `prefix` before
/// it and a line break after it.
pub fn push_nonempty_lines(out: &mut String, prefix: &str, lines: &Vec<String>)
    ensures
        final(out)@ == old(out)@ + lines_with(prefix@, nonempty(texts(lines@))),
{
    let mut i: usize = 0;
    while i < lines.len()
        invariant
            i <= lines.len(),
            out@ == old(out)@ + lines_with(prefix@, nonempty(texts(lines@.take(i as int)))),
        decreases lines.len() - i,
    {
        let ghost before = texts(lines@.take(i as int));
        let ghost now = texts(lines@.take(i + 1));
        assert(now.drop_last() =~= before);
        reveal(Seq::filter);
        if !lines[i].as_str().is_empty() {
            assert(nonempty(now).drop_last() =~= nonempty(before));
            out.append(prefix);
            out.append(lines[i].as_str());
            out.push('\n');
        }
        i += 1;
    }
    assert(lines@.take(i as int) =~= lines@);
}

} // verus!
