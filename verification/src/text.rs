//! Text helpers over `str`, each stated over the characters of its arguments.

use vstd::prelude::*;
use vstd::string::*;

verus! {

/// A text in contracts: its characters in order.
pub type Text = Seq<char>;

/// The markup that stands for a line feed in a page.
pub open spec fn line_break() -> Text {
    "<br />"@
}

/// `s` with every line feed replaced by the markup of a line break.
pub open spec fn with_breaks(s: Text) -> Text
    decreases s.len(),
{
    if s.len() == 0 {
        Seq::empty()
    } else if s.last() == '\n' {
        with_breaks(s.drop_last()) + line_break()
    } else {
        with_breaks(s.drop_last()).push(s.last())
    }
}

/// The pieces of `s` between the occurrences of `sep`: one more piece than
/// there are separators, empty pieces included.
pub open spec fn split_on(s: Text, sep: char) -> Seq<Text>
    decreases s.len(),
{
    if s.len() == 0 {
        seq![Seq::empty()]
    } else if s.last() == sep {
        split_on(s.drop_last(), sep).push(Seq::empty())
    } else {
        let before = split_on(s.drop_last(), sep);
        before.drop_last().push(before.last().push(s.last()))
    }
}

/// The texts of `parts` in order, with `sep` between neighbours.
pub open spec fn joined(parts: Seq<Text>, sep: Text) -> Text
    decreases parts.len(),
{
    if parts.len() == 0 {
        Seq::empty()
    } else if parts.len() == 1 {
        parts[0]
    } else {
        joined(parts.drop_last(), sep) + sep + parts.last()
    }
}

/// Whether `s` begins with `prefix`.
pub open spec fn begins_with(s: Text, prefix: Text) -> bool {
    prefix.len() <= s.len() && s.take(prefix.len() as int) == prefix
}

/// Whether `part` stands somewhere in `text`, unbroken.
pub open spec fn includes(text: Text, part: Text) -> bool {
    exists|at: int|
        0 <= at && at + part.len() <= text.len() && #[trigger] text.subrange(
            at,
            at + part.len(),
        ) == part
}

/// A text stands in itself.
pub proof fn includes_itself(part: Text)
    ensures
        includes(part, part),
{
    assert(part.subrange(0int, 0int + part.len()) == part);
}

/// What stands in a text stands in every text that begins with it.
pub proof fn includes_in_front(text: Text, rest: Text, part: Text)
    requires
        includes(text, part),
    ensures
        includes(text + rest, part),
{
    let at = choose|at: int|
        0 <= at && at + part.len() <= text.len() && #[trigger] text.subrange(
            at,
            at + part.len(),
        ) == part;
    assert((text + rest).subrange(at, at + part.len()) == text.subrange(at, at + part.len()));
}

/// What stands in a text stands in every text that ends with it.
pub proof fn includes_at_end(front: Text, text: Text, part: Text)
    requires
        includes(text, part),
    ensures
        includes(front + text, part),
{
    let at = choose|at: int|
        0 <= at && at + part.len() <= text.len() && #[trigger] text.subrange(
            at,
            at + part.len(),
        ) == part;
    let moved = front.len() + at;
    assert((front + text).subrange(moved, moved + part.len()) == text.subrange(
        at,
        at + part.len(),
    ));
}

/// A stretch without line feeds is copied as it is.
proof fn with_breaks_plain(s: Text, from: int, to: int)
    requires
        0 <= from <= to <= s.len(),
        forall|k: int| from <= k < to ==> s[k] != '\n',
    ensures
        with_breaks(s.take(to)) == with_breaks(s.take(from)) + s.subrange(from, to),
    decreases to - from,
{
    if from < to {
        with_breaks_plain(s, from, to - 1);
        assert(s.take(to).drop_last() == s.take(to - 1));
        assert(s.subrange(from, to) == s.subrange(from, to - 1).push(s[to - 1]));
    } else {
        assert(s.subrange(from, to) == Seq::<char>::empty());
    }
}

/// A stretch without separators only lengthens the last piece.
proof fn split_on_plain(s: Text, sep: char, from: int, to: int)
    requires
        0 <= from <= to <= s.len(),
        forall|k: int| from <= k < to ==> s[k] != sep,
    ensures
        split_on(s.take(to), sep).len() == split_on(s.take(from), sep).len() > 0,
        split_on(s.take(to), sep).drop_last() == split_on(s.take(from), sep).drop_last(),
        split_on(s.take(to), sep).last() == split_on(s.take(from), sep).last() + s.subrange(
            from,
            to,
        ),
    decreases to - from,
{
    split_on_nonempty(s.take(from), sep);
    if from < to {
        split_on_plain(s, sep, from, to - 1);
        assert(s.take(to).drop_last() == s.take(to - 1));
        assert(s.subrange(from, to) == s.subrange(from, to - 1).push(s[to - 1]));
        let before = split_on(s.take(to - 1), sep);
        assert(before.drop_last().push(before.last().push(s[to - 1])).drop_last()
            == before.drop_last());
    } else {
        assert(s.subrange(from, to) == Seq::<char>::empty());
    }
}

/// A text without the separator is one piece.
pub proof fn split_on_without_separator(s: Text, sep: char)
    requires
        forall|k: int| 0 <= k < s.len() ==> s[k] != sep,
    ensures
        split_on(s, sep) == seq![s],
{
    split_on_plain(s, sep, 0, s.len() as int);
    assert(s.take(s.len() as int) == s);
    assert(s.take(0) == Seq::<char>::empty());
    assert(s.subrange(0, s.len() as int) == s);
    assert(split_on(s.take(0), sep).last() + s == s);
    assert(split_on(s, sep) =~= seq![s]);
}

/// Splitting always yields at least one piece.
proof fn split_on_nonempty(s: Text, sep: char)
    ensures
        split_on(s, sep).len() > 0,
    decreases s.len(),
{
    if s.len() > 0 {
        split_on_nonempty(s.drop_last(), sep);
    }
}

/// Whether two texts hold the same characters.
pub fn text_eq(a: &str, b: &str) -> (same: bool)
    ensures
        same == (a@ == b@),
{
    let left = a.to_owned();
    let right = b.to_owned();
    left == right
}

/// Whether `s` begins with `prefix`.
pub fn has_prefix(s: &str, prefix: &str) -> (found: bool)
    ensures
        found == begins_with(s@, prefix@),
{
    let wanted: usize = prefix.unicode_len();
    if s.unicode_len() < wanted {
        false
    } else {
        text_eq(s.substring_char(0, wanted), prefix)
    }
}

/// What is left of `s` behind its first `count` characters.
pub fn skip_chars(s: &str, count: usize) -> (rest: String)
    requires
        count <= s@.len(),
    ensures
        rest@ == s@.skip(count as int),
{
    let total: usize = s.unicode_len();
    s.substring_char(count, total).to_owned()
}

/// Replaces every line feed of `s` by the markup of a line break.
pub fn break_lines(s: &str) -> (out: String)
    ensures
        out@ == with_breaks(s@),
{
    let total: usize = s.unicode_len();
    let mut out = String::new();
    let mut start: usize = 0;
    let mut at: usize = 0;
    for c in it: s.chars()
        invariant
            total == s@.len(),
            it.seq() == s@,
            at == it.index(),
            start <= at <= total,
            out@ == with_breaks(s@.take(start as int)),
            forall|k: int| start <= k < at ==> s@[k] != '\n',
    {
        if c == '\n' {
            proof {
                with_breaks_plain(s@, start as int, at as int);
                assert(s@.take(at + 1).drop_last() == s@.take(at as int));
            }
            out.append(s.substring_char(start, at));
            out.append("<br />");
            start = at + 1;
        }
        at = at + 1;
    }
    proof {
        with_breaks_plain(s@, start as int, total as int);
        assert(s@.take(total as int) == s@);
    }
    out.append(s.substring_char(start, total));
    out
}

/// Cuts `s` at every occurrence of `sep`.
pub fn split(s: &str, sep: char) -> (parts: Vec<String>)
    ensures
        parts.deep_view() == split_on(s@, sep),
{
    let total: usize = s.unicode_len();
    let mut parts: Vec<String> = Vec::new();
    let mut start: usize = 0;
    let mut at: usize = 0;
    for c in it: s.chars()
        invariant
            total == s@.len(),
            it.seq() == s@,
            at == it.index(),
            start <= at <= total,
            parts.deep_view() == split_on(s@.take(start as int), sep).drop_last(),
            split_on(s@.take(start as int), sep).last() == Seq::<char>::empty(),
            forall|k: int| start <= k < at ==> s@[k] != sep,
    {
        if c == sep {
            proof {
                split_on_plain(s@, sep, start as int, at as int);
                assert(s@.take(at + 1).drop_last() == s@.take(at as int));
                let done = split_on(s@.take(at as int), sep);
                assert(done == done.drop_last().push(done.last()));
                assert(split_on(s@.take(at + 1), sep).drop_last() == done);
            }
            let piece = s.substring_char(start, at).to_owned();
            let ghost before = parts.deep_view();
            parts.push(piece);
            assert(parts.deep_view() == before.push(piece@));
            start = at + 1;
        }
        at = at + 1;
    }
    proof {
        split_on_plain(s@, sep, start as int, total as int);
        assert(s@.take(total as int) == s@);
        let done = split_on(s@, sep);
        assert(done == done.drop_last().push(done.last()));
    }
    let piece = s.substring_char(start, total).to_owned();
    let ghost before = parts.deep_view();
    parts.push(piece);
    assert(parts.deep_view() == before.push(piece@));
    parts
}

/// Writes the texts of `parts` one after another, with `sep` between them.
pub fn join(parts: &Vec<String>, sep: &str) -> (out: String)
    ensures
        out@ == joined(parts.deep_view(), sep@),
{
    let mut out = String::new();
    let mut at: usize = 0;
    while at < parts.len()
        invariant
            at <= parts.len(),
            out@ == joined(parts.deep_view().take(at as int), sep@),
        decreases parts.len() - at,
    {
        proof {
            let upto = parts.deep_view().take(at + 1);
            assert(upto.drop_last() == parts.deep_view().take(at as int));
            assert(upto.last() == parts[at as int]@);
        }
        if at > 0 {
            out.append(sep);
        }
        out.append(parts[at].as_str());
        at = at + 1;
    }
    assert(parts.deep_view().take(at as int) == parts.deep_view());
    out
}

} // verus!
