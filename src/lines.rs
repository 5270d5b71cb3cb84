//! The session list: the multiplexer's listing, one session name per line.
use vstd::prelude::*;

verus! {

/// The pieces of `s` between newline characters, in order. There is always
/// at least one: the text after the last newline, possibly empty.
pub open spec fn pieces(s: Seq<char>) -> Seq<Seq<char>>
    decreases s.len(),
{
    if s.len() == 0 {
        seq![Seq::empty()]
    } else {
        let p = pieces(s.drop_last());
        if s.last() == '\n' {
            p.push(Seq::empty())
        } else {
            p.update(p.len() - 1, p.last().push(s.last()))
        }
    }
}

/// A line that a newline ended loses the carriage return just before it.
pub open spec fn strip_cr(line: Seq<char>) -> Seq<char> {
    if line.len() > 0 && line.last() == '\r' {
        line.drop_last()
    } else {
        line
    }
}

/// The lines of `s`: split at each `\n` (a `\r\n` counts as one line end),
/// with the text after the last line end kept only when it is not empty.
pub open spec fn lines_of(s: Seq<char>) -> Seq<Seq<char>> {
    let p = pieces(s);
    let ended = p.drop_last().map_values(|l: Seq<char>| strip_cr(l));
    if p.last().len() == 0 {
        ended
    } else {
        ended.push(p.last())
    }
}

/// What a list of strings holds, as character sequences.
pub open spec fn texts(v: Seq<String>) -> Seq<Seq<char>> {
    v.map_values(|l: String| l@)
}

/// The text that lists `names`, each followed by a newline.
pub open spec fn joined(names: Seq<Seq<char>>) -> Seq<char>
    decreases names.len(),
{
    if names.len() == 0 {
        Seq::empty()
    } else {
        joined(names.drop_last()) + names.last() + seq!['\n']
    }
}

/// A name that a listing can carry on a line of its own: no newline in it,
/// and no carriage return at its end.
pub open spec fn is_line_name(name: Seq<char>) -> bool {
    &&& forall|k: int| 0 <= k < name.len() ==> name[k] != '\n'
    &&& !(name.len() > 0 && name.last() == '\r')
}

proof fn lemma_pieces_nonempty(s: Seq<char>)
    ensures
        pieces(s).len() >= 1,
    decreases s.len(),
{
    if s.len() > 0 {
        lemma_pieces_nonempty(s.drop_last());
    }
}

/// Appending text without a newline only extends the last piece.
proof fn lemma_pieces_append_plain(a: Seq<char>, b: Seq<char>)
    requires
        forall|k: int| 0 <= k < b.len() ==> b[k] != '\n',
    ensures
        pieces(a + b) == pieces(a).update(pieces(a).len() - 1, pieces(a).last() + b),
    decreases b.len(),
{
    lemma_pieces_nonempty(a);
    if b.len() == 0 {
        assert(a + b =~= a);
        assert(pieces(a).last() + b =~= pieces(a).last());
        assert(pieces(a).update(pieces(a).len() - 1, pieces(a).last()) =~= pieces(a));
    } else {
        let b0 = b.drop_last();
        lemma_pieces_append_plain(a, b0);
        assert((a + b).drop_last() =~= a + b0);
        assert((a + b).last() == b.last());
        assert(pieces(a).last() + b0 + seq![b.last()] =~= pieces(a).last() + b);
        let p0 = pieces(a + b0);
        assert(p0.len() == pieces(a).len());
        assert(p0.last() == pieces(a).last() + b0);
        assert(p0.last().push(b.last()) =~= pieces(a).last() + b);
        assert(p0.update(p0.len() - 1, p0.last().push(b.last())) =~= pieces(a).update(
            pieces(a).len() - 1,
            pieces(a).last() + b,
        ));
    }
}

/// The pieces of a listing are its names, then the empty text after the
/// final newline.
proof fn lemma_pieces_joined(names: Seq<Seq<char>>)
    requires
        forall|i: int| 0 <= i < names.len() ==> is_line_name(#[trigger] names[i]),
    ensures
        pieces(joined(names)) == names.push(Seq::empty()),
    decreases names.len(),
{
    if names.len() == 0 {
        assert(pieces(joined(names)) =~= names.push(Seq::empty()));
    } else {
        let init = names.drop_last();
        let last = names.last();
        assert(is_line_name(names[names.len() - 1]));
        assert forall|i: int| 0 <= i < init.len() implies is_line_name(#[trigger] init[i]) by {
            assert(init[i] == names[i]);
        }
        lemma_pieces_joined(init);
        lemma_pieces_append_plain(joined(init), last);
        let j = joined(init) + last + seq!['\n'];
        assert(j.drop_last() =~= joined(init) + last);
        assert(pieces(joined(init)).last() =~= Seq::<char>::empty());
        assert(Seq::<char>::empty() + last =~= last);
        assert(init.push(Seq::empty()).update(init.len() as int, last).push(Seq::empty())
            =~= names.push(Seq::empty()));
    }
}

/// Reading back a listing of names, each on a line of its own, gives those
/// names in their order.
pub proof fn lemma_lines_of_joined(names: Seq<Seq<char>>)
    requires
        forall|i: int| 0 <= i < names.len() ==> is_line_name(#[trigger] names[i]),
    ensures
        lines_of(joined(names)) == names,
{
    lemma_pieces_joined(names);
    let p = pieces(joined(names));
    assert(p.drop_last() =~= names);
    assert forall|i: int| 0 <= i < names.len() implies strip_cr(#[trigger] names[i])
        == names[i] by {
        assert(is_line_name(names[i]));
    }
    assert(p.drop_last().map_values(|l: Seq<char>| strip_cr(l)) =~= names);
}

/// Splits the multiplexer's listing into session names, one per line, in
/// their order.
pub fn session_list(all_sessions: &str) -> (r: Vec<String>)
    ensures
        texts(r@) == lines_of(all_sessions@),
{
    let ghost s = all_sessions@;
    let n = all_sessions.unicode_len();
    let mut lines: Vec<String> = Vec::new();
    let mut start: usize = 0;
    let mut i: usize = 0;
    while i < n
        invariant
            n == s.len(),
            s == all_sessions@,
            start <= i <= n,
            pieces(s.take(i as int)).len() == lines.len() + 1,
            forall|j: int|
                0 <= j < lines.len() ==> (#[trigger] lines@[j])@ == strip_cr(
                    pieces(s.take(i as int))[j],
                ),
            pieces(s.take(i as int)).last() == s.subrange(start as int, i as int),
        decreases n - i,
    {
        let c = all_sessions.get_char(i);
        let ghost before = s.take(i as int);
        assert(s.take(i + 1).drop_last() =~= before);
        assert(s.take(i + 1).last() == c);
        if c == '\n' {
            let mut end = i;
            if i > start && all_sessions.get_char(i - 1) == '\r' {
                end = i - 1;
            }
            let line = all_sessions.substring_char(start, end).to_owned();
            assert(line@ =~= strip_cr(s.subrange(start as int, i as int)));
            lines.push(line);
            start = i + 1;
        } else {
            assert(s.subrange(start as int, i + 1) =~= s.subrange(start as int, i as int).push(c));
        }
        i = i + 1;
        assert(s.subrange(start as int, i as int) =~= pieces(s.take(i as int)).last());
    }
    assert(s.take(n as int) =~= s);
    if start < n {
        let line = all_sessions.substring_char(start, n).to_owned();
        lines.push(line);
    }
    assert(texts(lines@) =~= lines_of(s));
    lines
}

/// Whether `name` is one of the listing's lines, character for character.
pub fn has_session(all_sessions: &str, name: &String) -> (r: bool)
    ensures
        r == lines_of(all_sessions@).contains(name@),
{
    let lines = session_list(all_sessions);
    let mut j: usize = 0;
    while j < lines.len()
        invariant
            j <= lines.len(),
            texts(lines@) == lines_of(all_sessions@),
            forall|k: int| 0 <= k < j ==> lines_of(all_sessions@)[k] != name@,
        decreases lines.len() - j,
    {
        if lines[j] == *name {
            assert(lines_of(all_sessions@)[j as int] == lines@[j as int]@);
            return true;
        }
        assert(lines_of(all_sessions@)[j as int] == lines@[j as int]@);
        j = j + 1;
    }
    false
}

} // verus!
