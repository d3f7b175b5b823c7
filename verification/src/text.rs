//! Splitting a knowledge file into the lines that become retrieval chunks.
use vstd::prelude::*;
use vstd::string::*;

verus! {

/// A line without the carriage return of a `\r\n` ending.
pub open spec fn strip_cr(line: Seq<char>) -> Seq<char> {
    if line.len() > 0 && line.last() == '\r' {
        line.drop_last()
    } else {
        line
    }
}

/// The lines of `rest`, where `cur` holds the characters of the line begun before `rest`.
/// A line ends at `\n` (a `\r` just before it is dropped); the last line needs no ending.
pub open spec fn lines_from(rest: Seq<char>, cur: Seq<char>) -> Seq<Seq<char>>
    decreases rest.len(),
{
    if rest.len() == 0 {
        if cur.len() == 0 {
            seq![]
        } else {
            seq![cur]
        }
    } else if rest[0] == '\n' {
        seq![strip_cr(cur)] + lines_from(rest.drop_first(), seq![])
    } else {
        lines_from(rest.drop_first(), cur.push(rest[0]))
    }
}

/// The lines of a text, as `str::lines` yields them.
pub open spec fn text_lines(text: Seq<char>) -> Seq<Seq<char>> {
    lines_from(text, seq![])
}

/// The views of a vector of strings.
pub open spec fn views(v: Seq<String>) -> Seq<Seq<char>> {
    v.map_values(|s: String| s@)
}

/// The views of strings are the strings' texts, one per string, in order.
pub proof fn lemma_views(v: Seq<String>)
    ensures
        views(v).len() == v.len(),
        forall|k: int| 0 <= k < v.len() ==> #[trigger] views(v)[k] == v[k]@,
{
}

/// Splits `text` into its lines: at each `\n`, dropping a `\r` right before it; a final line
/// ending adds no empty line.
pub fn lines(text: &str) -> (res: Vec<String>)
    ensures
        views(res@) == text_lines(text@),
{
    broadcast use vstd::string::group_string_axioms;

    let mut res: Vec<String> = Vec::new();
    let mut start: usize = 0;
    let mut i: usize = 0;
    let mut prev_cr: bool = false;
    let n: usize = text.unicode_len();
    assert(text@.skip(0) =~= text@);
    assert(text@.subrange(0, 0) =~= Seq::<char>::empty());
    assert(views(res@) =~= Seq::<Seq<char>>::empty());
    for c in it: text.chars()
        invariant
            it.seq() == text@,
            n == text@.len(),
            i == it.index(),
            start <= i <= text@.len(),
            prev_cr <==> (start < i && text@[i - 1] == '\r'),
            text_lines(text@) == views(res@) + lines_from(
                text@.skip(i as int),
                text@.subrange(start as int, i as int),
            ),
    {
        assert(text@.skip(i as int)[0] == c);
        assert(text@.skip(i as int).drop_first() =~= text@.skip(i + 1));
        if c == '\n' {
            let end: usize = if prev_cr { i - 1 } else { i };
            let line = text.substring_char(start, end);
            let ghost cur = text@.subrange(start as int, i as int);
            assert(line@ =~= strip_cr(cur));
            let ghost before = res@;
            res.push(line.to_owned());
            assert(views(res@) =~= views(before).push(line@));
            start = i + 1;
            prev_cr = false;
            assert(text@.subrange(start as int, i + 1) =~= Seq::<char>::empty());
        } else {
            prev_cr = c == '\r';
            assert(text@.subrange(start as int, i as int).push(c) =~= text@.subrange(
                start as int,
                i + 1,
            ));
        }
        i = i + 1;
    }
    assert(text@.skip(i as int) =~= Seq::<char>::empty());
    if start < i {
        let line = text.substring_char(start, i);
        let ghost before = res@;
        res.push(line.to_owned());
        assert(views(res@) =~= views(before).push(line@));
    }
    res
}

/// No line holds a line feed.
pub proof fn lemma_lines_hold_no_newline(text: Seq<char>)
    ensures
        forall|k: int, i: int|
            0 <= k < text_lines(text).len() && 0 <= i < text_lines(text)[k].len()
                ==> #[trigger] text_lines(text)[k][i] != '\n',
{
    lemma_lines_from_no_newline(text, seq![]);
}

proof fn lemma_lines_from_no_newline(rest: Seq<char>, cur: Seq<char>)
    requires
        forall|i: int| 0 <= i < cur.len() ==> #[trigger] cur[i] != '\n',
    ensures
        forall|k: int, i: int|
            0 <= k < lines_from(rest, cur).len() && 0 <= i < lines_from(rest, cur)[k].len()
                ==> #[trigger] lines_from(rest, cur)[k][i] != '\n',
    decreases rest.len(),
{
    if rest.len() == 0 {
        if cur.len() > 0 {
            assert(lines_from(rest, cur) =~= seq![cur]);
        }
    } else if rest[0] == '\n' {
        lemma_lines_from_no_newline(rest.drop_first(), seq![]);
        let tail = lines_from(rest.drop_first(), seq![]);
        assert forall|k: int, i: int|
            0 <= k < lines_from(rest, cur).len() && 0 <= i < lines_from(rest, cur)[k].len()
                implies #[trigger] lines_from(rest, cur)[k][i] != '\n' by {
            if k == 0 {
                assert(lines_from(rest, cur)[0] == strip_cr(cur));
                assert(strip_cr(cur)[i] == cur[i]);
            } else {
                assert(lines_from(rest, cur)[k] == tail[k - 1]);
            }
        }
    } else {
        assert forall|i: int| 0 <= i < cur.push(rest[0]).len() implies #[trigger] cur.push(
            rest[0],
        )[i] != '\n' by {
            if i < cur.len() {
                assert(cur.push(rest[0])[i] == cur[i]);
            }
        }
        lemma_lines_from_no_newline(rest.drop_first(), cur.push(rest[0]));
        assert(lines_from(rest, cur) == lines_from(rest.drop_first(), cur.push(rest[0])));
    }
}

/// Lines joined back with line feeds between them.
pub open spec fn join_lines(ls: Seq<Seq<char>>) -> Seq<char>
    decreases ls.len(),
{
    if ls.len() == 0 {
        seq![]
    } else if ls.len() == 1 {
        ls[0]
    } else {
        ls[0] + seq!['\n'] + join_lines(ls.drop_first())
    }
}

/// Splitting loses nothing but the line endings: a text without carriage returns is its lines
/// joined with line feeds, followed by a line feed when the text ends in one.
pub proof fn lemma_lines_rejoin(text: Seq<char>)
    requires
        forall|i: int| 0 <= i < text.len() ==> #[trigger] text[i] != '\r',
    ensures
        text.len() > 0 && text.last() == '\n' ==> text == join_lines(text_lines(text)) + seq!['\n'],
        !(text.len() > 0 && text.last() == '\n') ==> text == join_lines(text_lines(text)),
{
    assert(seq![] + text =~= text);
    lemma_lines_from_rejoin(text, seq![]);
}

proof fn lemma_lines_from_nonempty(rest: Seq<char>, cur: Seq<char>)
    requires
        rest.len() > 0,
    ensures
        lines_from(rest, cur).len() > 0,
    decreases rest.len(),
{
    if rest[0] == '\n' {
        assert(lines_from(rest, cur) == seq![strip_cr(cur)] + lines_from(rest.drop_first(), seq![]));
    } else {
        assert(lines_from(rest, cur) == lines_from(rest.drop_first(), cur.push(rest[0])));
        if rest.len() > 1 {
            lemma_lines_from_nonempty(rest.drop_first(), cur.push(rest[0]));
        } else {
            assert(rest.drop_first().len() == 0);
            assert(cur.push(rest[0]).len() > 0);
        }
    }
}

proof fn lemma_lines_from_rejoin(rest: Seq<char>, cur: Seq<char>)
    requires
        forall|i: int| 0 <= i < (cur + rest).len() ==> #[trigger] (cur + rest)[i] != '\r',
    ensures
        rest.len() > 0 && rest.last() == '\n' ==> cur + rest == join_lines(lines_from(rest, cur))
            + seq!['\n'],
        !(rest.len() > 0 && rest.last() == '\n') ==> cur + rest == join_lines(lines_from(rest, cur)),
    decreases rest.len(),
{
    let ls = lines_from(rest, cur);
    if rest.len() == 0 {
        assert(cur + rest =~= cur);
        if cur.len() > 0 {
            assert(ls =~= seq![cur]);
        }
    } else {
        let tail = rest.drop_first();
        assert(rest =~= seq![rest[0]] + tail);
        if rest[0] == '\n' {
            if cur.len() > 0 {
                assert(cur.last() == (cur + rest)[cur.len() - 1]);
            }
            assert(strip_cr(cur) == cur);
            let rest_lines = lines_from(tail, seq![]);
            assert(ls == seq![cur] + rest_lines);
            if tail.len() == 0 {
                assert(rest_lines == Seq::<Seq<char>>::empty());
                assert(ls =~= seq![cur]);
                assert(cur + rest =~= cur + seq!['\n']);
            } else {
                assert forall|i: int| 0 <= i < (seq![] + tail).len() implies #[trigger] (seq![]
                    + tail)[i] != '\r' by {
                    assert((seq![] + tail)[i] == (cur + rest)[cur.len() + 1 + i]);
                }
                assert(seq![] + tail =~= tail);
                lemma_lines_from_rejoin(tail, seq![]);
                lemma_lines_from_nonempty(tail, seq![]);
                assert(ls.len() >= 2);
                assert(ls[0] == cur);
                assert(ls.drop_first() =~= rest_lines);
                assert(join_lines(ls) == cur + seq!['\n'] + join_lines(rest_lines));
                assert(tail.last() == rest.last());
                if rest.last() == '\n' {
                    assert(cur + rest =~= cur + seq!['\n'] + (join_lines(rest_lines) + seq!['\n']));
                } else {
                    assert(cur + rest =~= cur + seq!['\n'] + join_lines(rest_lines));
                }
            }
        } else {
            let next = cur.push(rest[0]);
            assert(next + tail =~= cur + rest);
            lemma_lines_from_rejoin(tail, next);
            assert(ls == lines_from(tail, next));
            if tail.len() > 0 {
                assert(tail.last() == rest.last());
            }
        }
    }
}

/// A text that ends in a line ending yields the same lines as the same text without it: for a
/// `\n` ending when the text before it is not empty and ends in neither `\n` nor `\r`, and
/// for a `\r\n` ending when the text before it is not empty and does not end in `\n`.
pub proof fn lemma_final_line_ending(text: Seq<char>)
    requires
        text.len() > 0,
        text.last() != '\n',
    ensures
        text.last() != '\r' ==> text_lines(text.push('\n')) == text_lines(text),
        text_lines(text + seq!['\r', '\n']) == text_lines(text),
{
    assert(seq![] + text =~= text);
    if text.last() != '\r' {
        lemma_lf_ending(text, seq![]);
    }
    lemma_crlf_ending(text, seq![]);
}

proof fn lemma_lf_ending(rest: Seq<char>, cur: Seq<char>)
    requires
        (cur + rest).len() > 0,
        (cur + rest).last() != '\n',
        (cur + rest).last() != '\r',
    ensures
        lines_from(rest.push('\n'), cur) == lines_from(rest, cur),
    decreases rest.len(),
{
    let ext = rest.push('\n');
    if rest.len() == 0 {
        assert(cur + rest =~= cur);
        assert(ext.drop_first() =~= Seq::<char>::empty());
        assert(ext[0] == '\n');
        assert(strip_cr(cur) == cur);
        assert(lines_from(ext.drop_first(), seq![]) == Seq::<Seq<char>>::empty());
        assert(lines_from(ext, cur) =~= seq![cur]);
    } else {
        assert(ext[0] == rest[0]);
        assert(ext.drop_first() =~= rest.drop_first().push('\n'));
        assert((cur + rest).last() == rest.last());
        if rest[0] == '\n' {
            assert(seq![] + rest.drop_first() =~= rest.drop_first());
            lemma_lf_ending(rest.drop_first(), seq![]);
        } else {
            assert(cur.push(rest[0]) + rest.drop_first() =~= cur + rest);
            lemma_lf_ending(rest.drop_first(), cur.push(rest[0]));
        }
    }
}

proof fn lemma_crlf_ending(rest: Seq<char>, cur: Seq<char>)
    requires
        (cur + rest).len() > 0,
        (cur + rest).last() != '\n',
    ensures
        lines_from(rest + seq!['\r', '\n'], cur) == lines_from(rest, cur),
    decreases rest.len(),
{
    let ext = rest + seq!['\r', '\n'];
    if rest.len() == 0 {
        assert(cur + rest =~= cur);
        assert(ext =~= seq!['\r', '\n']);
        assert(ext.drop_first() =~= seq!['\n']);
        assert(seq!['\n'].drop_first() =~= Seq::<char>::empty());
        assert(cur.push('\r').drop_last() =~= cur);
        assert(ext[0] == '\r');
        assert(seq!['\n'][0] == '\n');
        assert(strip_cr(cur.push('\r')) == cur);
        assert(lines_from(Seq::<char>::empty(), seq![]) == Seq::<Seq<char>>::empty());
        assert(lines_from(seq!['\n'], cur.push('\r')) =~= seq![cur]);
    } else {
        assert(ext[0] == rest[0]);
        assert(ext.drop_first() =~= rest.drop_first() + seq!['\r', '\n']);
        assert((cur + rest).last() == rest.last());
        if rest[0] == '\n' {
            assert(seq![] + rest.drop_first() =~= rest.drop_first());
            lemma_crlf_ending(rest.drop_first(), seq![]);
        } else {
            assert(cur.push(rest[0]) + rest.drop_first() =~= cur + rest);
            lemma_crlf_ending(rest.drop_first(), cur.push(rest[0]));
        }
    }
}

} // verus!
