use vstd::prelude::*;

verus! {

/// `s` without the line breaks at its end, as `trim_end_matches('\n')` gives.
pub open spec fn trim_line_breaks_end(s: Seq<char>) -> Seq<char>
    decreases s.len(),
{
    if s.len() > 0 && s.last() == '\n' {
        trim_line_breaks_end(s.drop_last())
    } else {
        s
    }
}

/// The pieces of `s` between line breaks, as `split('\n')` gives: one more
/// piece than there are line breaks, empty pieces included.
pub open spec fn split_lines(s: Seq<char>) -> Seq<Seq<char>>
    decreases s.len(),
{
    if s.len() == 0 {
        seq![Seq::<char>::empty()]
    } else if s.last() == '\n' {
        split_lines(s.drop_last()).push(Seq::<char>::empty())
    } else {
        let pieces = split_lines(s.drop_last());
        pieces.update(pieces.len() - 1, pieces.last().push(s.last()))
    }
}

/// The pieces joined back together with a line break between each two.
pub open spec fn join_lines(pieces: Seq<Seq<char>>) -> Seq<char>
    decreases pieces.len(),
{
    if pieces.len() <= 1 {
        if pieces.len() == 0 { Seq::empty() } else { pieces[0] }
    } else {
        join_lines(pieces.drop_last()) + seq!['\n'] + pieces.last()
    }
}

/// The credit lines of a credits file: its text without the trailing line
/// breaks, cut at each line break.
pub open spec fn credit_lines_of(text: Seq<char>) -> Seq<Seq<char>> {
    split_lines(trim_line_breaks_end(text))
}

proof fn lemma_split_lines_nonempty(s: Seq<char>)
    ensures
        split_lines(s).len() >= 1,
    decreases s.len(),
{
    if s.len() > 0 {
        lemma_split_lines_nonempty(s.drop_last());
    }
}

/// Cutting at the line breaks loses nothing: joining the pieces gives the
/// text back, and no piece holds a line break.
pub proof fn lemma_split_then_join(s: Seq<char>)
    ensures
        join_lines(split_lines(s)) == s,
        forall|i: int, k: int|
            0 <= i < split_lines(s).len() && 0 <= k < split_lines(s)[i].len() ==> #[trigger] split_lines(
                s,
            )[i][k] != '\n',
    decreases s.len(),
{
    if s.len() > 0 {
        let t = s.drop_last();
        lemma_split_then_join(t);
        lemma_split_lines_nonempty(t);
        let p = split_lines(t);
        if s.last() == '\n' {
            let q = p.push(Seq::<char>::empty());
            assert(q.drop_last() =~= p);
            assert(join_lines(q) =~= s);
            assert forall|i: int, k: int|
                0 <= i < q.len() && 0 <= k < q[i].len() implies #[trigger] q[i][k] != '\n' by {
                assert(p[i][k] != '\n');
            }
        } else {
            let q = p.update(p.len() - 1, p.last().push(s.last()));
            if p.len() == 1 {
                assert(join_lines(p) == p[0]);
                assert(join_lines(q) == q[0]);
                assert(q[0] =~= s);
            } else {
                assert(q.drop_last() =~= p.drop_last());
                assert(join_lines(p) == join_lines(p.drop_last()) + seq!['\n'] + p.last());
                assert(join_lines(q) == join_lines(q.drop_last()) + seq!['\n'] + q.last());
                assert(q.last() =~= p.last().push(s.last()));
                assert(join_lines(q) =~= join_lines(p).push(s.last()));
                assert(s =~= t.push(s.last()));
            }
            assert forall|i: int, k: int|
                0 <= i < q.len() && 0 <= k < q[i].len() implies #[trigger] q[i][k] != '\n' by {
                if i == p.len() - 1 && k == p.last().len() {
                } else {
                    assert(p[i][k] != '\n');
                }
            }
        }
    }
}

/// A trimmed text does not end in a line break, and only line breaks were cut.
pub proof fn lemma_trim_line_breaks_end(s: Seq<char>)
    ensures
        trim_line_breaks_end(s).len() <= s.len(),
        trim_line_breaks_end(s) == s.take(trim_line_breaks_end(s).len() as int),
        trim_line_breaks_end(s).len() == 0 || trim_line_breaks_end(s).last() != '\n',
        forall|k: int| trim_line_breaks_end(s).len() <= k < s.len() ==> #[trigger] s[k] == '\n',
    decreases s.len(),
{
    if s.len() > 0 && s.last() == '\n' {
        lemma_trim_line_breaks_end(s.drop_last());
        let t = trim_line_breaks_end(s);
        assert(s.drop_last().take(t.len() as int) =~= s.take(t.len() as int));
        assert forall|k: int| t.len() <= k < s.len() implies #[trigger] s[k] == '\n' by {
            if k < s.len() - 1 {
                assert(s.drop_last()[k] == s[k]);
            }
        }
    } else {
        assert(s.take(s.len() as int) =~= s);
    }
}

/// The credit lines, joined with line breaks, give back the credits text
/// without its trailing line breaks; no line holds a line break, and the
/// text kept does not end in one.
pub proof fn lemma_credit_lines_rejoin(text: Seq<char>)
    ensures
        join_lines(credit_lines_of(text)) == trim_line_breaks_end(text),
        forall|i: int, k: int|
            0 <= i < credit_lines_of(text).len() && 0 <= k < credit_lines_of(text)[i].len()
                ==> #[trigger] credit_lines_of(text)[i][k] != '\n',
        trim_line_breaks_end(text).len() == 0 || trim_line_breaks_end(text).last() != '\n',
{
    lemma_split_then_join(trim_line_breaks_end(text));
    lemma_trim_line_breaks_end(text);
}

/// Cuts the line breaks off the end of `text`.
pub fn trim_trailing_line_breaks(text: &str) -> (trimmed: String)
    ensures
        trimmed@ == trim_line_breaks_end(text@),
{
    let n = text.unicode_len();
    let mut end: usize = n;
    assert(text@.take(n as int) =~= text@);
    while end > 0 && text.get_char(end - 1) == '\n'
        invariant
            n == text@.len(),
            end <= n,
            trim_line_breaks_end(text@) == trim_line_breaks_end(text@.take(end as int)),
        decreases end,
    {
        assert(text@.take(end as int).drop_last() =~= text@.take(end - 1));
        end = end - 1;
    }
    let kept = text.substring_char(0, end);
    assert(kept@ =~= text@.take(end as int));
    kept.to_owned()
}

/// The credit lines of a credits file, one for each person.
pub fn credit_lines(text: &str) -> (lines: Vec<String>)
    ensures
        lines@.map_values(|l: String| l@) == credit_lines_of(text@),
{
    let trimmed = trim_trailing_line_breaks(text);
    let t = trimmed.as_str();
    let n = t.unicode_len();
    let mut lines: Vec<String> = Vec::new();
    let mut start: usize = 0;
    let mut i: usize = 0;
    assert(t@.take(0) =~= Seq::<char>::empty());
    assert(lines@.map_values(|l: String| l@).push(t@.subrange(0, 0)) =~= seq![Seq::<char>::empty()]);
    while i < n
        invariant
            n == t@.len(),
            t@ == trim_line_breaks_end(text@),
            start <= i <= n,
            lines@.map_values(|l: String| l@).push(t@.subrange(start as int, i as int)) == split_lines(
                t@.take(i as int),
            ),
        decreases n - i,
    {
        let ghost before = lines@.map_values(|l: String| l@);
        let ghost prefix = t@.take(i as int + 1);
        assert(prefix.drop_last() =~= t@.take(i as int));
        let c = t.get_char(i);
        assert(prefix.last() == c);
        if c == '\n' {
            let ghost old_start = start;
            let piece = t.substring_char(start, i);
            lines.push(piece.to_owned());
            start = i + 1;
            assert(lines@.map_values(|l: String| l@) =~= before.push(t@.subrange(old_start as int, i as int)));
            assert(t@.subrange(start as int, i as int + 1) =~= Seq::<char>::empty());
            assert(lines@.map_values(|l: String| l@).push(t@.subrange(start as int, i as int + 1))
                =~= split_lines(prefix));
        } else {
            assert(t@.subrange(start as int, i as int + 1) =~= t@.subrange(start as int, i as int).push(c));
            assert(lines@.map_values(|l: String| l@).push(t@.subrange(start as int, i as int + 1))
                =~= split_lines(prefix));
        }
        i = i + 1;
    }
    assert(t@.take(n as int) =~= t@);
    let last = t.substring_char(start, n);
    lines.push(last.to_owned());
    assert(lines@.map_values(|l: String| l@) =~= credit_lines_of(text@));
    lines
}

} // verus!
