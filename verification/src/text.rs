//! Text as the edit buffer sees it: a sequence of lines, joined by line
//! feeds when stored as one cell's code.

use vstd::prelude::*;
use vstd::string::StringExecFns;

verus! {

/// The views of a sequence of strings, in order.
pub open spec fn line_views(lines: Seq<String>) -> Seq<Seq<char>> {
    Seq::new(lines.len(), |i: int| lines[i]@)
}

/// The lines of a text: the pieces between its line feeds. A text with `n`
/// line feeds has `n + 1` lines, the empty text one empty line.
pub open spec fn split_lines(text: Seq<char>) -> Seq<Seq<char>>
    decreases text.len(),
{
    if text.len() == 0 {
        seq![Seq::<char>::empty()]
    } else {
        let before = split_lines(text.drop_last());
        if text.last() == '\n' {
            before.push(Seq::<char>::empty())
        } else {
            before.update(before.len() - 1, before.last().push(text.last()))
        }
    }
}

/// The text made of the given lines with one line feed between each two.
pub open spec fn join_lines(lines: Seq<Seq<char>>) -> Seq<char>
    decreases lines.len(),
{
    if lines.len() == 0 {
        Seq::<char>::empty()
    } else if lines.len() == 1 {
        lines[0]
    } else {
        join_lines(lines.drop_last()) + seq!['\n'] + lines.last()
    }
}

/// Every text has at least one line.
pub proof fn lemma_split_nonempty(text: Seq<char>)
    ensures
        split_lines(text).len() >= 1,
    decreases text.len(),
{
    if text.len() > 0 {
        lemma_split_nonempty(text.drop_last());
    }
}

/// Splitting a text into lines and joining them again gives the text back.
pub proof fn lemma_join_split(text: Seq<char>)
    ensures
        join_lines(split_lines(text)) == text,
    decreases text.len(),
{
    if text.len() == 0 {
        assert(join_lines(split_lines(text)) =~= text);
    } else {
        let head = text.drop_last();
        let before = split_lines(head);
        lemma_split_nonempty(head);
        lemma_join_split(head);
        let after = split_lines(text);
        if text.last() == '\n' {
            assert(after.drop_last() =~= before);
            assert(join_lines(after) =~= head + seq!['\n'] + Seq::<char>::empty());
            assert(head + seq!['\n'] + Seq::<char>::empty() =~= text);
        } else if before.len() == 1 {
            assert(join_lines(after) =~= head.push(text.last()));
            assert(head.push(text.last()) =~= text);
        } else {
            assert(after.drop_last() =~= before.drop_last());
            assert(join_lines(after) =~= join_lines(before.drop_last()) + seq!['\n']
                + before.last().push(text.last()));
            assert(join_lines(before.drop_last()) + seq!['\n'] + before.last().push(text.last())
                =~= (join_lines(before.drop_last()) + seq!['\n'] + before.last()).push(
                text.last(),
            ));
            assert(head.push(text.last()) =~= text);
        }
    }
}

/// True of lines as an editor holds them: there is at least one, and none
/// has a line feed in it.
pub open spec fn are_lines(lines: Seq<Seq<char>>) -> bool {
    &&& lines.len() >= 1
    &&& forall|i: int, j: int|
        0 <= i < lines.len() && 0 <= j < lines[i].len() ==> (#[trigger] lines[i][j]) != '\n'
}

/// A text followed by characters that hold no line feed has the lines of
/// the text, the last of them longer by those characters.
proof fn lemma_split_append(text: Seq<char>, more: Seq<char>)
    requires
        forall|j: int| 0 <= j < more.len() ==> more[j] != '\n',
    ensures
        split_lines(text).len() >= 1,
        split_lines(text + more) == split_lines(text).update(
            split_lines(text).len() - 1,
            split_lines(text).last() + more,
        ),
    decreases more.len(),
{
    lemma_split_nonempty(text);
    let lines = split_lines(text);
    if more.len() == 0 {
        assert(text + more =~= text);
        assert(lines.last() + more =~= lines.last());
        assert(lines.update(lines.len() - 1, lines.last()) =~= lines);
    } else {
        let head = more.drop_last();
        lemma_split_append(text, head);
        assert((text + more).drop_last() =~= text + head);
        assert((text + more).last() == more.last());
        let before = split_lines(text + head);
        assert((lines.last() + head).push(more.last()) =~= lines.last() + more);
        assert(before.update(before.len() - 1, before.last().push(more.last())) =~= lines.update(
            lines.len() - 1,
            lines.last() + more,
        ));
    }
}

/// Joining lines and splitting the text again gives the lines back.
pub proof fn lemma_split_join(lines: Seq<Seq<char>>)
    requires
        are_lines(lines),
    ensures
        split_lines(join_lines(lines)) == lines,
    decreases lines.len(),
{
    let last = lines.last();
    assert forall|j: int| 0 <= j < last.len() implies last[j] != '\n' by {
        assert(lines[lines.len() - 1][j] != '\n');
    }
    if lines.len() == 1 {
        let empty = Seq::<char>::empty();
        lemma_split_append(empty, last);
        assert(empty + last =~= last);
        assert(split_lines(empty).update(0, split_lines(empty).last() + last) =~= lines);
    } else {
        let init = lines.drop_last();
        assert(are_lines(init)) by {
            assert forall|i: int, j: int|
                0 <= i < init.len() && 0 <= j < init[i].len() implies (#[trigger] init[i][j])
                != '\n' by {
                assert(lines[i][j] != '\n');
            }
        }
        lemma_split_join(init);
        let text = join_lines(init) + seq!['\n'];
        assert(text.drop_last() =~= join_lines(init));
        assert(split_lines(text) == init.push(Seq::<char>::empty()));
        lemma_split_append(text, last);
        assert(init.push(Seq::<char>::empty()).update(
            init.len() as int,
            Seq::<char>::empty() + last,
        ) =~= lines);
    }
}

/// Calls `String::push`, which appends one character to the end of the
/// string.
#[verifier::external_body]
fn push_char(text: &mut String, c: char)
    ensures
        final(text)@ == old(text)@.push(c),
{
    text.push(c)
}

/// Splits a text at its line feeds.
pub fn split_text(text: &str) -> (lines: Vec<String>)
    ensures
        line_views(lines@) == split_lines(text@),
{
    broadcast use vstd::string::group_string_axioms;

    let mut lines: Vec<String> = Vec::new();
    let mut current = String::new();
    for c in it: text.chars()
        invariant
            it.seq() == text@,
            line_views(lines@).push(current@) == split_lines(text@.take(it.index())),
    {
        proof {
            let i = it.index();
            let head = text@.take(i);
            let next = text@.take(i + 1);
            assert(next.drop_last() =~= head);
            assert(next.last() == c);
        }
        if c == '\n' {
            let ghost done = line_views(lines@);
            lines.push(current);
            assert(line_views(lines@) =~= done.push(current@));
            current = String::new();
            assert(current@ =~= Seq::<char>::empty());
        } else {
            let ghost done = line_views(lines@);
            let ghost line = current@;
            push_char(&mut current, c);
            assert(done.push(current@) =~= done.push(line).update(
                done.push(line).len() - 1,
                done.push(line).last().push(c),
            ));
        }
    }
    proof {
        assert(text@.take(text@.len() as int) =~= text@);
    }
    let ghost done = line_views(lines@);
    lines.push(current);
    assert(line_views(lines@) =~= done.push(current@));
    lines
}

/// Joins lines into one text, with a line feed between each two.
pub fn join_text(lines: &Vec<String>) -> (text: String)
    ensures
        text@ == join_lines(line_views(lines@)),
{
    let mut text = String::new();
    let mut i: usize = 0;
    while i < lines.len()
        invariant
            i <= lines.len(),
            text@ == join_lines(line_views(lines@).take(i as int)),
        decreases lines.len() - i,
    {
        let ghost all = line_views(lines@);
        proof {
            reveal_strlit("\n");
            assert(all.take(i + 1).drop_last() =~= all.take(i as int));
            assert(all.take(i + 1).last() == lines@[i as int]@);
            assert("\n"@ =~= seq!['\n']);
        }
        if i > 0 {
            text.append("\n");
        }
        text.append(lines[i].as_str());
        proof {
            if i == 0 {
                assert(text@ =~= all.take(i + 1)[0]);
            }
        }
        i = i + 1;
    }
    proof {
        assert(line_views(lines@).take(lines.len() as int) =~= line_views(lines@));
    }
    text
}

} // verus!
