//! Cutting captured text into lines.

use vstd::prelude::*;

verus! {

/// `i` is the place of the first `c` in `s`.
pub open spec fn is_first(s: Seq<char>, c: char, i: int) -> bool {
    &&& 0 <= i < s.len()
    &&& s[i] == c
    &&& forall|j: int| 0 <= j < i ==> s[j] != c
}

/// The place of the first `c` in a text that holds one.
pub open spec fn first(s: Seq<char>, c: char) -> int {
    choose|i: int| is_first(s, c, i)
}

/// A text has at most one first `c`.
pub proof fn lemma_first_unique(s: Seq<char>, c: char, i: int)
    requires
        is_first(s, c, i),
    ensures
        first(s, c) == i,
        s.contains(c),
{
    let j = first(s, c);
    assert(is_first(s, c, j));
    if j < i {
        assert(s[j] != c);
    }
    if i < j {
        assert(s[i] != c);
    }
}

/// A text that holds `c` has a first one.
pub proof fn lemma_first_exists(s: Seq<char>, c: char)
    requires
        s.contains(c),
    ensures
        is_first(s, c, first(s, c)),
    decreases s.len(),
{
    let k = choose|k: int| 0 <= k < s.len() && s[k] == c;
    if exists|j: int| 0 <= j < k && s[j] == c {
        let j = choose|j: int| 0 <= j < k && s[j] == c;
        let head = s.subrange(0, k);
        assert(head[j] == c);
        lemma_first_exists(head, c);
        let i = first(head, c);
        assert(forall|m: int| 0 <= m < i ==> head[m] == s[m]);
        assert(is_first(s, c, i));
    } else {
        assert(is_first(s, c, k));
    }
}

/// A line without the carriage return that stood before its line feed.
pub open spec fn strip_cr(line: Seq<char>) -> Seq<char> {
    if line.len() > 0 && line.last() == '\r' {
        line.drop_last()
    } else {
        line
    }
}

/// The lines of a text.
///
/// A line ends at a line feed, or at a carriage return that a line feed
/// follows; neither belongs to the line. The last line may lack its ending,
/// and then keeps a carriage return at its end. Text that ends with a line
/// ending has no empty line after it.
pub open spec fn lines_of(text: Seq<char>) -> Seq<Seq<char>>
    decreases text.len(),
    via lines_of_decreases
{
    if text.len() == 0 {
        Seq::empty()
    } else if !text.contains('\n') {
        seq![text]
    } else {
        let end = first(text, '\n');
        seq![strip_cr(text.subrange(0, end))] + lines_of(
            text.subrange(end + 1, text.len() as int),
        )
    }
}

#[via_fn]
proof fn lines_of_decreases(text: Seq<char>) {
    if text.contains('\n') {
        lemma_first_exists(text, '\n');
    }
}

/// Where the first line feed of `text` from `start` on stands at `end`, the
/// lines from `start` on are the line up to `end` and the lines after it.
pub proof fn lemma_lines_step(text: Seq<char>, start: int, end: int)
    requires
        0 <= start <= end < text.len(),
        text[end] == '\n',
        forall|j: int| start <= j < end ==> text[j] != '\n',
    ensures
        lines_of(text.subrange(start, text.len() as int)) == seq![
            strip_cr(text.subrange(start, end)),
        ] + lines_of(text.subrange(end + 1, text.len() as int)),
{
    let rest = text.subrange(start, text.len() as int);
    assert(is_first(rest, '\n', end - start));
    lemma_first_unique(rest, '\n', end - start);
    assert(rest.subrange(0, end - start) =~= text.subrange(start, end));
    assert(rest.subrange(end - start + 1, rest.len() as int) =~= text.subrange(
        end + 1,
        text.len() as int,
    ));
}

/// What is left after the last line feed is one line, unless it is empty.
pub proof fn lemma_lines_end(text: Seq<char>, start: int)
    requires
        0 <= start <= text.len(),
        forall|j: int| start <= j < text.len() ==> text[j] != '\n',
    ensures
        lines_of(text.subrange(start, text.len() as int)) == if start < text.len() {
            seq![text.subrange(start, text.len() as int)]
        } else {
            Seq::empty()
        },
{
    let rest = text.subrange(start, text.len() as int);
    if rest.contains('\n') {
        let k = choose|k: int| 0 <= k < rest.len() && rest[k] == '\n';
        assert(text[start + k] == '\n');
    }
}

/// `String::push`. Not proved: that it appends the character to the end of
/// the string and leaves the rest as it was.
pub assume_specification[ String::push ](s: &mut String, c: char)
    ensures
        final(s)@ == old(s)@.push(c),
;

/// Cuts a text into its lines.
pub fn split_lines(text: &str) -> (lines: Vec<String>)
    ensures
        lines.deep_view() == lines_of(text@),
{
    let mut lines: Vec<String> = Vec::new();
    let mut current = String::new();
    let mut pending_cr = false;
    let mut begun = false;
    let ghost mut start: int = 0;
    proof {
        assert(text@.subrange(0, text@.len() as int) =~= text@);
        assert(lines.deep_view() =~= Seq::empty());
    }
    for c in it: text.chars()
        invariant
            it.seq() == text@,
            0 <= start <= it.index(),
            begun == (start < it.index()),
            forall|j: int| start <= j < it.index() ==> text@[j] != '\n',
            lines_of(text@) == lines.deep_view() + lines_of(
                text@.subrange(start, text@.len() as int),
            ),
            text@.subrange(start, it.index() as int) == if pending_cr {
                current@.push('\r')
            } else {
                current@
            },
            !pending_cr ==> current@.len() == 0 || current@.last() != '\r',
    {
        let ghost i = it.index() as int;
        let ghost before = lines.deep_view();
        if c == '\n' {
            proof {
                lemma_lines_step(text@, start, i);
                if pending_cr {
                    assert(current@.push('\r').drop_last() =~= current@);
                }
                assert(strip_cr(text@.subrange(start, i)) == current@);
            }
            lines.push(current);
            current = String::new();
            pending_cr = false;
            begun = false;
            proof {
                assert(lines.deep_view() =~= before.push(strip_cr(text@.subrange(start, i))));
                start = i + 1;
                assert(text@.subrange(start, i + 1) =~= Seq::<char>::empty());
            }
        } else {
            if pending_cr {
                current.push('\r');
            }
            if c == '\r' {
                pending_cr = true;
            } else {
                current.push(c);
                pending_cr = false;
            }
            begun = true;
            proof {
                assert(text@.subrange(start, i + 1) =~= text@.subrange(start, i).push(c));
            }
        }
    }
    proof {
        lemma_lines_end(text@, start);
    }
    if begun {
        if pending_cr {
            current.push('\r');
        }
        let ghost before = lines.deep_view();
        lines.push(current);
        proof {
            assert(lines.deep_view() =~= before.push(text@.subrange(start, text@.len() as int)));
        }
    }
    lines
}

} // verus!
