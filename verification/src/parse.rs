//! The grammar of the printed predicates.
//!
//! A line is either a bare name, or a name, `=`, and a value between double
//! quotes. The name is whatever stands before the first `=`: names are not
//! held to any vocabulary. A printout is read whole or not at all.

use vstd::prelude::*;
use vstd::string::*;
use crate::atom::{AtomView, CfgAtom, ParseError};
use crate::text::{first, is_first, lemma_first_unique, lines_of, split_lines};

verus! {

/// A value as it is printed: at least the two double quotes, one at each end.
pub open spec fn is_quoted(value: Seq<char>) -> bool {
    &&& value.len() >= 2
    &&& value.first() == '"'
    &&& value.last() == '"'
}

/// What a line means: the atom it stands for, or `None` where it is
/// malformed.
pub open spec fn line_atom(line: Seq<char>) -> Option<AtomView> {
    if !line.contains('=') {
        Some(AtomView::Flag(line))
    } else {
        let i = first(line, '=');
        let value = line.subrange(i + 1, line.len() as int);
        if is_quoted(value) {
            Some(
                AtomView::KeyValue {
                    key: line.subrange(0, i),
                    value: value.subrange(1, value.len() - 1),
                },
            )
        } else {
            None
        }
    }
}

/// A key, `=`, and the value between double quotes.
pub open spec fn key_value_line(key: Seq<char>, value: Seq<char>) -> Seq<char> {
    key + seq!['=', '"'] + value + seq!['"']
}

/// Parses one printed line.
///
/// A line without `=` is a flag of that name. Otherwise the line is cut at
/// its first `=`; what follows must stand between double quotes, which are
/// taken off. Any other line is an error that carries the line.
pub fn parse_cfg(line: &str) -> (res: Result<CfgAtom, ParseError>)
    ensures
        match line_atom(line@) {
            Some(atom) => res is Ok && res->Ok_0@ == atom,
            None => res is Err && res->Err_0@ == line@,
        },
{
    let len: usize = line.unicode_len();
    let mut at: usize = 0;
    let mut found = false;
    for c in it: line.chars()
        invariant
            it.seq() == line@,
            line@.len() == len,
            at <= it.index(),
            !found ==> at == it.index(),
            found ==> is_first(line@, '=', at as int),
            forall|j: int| 0 <= j < at ==> line@[j] != '=',
    {
        if !found {
            if c == '=' {
                found = true;
            } else {
                at = at + 1;
            }
        }
    }
    if !found {
        assert(!line@.contains('='));
        return Ok(CfgAtom::Flag(line.to_owned()));
    }
    proof {
        lemma_first_unique(line@, '=', at as int);
    }
    let value = line.substring_char(at + 1, len);
    let width: usize = len - at - 1;
    if width >= 2 && value.get_char(0) == '"' && value.get_char(width - 1) == '"' {
        let key = line.substring_char(0, at);
        let inner = value.substring_char(1, width - 1);
        Ok(CfgAtom::KeyValue { key: key.to_owned(), value: inner.to_owned() })
    } else {
        Err(ParseError { line: line.to_owned() })
    }
}

/// A name without `=` is read as the flag of that name.
pub proof fn lemma_flag_round_trip(name: Seq<char>)
    requires
        !name.contains('='),
    ensures
        line_atom(name) == Some(AtomView::Flag(name)),
{
}

/// A key without `=`, then `=`, then any value between double quotes, is
/// read as that key with that value.
pub proof fn lemma_key_value_round_trip(key: Seq<char>, value: Seq<char>)
    requires
        !key.contains('='),
    ensures
        line_atom(key_value_line(key, value)) == Some(AtomView::KeyValue { key, value }),
{
    let line = key_value_line(key, value);
    let at = key.len() as int;
    assert(line[at] == '=');
    assert forall|j: int| 0 <= j < at implies line[j] != '=' by {
        assert(line[j] == key[j]);
        if key[j] == '=' {
            assert(key.contains('='));
        }
    }
    lemma_first_unique(line, '=', at);
    let printed = line.subrange(at + 1, line.len() as int);
    assert(printed =~= seq!['"'] + value + seq!['"']);
    assert(printed.subrange(1, printed.len() - 1) =~= value);
    assert(line.subrange(0, at) =~= key);
}

/// A line that holds `=` with anything but a quoted value after the first
/// one is malformed.
pub proof fn lemma_unquoted_is_malformed(line: Seq<char>, at: int)
    requires
        is_first(line, '=', at),
        !is_quoted(line.subrange(at + 1, line.len() as int)),
    ensures
        line_atom(line) is None,
{
    lemma_first_unique(line, '=', at);
}

/// Every line of `lines` is well formed.
pub open spec fn all_well_formed(lines: Seq<Seq<char>>) -> bool {
    forall|i: int| 0 <= i < lines.len() ==> (#[trigger] line_atom(lines[i])) is Some
}

/// `i` is the place of the first malformed line in `lines`.
pub open spec fn is_first_malformed(lines: Seq<Seq<char>>, i: int) -> bool {
    &&& 0 <= i < lines.len()
    &&& line_atom(lines[i]) is None
    &&& all_well_formed(lines.take(i))
}

/// The place of the first malformed line in a batch that holds one.
pub open spec fn first_malformed(lines: Seq<Seq<char>>) -> int {
    choose|i: int| is_first_malformed(lines, i)
}

/// A batch has at most one first malformed line.
pub proof fn lemma_first_malformed_unique(lines: Seq<Seq<char>>, i: int)
    requires
        is_first_malformed(lines, i),
    ensures
        first_malformed(lines) == i,
        !all_well_formed(lines),
{
    let j = first_malformed(lines);
    assert(is_first_malformed(lines, j));
    if j < i {
        assert(line_atom(lines.take(i)[j]) is Some);
    }
    if i < j {
        assert(line_atom(lines.take(j)[i]) is Some);
    }
}

/// What a batch of lines means: the atom of each line, in the order of the
/// lines, or `None` where any line is malformed.
pub open spec fn batch_atoms(lines: Seq<Seq<char>>) -> Option<Seq<AtomView>> {
    if all_well_formed(lines) {
        Some(Seq::new(lines.len(), |i: int| line_atom(lines[i])->0))
    } else {
        None
    }
}

/// What a printout means: the atoms of its lines, or `None` where any line
/// is malformed.
pub open spec fn text_atoms(text: Seq<char>) -> Option<Seq<AtomView>> {
    batch_atoms(lines_of(text))
}

/// The line that spoils a printout: its first malformed line, or `None`
/// where every line is well formed.
pub open spec fn text_error(text: Seq<char>) -> Option<Seq<char>> {
    let lines = lines_of(text);
    if all_well_formed(lines) {
        None
    } else {
        Some(lines[first_malformed(lines)])
    }
}

/// Parses a whole printout, one predicate per line.
///
/// The atoms come in the order of the lines. One malformed line spoils the
/// batch: the result is then the error of the first such line, and no atom.
pub fn parse_output(text: &str) -> (res: Result<Vec<CfgAtom>, ParseError>)
    ensures
        match text_atoms(text@) {
            Some(atoms) => res is Ok && res->Ok_0.deep_view() == atoms,
            None => res is Err && Some(res->Err_0@) == text_error(text@),
        },
{
    let lines = split_lines(text);
    let ghost all = lines.deep_view();
    let mut atoms: Vec<CfgAtom> = Vec::new();
    let mut i: usize = 0;
    while i < lines.len()
        invariant
            all == lines.deep_view(),
            all == lines_of(text@),
            0 <= i <= lines.len(),
            atoms.len() == i,
            all_well_formed(all.take(i as int)),
            forall|j: int| 0 <= j < i ==> atoms@[j]@ == (#[trigger] line_atom(all[j]))->0,
        decreases lines.len() - i,
    {
        assert(all[i as int] == lines@[i as int]@);
        match parse_cfg(lines[i].as_str()) {
            Ok(atom) => {
                atoms.push(atom);
                proof {
                    assert forall|j: int| 0 <= j < i + 1 implies (#[trigger] line_atom(
                        all.take(i + 1)[j],
                    )) is Some by {
                        if j < i {
                            assert(all.take(i as int)[j] == all[j]);
                        }
                    }
                }
            },
            Err(error) => {
                proof {
                    lemma_first_malformed_unique(all, i as int);
                }
                return Err(error);
            },
        }
        i = i + 1;
    }
    proof {
        assert(all.take(i as int) =~= all);
        assert(atoms.deep_view() =~= Seq::new(all.len(), |j: int| line_atom(all[j])->0));
    }
    Ok(atoms)
}

/// One malformed line spoils the batch, wherever it stands.
pub proof fn lemma_batch_atomic(lines: Seq<Seq<char>>, i: int)
    requires
        0 <= i < lines.len(),
        line_atom(lines[i]) is None,
    ensures
        batch_atoms(lines) is None,
{
}

/// A batch without a malformed line gives one atom for each line, in the
/// order of the lines.
pub proof fn lemma_batch_in_order(lines: Seq<Seq<char>>)
    requires
        all_well_formed(lines),
    ensures
        batch_atoms(lines) is Some,
        batch_atoms(lines)->0.len() == lines.len(),
        forall|i: int|
            0 <= i < lines.len() ==> line_atom(lines[i]) == Some(#[trigger] batch_atoms(lines)->0[i]),
{
}

} // verus!
