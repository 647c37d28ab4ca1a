//! The line format in which the two lists are kept: one item to a line,
//! `TODO: ` before the text of a todo item and `DONE: ` before that of a
//! done item, the todo items first.
//!
//! The codec works on lines. Cutting a file into lines and joining lines
//! into a file is left to the caller; a text that holds a line break is one
//! line here and would be two in a file.

use vstd::prelude::*;
use vstd::string::{StrSliceExecFns, StringExecFns};
use crate::focus::Focus;

verus! {

/// The tag of a todo item, `TODO: `.
pub open spec fn todo_tag() -> Seq<char> {
    seq!['T', 'O', 'D', 'O', ':', ' ']
}

/// The tag of a done item, `DONE: `.
pub open spec fn done_tag() -> Seq<char> {
    seq!['D', 'O', 'N', 'E', ':', ' ']
}

/// The tag of the items of a list.
pub open spec fn tag_of(focus: Focus) -> Seq<char> {
    match focus {
        Focus::Todo => todo_tag(),
        Focus::Done => done_tag(),
    }
}

/// The line of an item: its list's tag, then its text.
pub open spec fn line_of(focus: Focus, text: Seq<char>) -> Seq<char> {
    tag_of(focus) + text
}

/// What a line says: the list that its tag names and the text behind the
/// tag, or nothing where it starts with neither tag.
pub open spec fn parsed(line: Seq<char>) -> Option<(Focus, Seq<char>)> {
    if todo_tag().is_prefix_of(line) {
        Some((Focus::Todo, line.skip(todo_tag().len() as int)))
    } else if done_tag().is_prefix_of(line) {
        Some((Focus::Done, line.skip(done_tag().len() as int)))
    } else {
        None
    }
}

/// The line is that of an item of the list `focus`.
pub open spec fn belongs_to(focus: Focus) -> spec_fn(Seq<char>) -> bool {
    |line: Seq<char>| parsed(line) matches Some((f, _)) && f == focus
}

/// The text of a line, without its tag.
pub open spec fn text_of() -> spec_fn(Seq<char>) -> Seq<char> {
    |line: Seq<char>|
        match parsed(line) {
            Some((_, text)) => text,
            None => line,
        }
}

/// The texts of the items that the lines give to the list `focus`, in the
/// order of the lines.
pub open spec fn items_of(lines: Seq<Seq<char>>, focus: Focus) -> Seq<Seq<char>> {
    lines.filter(belongs_to(focus)).map_values(text_of())
}

/// The lines of two lists: the todo items in their order, then the done
/// items in theirs.
pub open spec fn serialized(todos: Seq<Seq<char>>, dones: Seq<Seq<char>>) -> Seq<Seq<char>> {
    lines_of(Focus::Todo, todos) + lines_of(Focus::Done, dones)
}

/// The lines of the items of one list.
pub open spec fn lines_of(focus: Focus, texts: Seq<Seq<char>>) -> Seq<Seq<char>> {
    texts.map_values(|text: Seq<char>| line_of(focus, text))
}

/// An item's line says which list the item is in and what its text is,
/// whatever the text.
pub proof fn lemma_line_parses_back(focus: Focus, text: Seq<char>)
    ensures
        parsed(line_of(focus, text)) == Some((focus, text)),
{
}

/// The lines of one list give that list its items back, and give the other
/// list nothing.
pub proof fn lemma_lines_of_one_list(focus: Focus, texts: Seq<Seq<char>>)
    ensures
        items_of(lines_of(focus, texts), focus) == texts,
        items_of(lines_of(focus, texts), focus.other()) == Seq::<Seq<char>>::empty(),
    decreases texts.len(),
{
    let lines = lines_of(focus, texts);
    if texts.len() == 0 {
        assert(lines.filter(belongs_to(focus)) =~= Seq::<Seq<char>>::empty()) by {
            reveal(Seq::filter);
        }
        assert(lines.filter(belongs_to(focus.other())) =~= Seq::<Seq<char>>::empty()) by {
            reveal(Seq::filter);
        }
    } else {
        let front = texts.drop_last();
        let line = line_of(focus, texts.last());
        lemma_lines_of_one_list(focus, front);
        lemma_line_parses_back(focus, texts.last());
        assert(lines =~= lines_of(focus, front).push(line));
        lines_of(focus, front).lemma_filter_push(line, belongs_to(focus));
        lines_of(focus, front).lemma_filter_push(line, belongs_to(focus.other()));
        assert(items_of(lines, focus) =~= items_of(lines_of(focus, front), focus).push(
            texts.last(),
        ));
    }
}

/// Every line of two lists is that of an item, and reading the lines gives
/// back the two lists, each with its items in their order and every text
/// as it was. This holds of every text: a text that starts with a tag
/// itself is read back whole, since only the first tag of a line is taken
/// off.
pub proof fn lemma_round_trip(todos: Seq<Seq<char>>, dones: Seq<Seq<char>>)
    ensures
        forall|i: int|
            0 <= i < serialized(todos, dones).len() ==> parsed(
                #[trigger] serialized(todos, dones)[i],
            ) is Some,
        items_of(serialized(todos, dones), Focus::Todo) == todos,
        items_of(serialized(todos, dones), Focus::Done) == dones,
{
    let todo_lines = lines_of(Focus::Todo, todos);
    let done_lines = lines_of(Focus::Done, dones);
    assert forall|i: int| 0 <= i < serialized(todos, dones).len() implies parsed(
        #[trigger] serialized(todos, dones)[i],
    ) is Some by {
        if i < todos.len() {
            lemma_line_parses_back(Focus::Todo, todos[i]);
        } else {
            lemma_line_parses_back(Focus::Done, dones[i - todos.len()]);
        }
    }
    lemma_lines_of_one_list(Focus::Todo, todos);
    lemma_lines_of_one_list(Focus::Done, dones);
    Seq::filter_distributes_over_add(todo_lines, done_lines, belongs_to(Focus::Todo));
    Seq::filter_distributes_over_add(todo_lines, done_lines, belongs_to(Focus::Done));
    assert(items_of(todo_lines + done_lines, Focus::Done) =~= items_of(todo_lines, Focus::Done)
        + items_of(done_lines, Focus::Done));
}

/// A line that starts with neither tag. `line` counts from 1.
#[derive(Clone, Copy, Debug, PartialEq, Eq, Structural)]
pub struct IllFormedLine {
    pub line: usize,
}

/// What is left of `line` behind `prefix`, if it starts with it.
fn strip_prefix<'a>(line: &'a str, prefix: &str) -> (rest: Option<&'a str>)
    ensures
        match rest {
            Some(rest) => prefix@.is_prefix_of(line@) && rest@ == line@.skip(prefix@.len() as int),
            None => !prefix@.is_prefix_of(line@),
        },
{
    let n = line.unicode_len();
    let m = prefix.unicode_len();
    if n < m {
        return None;
    }
    let mut i: usize = 0;
    while i < m
        invariant
            i <= m <= n,
            m == prefix@.len(),
            n == line@.len(),
            forall|j: int| 0 <= j < i ==> line@[j] == prefix@[j],
        decreases m - i,
    {
        if line.get_char(i) != prefix.get_char(i) {
            return None;
        }
        i += 1;
    }
    let rest = line.substring_char(m, n);
    Some(rest)
}

/// Reads one line: the list it belongs to and the text of the item.
pub fn parse_item(line: &str) -> (item: Option<(Focus, &str)>)
    ensures
        match item {
            Some((focus, title)) => parsed(line@) == Some((focus, title@)),
            None => parsed(line@) is None,
        },
{
    proof {
        reveal_strlit("TODO: ");
        reveal_strlit("DONE: ");
    }
    match strip_prefix(line, "TODO: ") {
        Some(title) => Some((Focus::Todo, title)),
        None => match strip_prefix(line, "DONE: ") {
            Some(title) => Some((Focus::Done, title)),
            None => None,
        },
    }
}

/// Writes one list's items as lines behind `lines`.
fn push_lines(lines: &mut Vec<String>, items: &[String], tag: &str)
    ensures
        final(lines).deep_view() == old(lines).deep_view() + items.deep_view().map_values(
            |text: Seq<char>| tag@ + text,
        ),
{
    let ghost line = |text: Seq<char>| tag@ + text;
    let mut i: usize = 0;
    while i < items.len()
        invariant
            i <= items@.len(),
            line == |text: Seq<char>| tag@ + text,
            lines.deep_view() == old(lines).deep_view() + items.deep_view().take(
                i as int,
            ).map_values(line),
        decreases items@.len() - i,
    {
        let ghost before = lines.deep_view();
        let mut entry = String::from_str(tag);
        entry.append(items[i].as_str());
        lines.push(entry);
        assert(lines.deep_view() =~= before.push(entry@));
        i += 1;
    }
}

/// The lines of the two lists, ready to be written out.
pub fn serialize(todos: &[String], dones: &[String]) -> (lines: Vec<String>)
    ensures
        lines.deep_view() == serialized(todos.deep_view(), dones.deep_view()),
{
    proof {
        reveal_strlit("TODO: ");
        reveal_strlit("DONE: ");
    }
    assert("TODO: "@ =~= todo_tag());
    assert("DONE: "@ =~= done_tag());
    let mut lines: Vec<String> = Vec::new();
    push_lines(&mut lines, todos, "TODO: ");
    push_lines(&mut lines, dones, "DONE: ");
    lines
}

/// Reads the two lists from their lines. Every line must be that of an
/// item; the first one that is not is reported by its number, and then no
/// list is returned.
pub fn deserialize(lines: &[String]) -> (lists: Result<(Vec<String>, Vec<String>), IllFormedLine>)
    ensures
        match lists {
            Ok((todos, dones)) => {
                &&& forall|i: int| 0 <= i < lines@.len() ==> parsed(lines.deep_view()[i]) is Some
                &&& todos.deep_view() == items_of(lines.deep_view(), Focus::Todo)
                &&& dones.deep_view() == items_of(lines.deep_view(), Focus::Done)
            },
            Err(e) => {
                &&& 1 <= e.line <= lines@.len()
                &&& parsed(lines.deep_view()[e.line - 1]) is None
                &&& forall|i: int| 0 <= i < e.line - 1 ==> parsed(lines.deep_view()[i]) is Some
            },
        },
{
    let mut todos: Vec<String> = Vec::new();
    let mut dones: Vec<String> = Vec::new();
    let mut i: usize = 0;
    while i < lines.len()
        invariant
            i <= lines@.len(),
            forall|j: int| 0 <= j < i ==> parsed(lines.deep_view()[j]) is Some,
            todos.deep_view() == items_of(lines.deep_view().take(i as int), Focus::Todo),
            dones.deep_view() == items_of(lines.deep_view().take(i as int), Focus::Done),
        decreases lines@.len() - i,
    {
        let ghost seen = lines.deep_view().take(i as int);
        let ghost line = lines.deep_view()[i as int];
        assert(lines.deep_view().take(i + 1) =~= seen.push(line));
        proof {
            seen.lemma_filter_push(line, belongs_to(Focus::Todo));
            seen.lemma_filter_push(line, belongs_to(Focus::Done));
        }
        match parse_item(lines[i].as_str()) {
            Some((Focus::Todo, title)) => {
                todos.push(String::from_str(title));
                assert(seen.filter(belongs_to(Focus::Todo)).push(line).map_values(text_of())
                    =~= seen.filter(belongs_to(Focus::Todo)).map_values(text_of()).push(title@));
            },
            Some((Focus::Done, title)) => {
                dones.push(String::from_str(title));
                assert(seen.filter(belongs_to(Focus::Done)).push(line).map_values(text_of())
                    =~= seen.filter(belongs_to(Focus::Done)).map_values(text_of()).push(title@));
            },
            None => {
                return Err(IllFormedLine { line: i + 1 });
            },
        }
        i += 1;
    }
    assert(lines.deep_view().take(i as int) =~= lines.deep_view());
    Ok((todos, dones))
}

} // verus!
