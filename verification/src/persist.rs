//! The flat-file format for the two lists: one item per line, each line
//! carrying exactly one of the prefixes `TODO: ` or `DONE: `, all TODO lines
//! before all DONE lines, in list order. A line with neither prefix is a
//! fatal load error reported with its 1-indexed line number.

use vstd::prelude::*;
use vstd::string::StrSliceExecFns;
use vstd::string::StringExecFns;
use crate::status::Status;

verus! {

/// The line prefix of a TODO item.
pub open spec fn todo_prefix() -> Seq<char> {
    "TODO: "@
}

/// The line prefix of a DONE item.
pub open spec fn done_prefix() -> Seq<char> {
    "DONE: "@
}

/// Whether `line` starts with the prefix `p`.
pub open spec fn has_prefix(line: Seq<char>, p: Seq<char>) -> bool {
    line.len() >= p.len() && line.subrange(0, p.len() as int) == p
}

/// The status and title a line stands for, or `None` for an ill-formed line.
pub open spec fn parse_item_spec(line: Seq<char>) -> Option<(Status, Seq<char>)> {
    if has_prefix(line, todo_prefix()) {
        Some((Status::Todo, line.skip(todo_prefix().len() as int)))
    } else if has_prefix(line, done_prefix()) {
        Some((Status::Done, line.skip(done_prefix().len() as int)))
    } else {
        None
    }
}

/// Whether every line of a file parses.
pub open spec fn parses(lines: Seq<Seq<char>>) -> bool {
    forall|i: int| 0 <= i < lines.len() ==> (#[trigger] parse_item_spec(lines[i])) is Some
}

/// The titles of the lines carrying status `st`, in file order.
pub open spec fn titles_of(lines: Seq<Seq<char>>, st: Status) -> Seq<Seq<char>>
    decreases lines.len(),
{
    if lines.len() == 0 {
        Seq::empty()
    } else {
        let rest = titles_of(lines.drop_last(), st);
        match parse_item_spec(lines.last()) {
            Some(p) => if p.0 == st {
                rest.push(p.1)
            } else {
                rest
            },
            None => rest,
        }
    }
}

/// The saved file, line by line: every TODO title under its prefix, then
/// every DONE title under its prefix.
pub open spec fn render_spec(todos: Seq<Seq<char>>, dones: Seq<Seq<char>>) -> Seq<Seq<char>> {
    todos.map_values(|t: Seq<char>| todo_prefix() + t)
        + dones.map_values(|t: Seq<char>| done_prefix() + t)
}

/// Whether `s` starts with the prefix `p`, compared character by character.
fn str_has_prefix(s: &str, p: &str) -> (r: bool)
    ensures
        r == has_prefix(s@, p@),
{
    let slen = s.unicode_len();
    let plen = p.unicode_len();
    if slen < plen {
        return false;
    }
    let mut i: usize = 0;
    while i < plen
        invariant
            i <= plen,
            slen as nat == s@.len(),
            plen as nat == p@.len(),
            plen <= slen,
            forall|j: int| 0 <= j < i ==> s@[j] == p@[j],
        decreases plen - i,
    {
        if s.get_char(i) != p.get_char(i) {
            proof {
                assert(s@.subrange(0, p@.len() as int)[i as int] == s@[i as int]);
            }
            return false;
        }
        i = i + 1;
    }
    proof {
        assert(s@.subrange(0, p@.len() as int) =~= p@);
    }
    true
}

/// The status and title of one line of the file, or `None` when the line
/// carries neither recognized prefix.
pub fn parse_item<'a>(line: &'a str) -> (r: Option<(Status, &'a str)>)
    ensures
        parse_item_spec(line@) is None ==> r is None,
        parse_item_spec(line@) matches Some(p) ==> (r matches Some(q) && q.0 == p.0 && q.1@ == p.1),
{
    proof {
        reveal_strlit("TODO: ");
        reveal_strlit("DONE: ");
    }
    let len = line.unicode_len();
    if str_has_prefix(line, "TODO: ") {
        let title = line.substring_char(6, len);
        proof {
            assert(title@ =~= line@.skip(todo_prefix().len() as int));
        }
        Some((Status::Todo, title))
    } else if str_has_prefix(line, "DONE: ") {
        let title = line.substring_char(6, len);
        proof {
            assert(title@ =~= line@.skip(done_prefix().len() as int));
        }
        Some((Status::Done, title))
    } else {
        None
    }
}

/// Split the lines of the saved file into the TODO titles and the DONE
/// titles, in order. The first ill-formed line fails the whole load with its
/// 1-indexed number; no partial result is handed out.
pub fn load_items(lines: &Vec<String>) -> (r: Result<(Vec<String>, Vec<String>), usize>)
    ensures
        match r {
            Ok(ld) => parses(lines.deep_view()) && ld.0.deep_view()
                == titles_of(lines.deep_view(), Status::Todo) && ld.1.deep_view() == titles_of(
                lines.deep_view(),
                Status::Done,
            ),
            Err(k) => 1 <= k <= lines@.len() && parse_item_spec(lines.deep_view()[k - 1]) is None
                && (forall|i: int|
                0 <= i < k - 1 ==> (#[trigger] parse_item_spec(lines.deep_view()[i])) is Some),
        },
{
    let ghost ldv = lines.deep_view();
    let mut todos: Vec<String> = Vec::new();
    let mut dones: Vec<String> = Vec::new();
    let mut i: usize = 0;
    while i < lines.len()
        invariant
            i <= lines@.len(),
            ldv == lines.deep_view(),
            forall|j: int| 0 <= j < i ==> (#[trigger] parse_item_spec(ldv[j])) is Some,
            todos.deep_view() == titles_of(ldv.take(i as int), Status::Todo),
            dones.deep_view() == titles_of(ldv.take(i as int), Status::Done),
        decreases lines@.len() - i,
    {
        proof {
            assert(ldv.take(i + 1).drop_last() =~= ldv.take(i as int));
            assert(ldv.take(i + 1).last() == ldv[i as int]);
        }
        match parse_item(lines[i].as_str()) {
            Some((st, title)) => {
                let ghost todos_pre = todos.deep_view();
                let ghost dones_pre = dones.deep_view();
                let owned = title.to_owned();
                match st {
                    Status::Todo => {
                        todos.push(owned);
                        proof {
                            assert(todos.deep_view() =~= todos_pre.push(ldv[i as int].skip(
                                todo_prefix().len() as int,
                            )));
                        }
                    },
                    Status::Done => {
                        dones.push(owned);
                        proof {
                            assert(dones.deep_view() =~= dones_pre.push(ldv[i as int].skip(
                                done_prefix().len() as int,
                            )));
                        }
                    },
                }
            },
            None => {
                return Err(i + 1);
            },
        }
        i = i + 1;
    }
    proof {
        assert(ldv.take(lines@.len() as int) =~= ldv);
    }
    Ok((todos, dones))
}

/// The lines to save: each TODO title under its prefix, then each DONE title
/// under its prefix.
pub fn render_state(todos: &Vec<String>, dones: &Vec<String>) -> (r: Vec<String>)
    ensures
        r.deep_view() == render_spec(todos.deep_view(), dones.deep_view()),
{
    let mut out: Vec<String> = Vec::new();
    let mut i: usize = 0;
    while i < todos.len()
        invariant
            i <= todos@.len(),
            out.deep_view() == todos.deep_view().take(i as int).map_values(
                |t: Seq<char>| todo_prefix() + t,
            ),
        decreases todos@.len() - i,
    {
        let ghost out_pre = out.deep_view();
        let line = String::from_str("TODO: ").concat(todos[i].as_str());
        out.push(line);
        proof {
            assert(out.deep_view() =~= out_pre.push(todo_prefix() + todos.deep_view()[i as int]));
            assert(out.deep_view() =~= todos.deep_view().take(i + 1).map_values(
                |t: Seq<char>| todo_prefix() + t,
            ));
        }
        i = i + 1;
    }
    let mut i: usize = 0;
    while i < dones.len()
        invariant
            i <= dones@.len(),
            out.deep_view() == todos.deep_view().map_values(|t: Seq<char>| todo_prefix() + t)
                + dones.deep_view().take(i as int).map_values(|t: Seq<char>| done_prefix() + t),
        decreases dones@.len() - i,
    {
        let ghost out_pre = out.deep_view();
        let line = String::from_str("DONE: ").concat(dones[i].as_str());
        out.push(line);
        proof {
            assert(out.deep_view() =~= out_pre.push(done_prefix() + dones.deep_view()[i as int]));
            assert(out.deep_view() =~= todos.deep_view().map_values(
                |t: Seq<char>| todo_prefix() + t,
            ) + dones.deep_view().take(i + 1).map_values(|t: Seq<char>| done_prefix() + t));
        }
        i = i + 1;
    }
    proof {
        assert(todos.deep_view().take(todos@.len() as int) =~= todos.deep_view());
        assert(dones.deep_view().take(dones@.len() as int) =~= dones.deep_view());
        assert(out.deep_view() =~= render_spec(todos.deep_view(), dones.deep_view()));
    }
    out
}

/// A line rendered with the TODO prefix parses back to the same TODO title.
proof fn lemma_parse_render_todo(t: Seq<char>)
    ensures
        parse_item_spec(todo_prefix() + t) == Some((Status::Todo, t)),
{
    assert((todo_prefix() + t).subrange(0, todo_prefix().len() as int) =~= todo_prefix());
    assert((todo_prefix() + t).skip(todo_prefix().len() as int) =~= t);
}

/// A line rendered with the DONE prefix parses back to the same DONE title.
proof fn lemma_parse_render_done(t: Seq<char>)
    ensures
        parse_item_spec(done_prefix() + t) == Some((Status::Done, t)),
{
    reveal_strlit("TODO: ");
    reveal_strlit("DONE: ");
    let line = done_prefix() + t;
    if has_prefix(line, todo_prefix()) {
        assert(line.subrange(0, todo_prefix().len() as int)[0] == line[0]);
        assert(false);
    }
    assert(line.subrange(0, done_prefix().len() as int) =~= done_prefix());
    assert(line.skip(done_prefix().len() as int) =~= t);
}

/// Saving and loading round-trip: the rendered file parses in full, and its
/// TODO and DONE titles are exactly the lists it was rendered from, in order.
pub proof fn lemma_save_load_round_trip(todos: Seq<Seq<char>>, dones: Seq<Seq<char>>)
    ensures
        parses(render_spec(todos, dones)),
        titles_of(render_spec(todos, dones), Status::Todo) == todos,
        titles_of(render_spec(todos, dones), Status::Done) == dones,
    decreases todos.len() + dones.len(),
{
    let r = render_spec(todos, dones);
    if dones.len() > 0 {
        let prev = render_spec(todos, dones.drop_last());
        lemma_save_load_round_trip(todos, dones.drop_last());
        assert(r.drop_last() =~= prev);
        assert(r.last() == done_prefix() + dones.last());
        lemma_parse_render_done(dones.last());
        assert(titles_of(r, Status::Done) =~= dones);
        assert forall|i: int| 0 <= i < r.len() implies (#[trigger] parse_item_spec(
            r[i],
        )) is Some by {
            if i < r.len() - 1 {
                assert(parse_item_spec(prev[i]) is Some);
            }
        }
    } else if todos.len() > 0 {
        let prev = render_spec(todos.drop_last(), dones);
        lemma_save_load_round_trip(todos.drop_last(), dones);
        assert(r.drop_last() =~= prev);
        assert(r.last() == todo_prefix() + todos.last());
        lemma_parse_render_todo(todos.last());
        assert(titles_of(r, Status::Todo) =~= todos);
        assert forall|i: int| 0 <= i < r.len() implies (#[trigger] parse_item_spec(
            r[i],
        )) is Some by {
            if i < r.len() - 1 {
                assert(parse_item_spec(prev[i]) is Some);
            }
        }
    } else {
        assert(r =~= Seq::<Seq<char>>::empty());
    }
}

} // verus!
