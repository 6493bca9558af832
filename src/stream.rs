//! Turning a response body into the text that is handed back to the client.

use vstd::prelude::*;
use crate::text::{push_char, views};

verus! {

broadcast use vstd::string::group_string_axioms;

/// The field prefix of an event-stream data line.
pub open spec fn data_prefix() -> Seq<char> {
    seq!['d', 'a', 't', 'a', ':', ' ']
}

/// The payload of an event-stream line: what follows `"data: "`, if the line
/// starts with it.
pub open spec fn data_payload(l: Seq<char>) -> Option<Seq<char>> {
    if l.len() >= data_prefix().len() && l.take(data_prefix().len() as int) == data_prefix() {
        Some(l.skip(data_prefix().len() as int))
    } else {
        None
    }
}

/// The non-empty payloads of the data lines among `ls`, in order.
pub open spec fn payloads(ls: Seq<Seq<char>>) -> Seq<Seq<char>>
    decreases ls.len(),
{
    if ls.len() == 0 {
        seq![]
    } else {
        match data_payload(ls.last()) {
            Some(p) if p.len() > 0 => payloads(ls.drop_last()).push(p),
            _ => payloads(ls.drop_last()),
        }
    }
}

/// The texts of `ps` joined with `'\n'` between each two.
pub open spec fn join_lines(ps: Seq<Seq<char>>) -> Seq<char>
    decreases ps.len(),
{
    if ps.len() == 0 {
        seq![]
    } else if ps.len() == 1 {
        ps[0]
    } else {
        join_lines(ps.drop_last()) + seq!['\n'] + ps.last()
    }
}

/// The result of an event-stream body read as the lines `ls`: nothing when
/// it has no non-empty payload, else the payloads one per line.
pub open spec fn stream_result(ls: Seq<Seq<char>>) -> Option<Seq<char>> {
    if payloads(ls).len() == 0 {
        None
    } else {
        Some(join_lines(payloads(ls)))
    }
}

/// The result of a plain body: nothing when it is empty, else the body.
pub open spec fn body_result(b: Seq<char>) -> Option<Seq<char>> {
    if b.len() == 0 {
        None
    } else {
        Some(b)
    }
}

/// The text of an optional string.
pub open spec fn opt_view(o: Option<String>) -> Option<Seq<char>> {
    match o {
        Some(s) => Some(s@),
        None => None,
    }
}

fn prefix_char(k: usize) -> (c: char)
    requires
        k < 6,
    ensures
        c == data_prefix()[k as int],
{
    match k {
        0 => 'd',
        1 => 'a',
        2 => 't',
        3 => 'a',
        4 => ':',
        _ => ' ',
    }
}

/// The payload of one event-stream line, if it is a data line.
pub fn line_payload(line: &str) -> (r: Option<String>)
    ensures
        opt_view(r) == data_payload(line@),
{
    let mut rest = String::new();
    let mut ok: bool = true;
    let mut k: usize = 0;
    for c in it: line.chars()
        invariant
            it.seq() == line@,
            k == (if it.index() < 6 {
                it.index() as int
            } else {
                6
            }),
            ok == (forall|j: int|
                0 <= j < 6 && j < it.index() ==> #[trigger] line@[j] == data_prefix()[j]),
            rest@ == (if it.index() <= 6 {
                seq![]
            } else {
                line@.subrange(6, it.index() as int)
            }),
    {
        let ghost i = it.index() as int;
        if k < 6 {
            if c != prefix_char(k) {
                ok = false;
            }
            k = k + 1;
        } else {
            assert(line@.subrange(6, i + 1) =~= line@.subrange(6, i).push(c));
            push_char(&mut rest, c);
        }
    }
    if ok && k == 6 {
        assert(line@.take(6) =~= data_prefix());
        assert(rest@ =~= line@.skip(6));
        Some(rest)
    } else {
        proof {
            if line@.len() >= 6 && line@.take(6) == data_prefix() {
                assert forall|j: int| 0 <= j < 6 implies #[trigger] line@[j]
                    == data_prefix()[j] by {
                    assert(line@.take(6)[j] == line@[j]);
                }
            }
        }
        None
    }
}

/// Collects the non-empty data payloads of an event-stream body, read as
/// `lines`, and joins them with `'\n'`; `None` when there is none.
pub fn event_stream_result(lines: &Vec<String>) -> (r: Option<String>)
    ensures
        opt_view(r) == stream_result(views(lines@)),
{
    let mut out = String::new();
    let mut n: usize = 0;
    let mut i: usize = 0;
    while i < lines.len()
        invariant
            i <= lines.len(),
            n as int == payloads(views(lines@.take(i as int))).len(),
            out@ == join_lines(payloads(views(lines@.take(i as int)))),
            n <= i,
        decreases lines.len() - i,
    {
        let ghost before = views(lines@.take(i as int));
        let ghost after = views(lines@.take(i + 1));
        assert(after.drop_last() =~= before);
        assert(after.last() == lines@[i as int]@);
        match line_payload(lines[i].as_str()) {
            Some(p) => {
                if p.as_str().is_empty() {
                } else {
                    if n > 0 {
                        out.append("\n");
                        proof {
                            reveal_strlit("\n");
                        }
                    }
                    out.append(p.as_str());
                    n = n + 1;
                    assert(payloads(after).drop_last() =~= payloads(before));
                }
            },
            None => {},
        }
        i = i + 1;
    }
    assert(lines@.take(lines@.len() as int) =~= lines@);
    if n == 0 {
        None
    } else {
        Some(out)
    }
}

/// The result of a plain (non-stream) body: `None` when it is empty.
pub fn plain_result(body: String) -> (r: Option<String>)
    ensures
        opt_view(r) == body_result(body@),
{
    if body.as_str().is_empty() {
        None
    } else {
        Some(body)
    }
}

/// An event stream with no data line gives no result.
pub proof fn lemma_no_data_no_result(ls: Seq<Seq<char>>)
    requires
        forall|k: int| 0 <= k < ls.len() ==> data_payload(#[trigger] ls[k]) is None,
    ensures
        stream_result(ls) is None,
    decreases ls.len(),
{
    if ls.len() > 0 {
        let rest = ls.drop_last();
        assert forall|k: int| 0 <= k < rest.len() implies data_payload(#[trigger] rest[k]) is None by {
            assert(rest[k] == ls[k]);
        }
        lemma_no_data_no_result(rest);
        assert(data_payload(ls[ls.len() - 1]) is None);
    }
}

} // verus!
