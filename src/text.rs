//! Character-level helpers: white space, blank lines, splitting into lines.

use vstd::prelude::*;

verus! {

broadcast use vstd::string::group_string_axioms;

/// The characters with the Unicode `White_Space` property.
pub open spec fn is_white_space(c: char) -> bool {
    ||| ('\u{9}' <= c && c <= '\u{d}')
    ||| c == ' '
    ||| c == '\u{85}'
    ||| c == '\u{a0}'
    ||| c == '\u{1680}'
    ||| ('\u{2000}' <= c && c <= '\u{200a}')
    ||| c == '\u{2028}'
    ||| c == '\u{2029}'
    ||| c == '\u{202f}'
    ||| c == '\u{205f}'
    ||| c == '\u{3000}'
}

/// A text is blank when it is empty or made of white space only.
pub open spec fn is_blank(s: Seq<char>) -> bool {
    forall|i: int| 0 <= i < s.len() ==> is_white_space(#[trigger] s[i])
}

/// Relies on `char::is_whitespace`: true exactly for the characters with the
/// Unicode `White_Space` property.
#[verifier::external_body]
fn is_space(c: char) -> (r: bool)
    ensures
        r == is_white_space(c),
{
    c.is_whitespace()
}

/// Whether an input line is forwarded: a blank line is skipped.
pub fn should_forward(line: &str) -> (r: bool)
    ensures
        r == !is_blank(line@),
{
    !blank(line)
}

/// Relies on `String::push`: appends one character.
#[verifier::external_body]
pub(crate) fn push_char(s: &mut String, c: char)
    ensures
        final(s)@ == old(s)@.push(c),
{
    s.push(c)
}

/// Whether `s` is empty or holds white space only.
pub fn blank(s: &str) -> (r: bool)
    ensures
        r == is_blank(s@),
{
    let mut all: bool = true;
    for c in it: s.chars()
        invariant
            it.seq() == s@,
            all == (forall|j: int| 0 <= j < it.index() ==> is_white_space(#[trigger] s@[j])),
    {
        if !is_space(c) {
            all = false;
        }
    }
    all
}

/// A line without the `'\r'` that ends it, if one does.
pub open spec fn strip_cr(l: Seq<char>) -> Seq<char> {
    if l.len() > 0 && l.last() == '\r' {
        l.drop_last()
    } else {
        l
    }
}

/// The characters after the last `'\n'` of `s` (all of `s` if it has none).
pub open spec fn open_line(s: Seq<char>) -> Seq<char>
    decreases s.len(),
{
    if s.len() == 0 {
        seq![]
    } else if s.last() == '\n' {
        seq![]
    } else {
        open_line(s.drop_last()).push(s.last())
    }
}

/// The lines of `s` that a `'\n'` ends, in order, each without its `"\r\n"`
/// or `'\n'`.
pub open spec fn closed_lines(s: Seq<char>) -> Seq<Seq<char>>
    decreases s.len(),
{
    if s.len() == 0 {
        seq![]
    } else if s.last() == '\n' {
        closed_lines(s.drop_last()).push(strip_cr(open_line(s.drop_last())))
    } else {
        closed_lines(s.drop_last())
    }
}

/// Every line of `s`: the closed ones, then the open rest (possibly empty).
pub open spec fn lines_of(s: Seq<char>) -> Seq<Seq<char>> {
    closed_lines(s).push(open_line(s))
}

/// The lines of `ls` that are not blank, in order.
pub open spec fn non_blank(ls: Seq<Seq<char>>) -> Seq<Seq<char>>
    decreases ls.len(),
{
    if ls.len() == 0 {
        seq![]
    } else if is_blank(ls.last()) {
        non_blank(ls.drop_last())
    } else {
        non_blank(ls.drop_last()).push(ls.last())
    }
}

/// What is written out for a result text: its non-blank lines.
pub open spec fn output_lines_of(s: Seq<char>) -> Seq<Seq<char>> {
    non_blank(lines_of(s))
}

/// The texts held by a sequence of strings.
pub open spec fn views(v: Seq<String>) -> Seq<Seq<char>> {
    v.map_values(|l: String| l@)
}

proof fn lemma_views_push(v: Seq<String>, x: String)
    ensures
        views(v.push(x)) == views(v).push(x@),
{
    assert(views(v.push(x)) =~= views(v).push(x@));
}

/// Splits `text` into lines and keeps those that are not blank, in order.
pub fn output_lines(text: &str) -> (r: Vec<String>)
    ensures
        views(r@) == output_lines_of(text@),
        forall|i: int| 0 <= i < r@.len() ==> !is_blank(#[trigger] r@[i]@),
{
    let mut out: Vec<String> = Vec::new();
    let mut cur = String::new();
    let mut cr: bool = false;
    for c in it: text.chars()
        invariant
            it.seq() == text@,
            views(out@) == non_blank(closed_lines(text@.take(it.index() as int))),
            open_line(text@.take(it.index() as int)) == (if cr {
                cur@.push('\r')
            } else {
                cur@
            }),
            !cr ==> cur@.len() == 0 || cur@.last() != '\r',
    {
        let ghost i = it.index() as int;
        let ghost pre = text@.take(i);
        let ghost next = text@.take(i + 1);
        assert(next =~= pre.push(c));
        assert(next.drop_last() =~= pre);
        if c == '\n' {
            proof {
                if cr {
                    assert(cur@.push('\r').drop_last() =~= cur@);
                }
                assert(closed_lines(next).drop_last() =~= closed_lines(pre));
            }
            if !blank(cur.as_str()) {
                proof {
                    lemma_views_push(out@, cur);
                }
                out.push(cur);
            }
            cur = String::new();
            cr = false;
        } else if c == '\r' {
            if cr {
                push_char(&mut cur, '\r');
            }
            cr = true;
        } else {
            if cr {
                push_char(&mut cur, '\r');
            }
            push_char(&mut cur, c);
            cr = false;
        }
    }
    assert(text@.take(text@.len() as int) =~= text@);
    if cr {
        push_char(&mut cur, '\r');
    }
    proof {
        assert(lines_of(text@).drop_last() =~= closed_lines(text@));
    }
    if !blank(cur.as_str()) {
        proof {
            lemma_views_push(out@, cur);
        }
        out.push(cur);
    }
    proof {
        lemma_non_blank_all(lines_of(text@));
        assert forall|i: int| 0 <= i < out@.len() implies !is_blank(#[trigger] out@[i]@) by {
            assert(views(out@) == non_blank(lines_of(text@)));
            assert(views(out@).len() == out@.len());
            assert(non_blank(lines_of(text@))[i] == out@[i]@);
        }
    }
    out
}

/// No line that `non_blank` keeps is blank.
pub proof fn lemma_non_blank_all(ls: Seq<Seq<char>>)
    ensures
        forall|i: int| 0 <= i < non_blank(ls).len() ==> !is_blank(#[trigger] non_blank(ls)[i]),
    decreases ls.len(),
{
    if ls.len() > 0 {
        lemma_non_blank_all(ls.drop_last());
        let r = non_blank(ls.drop_last());
        assert forall|i: int| 0 <= i < non_blank(ls).len() implies !is_blank(
            #[trigger] non_blank(ls)[i],
        ) by {
            if i < r.len() {
                assert(non_blank(ls)[i] == r[i]);
            }
        }
    }
}

/// Whether `needle` occurs in `hay` as a run of consecutive characters.
pub open spec fn occurs_in(hay: Seq<char>, needle: Seq<char>) -> bool {
    exists|i: int|
        0 <= i && i + needle.len() <= hay.len() && #[trigger] hay.subrange(i, i + needle.len())
            == needle
}

/// The characters of `s`, one by one.
pub fn chars_of(s: &str) -> (r: Vec<char>)
    ensures
        r@ == s@,
{
    let mut v: Vec<char> = Vec::new();
    for c in it: s.chars()
        invariant
            it.seq() == s@,
            v@ == s@.take(it.index() as int),
    {
        assert(s@.take(it.index() + 1) =~= v@.push(c));
        v.push(c);
    }
    assert(s@.take(s@.len() as int) =~= s@);
    v
}

/// Whether `needle` occurs in `hay`.
pub fn contains(hay: &str, needle: &str) -> (r: bool)
    ensures
        r == occurs_in(hay@, needle@),
{
    let h = chars_of(hay);
    let n = chars_of(needle);
    if n.len() > h.len() {
        return false;
    }
    let mut i: usize = 0;
    while i <= h.len() - n.len()
        invariant
            i <= h.len() - n.len() + 1,
            h@ == hay@,
            n@ == needle@,
            n.len() <= h.len(),
            forall|k: int| 0 <= k < i ==> #[trigger] h@.subrange(k, k + n@.len()) != n@,
        decreases h.len() - i,
    {
        let mut j: usize = 0;
        while j < n.len() && h[i + j] == n[j]
            invariant
                i + n.len() <= h.len(),
                j <= n.len(),
                forall|m: int| 0 <= m < j ==> h@[i + m] == n@[m],
            decreases n.len() - j,
        {
            j = j + 1;
        }
        if j == n.len() {
            assert(h@.subrange(i as int, i + n@.len()) =~= n@);
            return true;
        }
        assert(h@.subrange(i as int, i + n@.len())[j as int] == h@[i + j]);
        assert(h@.subrange(i as int, i + n@.len())[j as int] != n@[j as int]);
        i = i + 1;
    }
    proof {
        if occurs_in(hay@, needle@) {
            let k = choose|k: int|
                0 <= k && k + needle@.len() <= hay@.len() && #[trigger] hay@.subrange(
                    k,
                    k + needle@.len(),
                ) == needle@;
            assert(h@.subrange(k, k + n@.len()) != n@);
        }
    }
    false
}

} // verus!
