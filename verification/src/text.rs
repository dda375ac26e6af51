//! Character-level text handling for the output of the external tool:
//! trimming surrounding whitespace from a reported path and splitting a
//! reported list into lines.

use vstd::prelude::*;

verus! {

/// Whitespace as it surrounds tool output: space, tab, carriage return,
/// line feed.
pub open spec fn is_ws(c: char) -> bool {
    c == ' ' || c == '\t' || c == '\r' || c == '\n'
}

/// The input without its leading whitespace.
pub open spec fn drop_leading_ws(s: Seq<char>) -> Seq<char>
    decreases s.len(),
{
    if s.len() > 0 && is_ws(s[0]) {
        drop_leading_ws(s.drop_first())
    } else {
        s
    }
}

/// The input without its trailing whitespace.
pub open spec fn drop_trailing_ws(s: Seq<char>) -> Seq<char>
    decreases s.len(),
{
    if s.len() > 0 && is_ws(s.last()) {
        drop_trailing_ws(s.drop_last())
    } else {
        s
    }
}

/// The input without surrounding whitespace.
pub open spec fn spec_trim(s: Seq<char>) -> Seq<char> {
    drop_trailing_ws(drop_leading_ws(s))
}

proof fn lemma_drop_leading_ws_skip(s: Seq<char>, k: int)
    requires
        0 <= k <= s.len(),
        forall|j: int| 0 <= j < k ==> is_ws(s[j]),
    ensures
        drop_leading_ws(s) == drop_leading_ws(s.skip(k)),
    decreases k,
{
    if k == 0 {
        assert(s.skip(0) =~= s);
    } else {
        let t = s.drop_first();
        assert(t =~= s.skip(1));
        lemma_drop_leading_ws_skip(t, k - 1);
        assert(t.skip(k - 1) =~= s.skip(k));
    }
}

proof fn lemma_drop_trailing_ws_take(s: Seq<char>, k: int)
    requires
        0 <= k <= s.len(),
        forall|j: int| k <= j < s.len() ==> is_ws(s[j]),
    ensures
        drop_trailing_ws(s) == drop_trailing_ws(s.take(k)),
    decreases s.len(),
{
    if k == s.len() {
        assert(s.take(k) =~= s);
    } else {
        let t = s.drop_last();
        assert(t =~= s.take(s.len() - 1));
        lemma_drop_trailing_ws_take(t, k);
        assert(t.take(k) =~= s.take(k));
    }
}

fn is_ws_char(c: char) -> (b: bool)
    ensures
        b == is_ws(c),
{
    c == ' ' || c == '\t' || c == '\r' || c == '\n'
}

/// The input with surrounding whitespace removed, as the external tool's
/// single-line answers are read.
pub fn trim(s: &str) -> (r: String)
    ensures
        r@ == spec_trim(s@),
{
    let len = s.unicode_len();
    let mut start: usize = 0;
    while start < len && is_ws_char(s.get_char(start))
        invariant
            start <= len,
            len == s@.len(),
            forall|j: int| 0 <= j < start ==> is_ws(s@[j]),
        decreases len - start,
    {
        start = start + 1;
    }
    let mut end: usize = len;
    while end > start && is_ws_char(s.get_char(end - 1))
        invariant
            start <= end <= len,
            len == s@.len(),
            forall|j: int| end <= j < len ==> is_ws(s@[j]),
        decreases end,
    {
        end = end - 1;
    }
    proof {
        lemma_drop_leading_ws_skip(s@, start as int);
        let t = s@.skip(start as int);
        assert(t.len() == len - start);
        if t.len() > 0 {
            assert(t[0] == s@[start as int]);
        }
        assert(drop_leading_ws(t) == t);
        assert(forall|j: int| end - start <= j < t.len() ==> t[j] == s@[j + start] && is_ws(t[j]));
        lemma_drop_trailing_ws_take(t, end - start);
        let u = t.take(end - start);
        assert(u.len() == end - start);
        if u.len() > 0 {
            assert(u.last() == t[end - start - 1]);
            assert(u.last() == s@[end - 1]);
        }
        assert(drop_trailing_ws(u) == u);
        assert(u =~= s@.subrange(start as int, end as int));
    }
    let r = s.substring_char(start, end);
    r.to_owned()
}

/// Position of the first line feed, or the length of the input if there
/// is none.
pub open spec fn find_nl(s: Seq<char>) -> nat
    decreases s.len(),
{
    if s.len() == 0 {
        0
    } else if s[0] == '\n' {
        0
    } else {
        1 + find_nl(s.drop_first())
    }
}

/// A scan that stops at the first line feed finds `find_nl`.
proof fn lemma_find_nl_of_scan(s: Seq<char>, m: int)
    requires
        0 <= m <= s.len(),
        forall|j: int| 0 <= j < m ==> s[j] != '\n',
        m < s.len() ==> s[m] == '\n',
    ensures
        find_nl(s) == m,
    decreases m,
{
    if m == 0 {
    } else {
        let t = s.drop_first();
        assert(forall|j: int| 0 <= j < m - 1 ==> t[j] == s[j + 1] && t[j] != '\n');
        assert(m - 1 < t.len() ==> t[m - 1] == s[m]);
        lemma_find_nl_of_scan(t, m - 1);
    }
}

/// A line with a terminating carriage return removed.
pub open spec fn strip_cr(l: Seq<char>) -> Seq<char> {
    if l.len() > 0 && l.last() == '\r' {
        l.drop_last()
    } else {
        l
    }
}

/// The lines of the input: split at line feeds, a carriage return directly
/// before a line feed removed, and a line terminator at the very end
/// optional.
pub open spec fn spec_lines(s: Seq<char>) -> Seq<Seq<char>>
    decreases s.len(),
{
    if s.len() == 0 {
        Seq::empty()
    } else {
        let i = find_nl(s);
        if i >= s.len() {
            seq![s]
        } else {
            seq![strip_cr(s.take(i as int))] + spec_lines(s.skip(i as int + 1))
        }
    }
}

/// The views of the produced lines, in order.
pub open spec fn line_views(v: Seq<String>) -> Seq<Seq<char>> {
    v.map_values(|l: String| l@)
}

/// The input split into lines, as the external tool's list answers are
/// read.
pub fn split_lines(s: &str) -> (r: Vec<String>)
    ensures
        line_views(r@) == spec_lines(s@),
{
    let len = s.unicode_len();
    let mut r: Vec<String> = Vec::new();
    let mut pos: usize = 0;
    proof {
        assert(line_views(r@) =~= Seq::<Seq<char>>::empty());
        assert(s@.skip(0) =~= s@);
    }
    while pos < len
        invariant
            pos <= len,
            len == s@.len(),
            spec_lines(s@) == line_views(r@) + spec_lines(s@.skip(pos as int)),
        decreases len - pos,
    {
        let ghost prev = r@;
        let ghost sfx = s@.skip(pos as int);
        let mut j: usize = pos;
        while j < len && s.get_char(j) != '\n'
            invariant
                pos <= j <= len,
                len == s@.len(),
                forall|k: int| pos <= k < j ==> s@[k] != '\n',
            decreases len - j,
        {
            j = j + 1;
        }
        let ghost m: int = j - pos;
        proof {
            assert(sfx.len() == len - pos);
            assert(forall|k: int| 0 <= k < m ==> sfx[k] == s@[k + pos] && sfx[k] != '\n');
            if j < len {
                assert(sfx[m] == s@[j as int]);
            }
            lemma_find_nl_of_scan(sfx, m);
        }
        let line: String;
        if j < len && j > pos && s.get_char(j - 1) == '\r' {
            // line terminated by a carriage return and a line feed
            line = s.substring_char(pos, j - 1).to_owned();
            proof {
                assert(sfx.take(m).len() == m);
                assert(sfx.take(m).last() == sfx[m - 1]);
                assert(sfx.take(m).last() == s@[j - 1]);
                assert(line@ =~= strip_cr(sfx.take(m)));
            }
        } else {
            line = s.substring_char(pos, j).to_owned();
            proof {
                if j < len {
                    // line terminated by a bare line feed
                    assert(sfx.take(m).len() == m);
                    if m > 0 {
                        assert(sfx.take(m).last() == sfx[m - 1]);
                        assert(sfx.take(m).last() == s@[j - 1]);
                    }
                    assert(line@ =~= strip_cr(sfx.take(m)));
                } else {
                    // unterminated final line: kept whole
                    assert(line@ =~= sfx);
                }
            }
        }
        r.push(line);
        proof {
            assert(line_views(r@) =~= line_views(prev).push(line@));
            if j < len {
                assert(spec_lines(sfx) == seq![strip_cr(sfx.take(m))] + spec_lines(sfx.skip(m + 1)));
                assert(sfx.skip(m + 1) =~= s@.skip(j + 1));
                assert(line_views(r@) + spec_lines(s@.skip(j + 1)) =~= line_views(prev) + spec_lines(sfx));
            } else {
                assert(spec_lines(sfx) == seq![sfx]);
                assert(s@.skip(len as int) =~= Seq::<char>::empty());
                assert(spec_lines(s@.skip(len as int)) == Seq::<Seq<char>>::empty());
                assert(line_views(r@) + spec_lines(s@.skip(len as int)) =~= line_views(prev) + spec_lines(sfx));
            }
        }
        if j < len {
            pos = j + 1;
        } else {
            pos = len;
        }
    }
    proof {
        assert(s@.skip(pos as int) =~= Seq::<char>::empty());
        assert(spec_lines(s@.skip(pos as int)) == Seq::<Seq<char>>::empty());
        assert(line_views(r@) + Seq::<Seq<char>>::empty() =~= line_views(r@));
    }
    r
}

} // verus!
