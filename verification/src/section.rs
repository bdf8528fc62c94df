//! Locating the embedded settings block inside a larger manifest
//! document, and extracting it so that line numbers reported against the
//! extract refer to the same lines as in the original document.
//!
//! The block is announced by one of two fixed, line-anchored markers: a
//! singular package form and a plural workspace-array form. The singular
//! form takes precedence. The extract consists of one blank line for
//! every newline that precedes the match, followed by the document from
//! the match on, with every occurrence of the marker text removed.

use vstd::prelude::*;

use crate::strutil::push_char;

verus! {

/// The singular anchor marker.
pub open spec fn singular_marker() -> Seq<char> {
    "[package.metadata.leptos]"@
}

/// The plural, workspace-array anchor marker.
pub open spec fn plural_marker() -> Seq<char> {
    "[[workspace.metadata.leptos]]"@
}

/// The pattern occurs in the text at this position.
pub open spec fn occurs_at(t: Seq<char>, p: Seq<char>, i: int) -> bool {
    0 <= i && i + p.len() <= t.len() && t.subrange(i, i + p.len() as int) == p
}

/// The pattern occurs at this position and begins a line there.
pub open spec fn anchored_at(t: Seq<char>, p: Seq<char>, i: int) -> bool {
    occurs_at(t, p, i) && (i == 0 || t[i - 1] == '\n')
}

/// The first line-anchored occurrence at or after a position.
pub open spec fn find_anchored_from(t: Seq<char>, p: Seq<char>, i: int) -> Option<int>
    decreases t.len() - i,
{
    if i < 0 || i + p.len() > t.len() || p.len() == 0 {
        None
    } else if anchored_at(t, p, i) {
        Some(i)
    } else {
        find_anchored_from(t, p, i + 1)
    }
}

/// The pattern occurs in the text at this position.
fn occurs_at_x(text: &str, pat: &str, i: usize) -> (r: bool)
    requires
        i <= text@.len(),
    ensures
        r == occurs_at(text@, pat@, i as int),
{
    let n = text.unicode_len();
    let m = pat.unicode_len();
    if m > n - i {
        return false;
    }
    let mut j: usize = 0;
    while j < m
        invariant
            j <= m,
            i + m <= n,
            n == text@.len(),
            m == pat@.len(),
            forall|k: int| 0 <= k < j ==> text@[i + k] == pat@[k],
        decreases m - j,
    {
        if text.get_char(i + j) != pat.get_char(j) {
            proof {
                assert(text@.subrange(i as int, i + m)[j as int] == text@[i + j]);
            }
            return false;
        }
        j = j + 1;
    }
    proof {
        assert(text@.subrange(i as int, i + m) =~= pat@);
    }
    true
}

/// The pattern occurs at this position and begins a line there.
fn anchored_at_x(text: &str, pat: &str, i: usize) -> (r: bool)
    requires
        i <= text@.len(),
    ensures
        r == anchored_at(text@, pat@, i as int),
{
    if !occurs_at_x(text, pat, i) {
        return false;
    }
    i == 0 || text.get_char(i - 1) == '\n'
}

/// Finds the first line-anchored occurrence of the pattern.
pub fn find_anchored(text: &str, pat: &str) -> (r: Option<usize>)
    requires
        pat@.len() > 0,
    ensures
        match r {
            None => {
                &&& find_anchored_from(text@, pat@, 0) is None
                &&& forall|j: int| !anchored_at(text@, pat@, j)
            },
            Some(i) => {
                &&& find_anchored_from(text@, pat@, 0) == Some(i as int)
                &&& i + pat@.len() <= text@.len()
                &&& anchored_at(text@, pat@, i as int)
                &&& forall|j: int| j < i ==> !anchored_at(text@, pat@, j)
            },
        },
{
    let n = text.unicode_len();
    let m = pat.unicode_len();
    let mut i: usize = 0;
    while m <= n && i <= n - m
        invariant
            n == text@.len(),
            m == pat@.len(),
            m >= 1,
            i <= n,
            find_anchored_from(text@, pat@, 0) == find_anchored_from(text@, pat@, i as int),
            forall|j: int| j < i ==> !anchored_at(text@, pat@, j),
        decreases n - i,
    {
        if anchored_at_x(text, pat, i) {
            return Some(i);
        }
        i = i + 1;
    }
    proof {
        assert(i + m > n);
        assert(find_anchored_from(text@, pat@, i as int) is None);
        assert forall|j: int| !anchored_at(text@, pat@, j) by {
            if j >= i {
                assert(j + pat@.len() > text@.len());
            }
        }
    }
    None
}

/// Which marker announces the block, and where: the singular form is
/// checked first and takes precedence.
pub open spec fn locate_spec(t: Seq<char>) -> Option<(int, Seq<char>)> {
    match find_anchored_from(t, singular_marker(), 0) {
        Some(i) => Some((i, singular_marker())),
        None => match find_anchored_from(t, plural_marker(), 0) {
            Some(i) => Some((i, plural_marker())),
            None => None,
        },
    }
}

/// Searches the document for the settings block's anchor line.
pub fn locate_section(text: &str) -> (r: Option<(usize, bool)>)
    ensures
        match r {
            None => {
                &&& locate_spec(text@) is None
                &&& forall|j: int| !anchored_at(text@, singular_marker(), j)
                &&& forall|j: int| !anchored_at(text@, plural_marker(), j)
            },
            Some((i, singular)) => {
                &&& locate_spec(text@) == Some(
                    (i as int, if singular { singular_marker() } else { plural_marker() }),
                )
                &&& i <= text@.len()
            },
        },
{
    proof {
        reveal_strlit("[package.metadata.leptos]");
        reveal_strlit("[[workspace.metadata.leptos]]");
    }
    match find_anchored(text, "[package.metadata.leptos]") {
        Some(i) => Some((i, true)),
        None => match find_anchored(text, "[[workspace.metadata.leptos]]") {
            Some(i) => Some((i, false)),
            None => None,
        },
    }
}

/// How many times the character occurs in the sequence.
pub open spec fn count_char(s: Seq<char>, ch: char) -> nat
    decreases s.len(),
{
    if s.len() == 0 {
        0
    } else {
        count_char(s.drop_last(), ch) + if s.last() == ch {
            1nat
        } else {
            0nat
        }
    }
}

/// The count never exceeds the length.
proof fn lemma_count_char_le_len(s: Seq<char>, ch: char)
    ensures
        count_char(s, ch) <= s.len(),
    decreases s.len(),
{
    if s.len() > 0 {
        lemma_count_char_le_len(s.drop_last(), ch);
    }
}

/// A sequence of blank lines.
pub open spec fn newlines(k: nat) -> Seq<char> {
    Seq::new(k, |i: int| '\n')
}

/// Counts the newline characters before a position in the document.
fn count_newlines_before(text: &str, end: usize) -> (r: usize)
    requires
        end <= text@.len(),
    ensures
        r == count_char(text@.take(end as int), '\n'),
{
    let mut count: usize = 0;
    let mut i: usize = 0;
    while i < end
        invariant
            i <= end <= text@.len(),
            count == count_char(text@.take(i as int), '\n'),
            count <= i,
        decreases end - i,
    {
        proof {
            assert(text@.take(i + 1).drop_last() =~= text@.take(i as int));
            assert(text@.take(i + 1).last() == text@[i as int]);
        }
        if text.get_char(i) == '\n' {
            count = count + 1;
        }
        i = i + 1;
    }
    count
}

/// The text with every leftmost, non-overlapping occurrence of the
/// pattern removed.
pub open spec fn remove_all(t: Seq<char>, p: Seq<char>) -> Seq<char>
    decreases t.len(),
{
    if p.len() == 0 || t.len() < p.len() {
        t
    } else if t.take(p.len() as int) == p {
        remove_all(t.skip(p.len() as int), p)
    } else {
        t.take(1) + remove_all(t.skip(1), p)
    }
}

/// Over a stretch where the pattern nowhere occurs, removal copies the text.
proof fn lemma_remove_all_segment(t: Seq<char>, p: Seq<char>, a: int, b: int)
    requires
        p.len() > 0,
        0 <= a <= b <= t.len(),
        forall|j: int| a <= j < b ==> !occurs_at(t, p, j),
    ensures
        remove_all(t.skip(a), p) == t.subrange(a, b) + remove_all(t.skip(b), p),
    decreases b - a,
{
    if a == b {
        assert(t.subrange(a, b) + remove_all(t.skip(b), p) =~= remove_all(t.skip(a), p));
    } else {
        let ta = t.skip(a);
        if ta.len() < p.len() {
            assert(!occurs_at(t, p, a + 1 - 1));
            assert(t.skip(b).len() < p.len());
            assert(remove_all(ta, p) == ta);
            assert(remove_all(t.skip(b), p) == t.skip(b));
            assert(t.subrange(a, b) + t.skip(b) =~= ta);
        } else {
            assert(!occurs_at(t, p, a));
            assert(ta.take(p.len() as int) =~= t.subrange(a, a + p.len() as int));
            assert(ta.take(p.len() as int) != p);
            assert(remove_all(ta, p) == ta.take(1) + remove_all(ta.skip(1), p));
            assert(ta.skip(1) =~= t.skip(a + 1));
            lemma_remove_all_segment(t, p, a + 1, b);
            assert(ta.take(1) + (t.subrange(a + 1, b) + remove_all(t.skip(b), p)) =~= t.subrange(
                a,
                b,
            ) + remove_all(t.skip(b), p));
        }
    }
}

/// Where the pattern occurs nowhere in the text, removal changes nothing.
pub proof fn lemma_remove_all_absent(t: Seq<char>, p: Seq<char>)
    requires
        p.len() > 0,
        forall|j: int| !occurs_at(t, p, j),
    ensures
        remove_all(t, p) == t,
{
    lemma_remove_all_segment(t, p, 0, t.len() as int);
    assert(t.skip(0) =~= t);
    assert(t.skip(t.len() as int).len() == 0);
    assert(remove_all(t.skip(t.len() as int), p) == t.skip(t.len() as int));
    assert(t.subrange(0, t.len() as int) + t.skip(t.len() as int) =~= t);
}

/// What extraction yields: one blank line per preceding newline, then
/// the document from the located offset on, with the marker text removed.
pub open spec fn extract_spec(t: Seq<char>, m: Seq<char>, start: int) -> Seq<char> {
    newlines(count_char(t.take(start), '\n')) + remove_all(t.skip(start), m)
}

/// Produces the line-preserving extract of the located settings block.
pub fn extract_settings_block(text: &str, marker: &str, start: usize) -> (r: String)
    requires
        marker@.len() > 0,
        start <= text@.len(),
    ensures
        r@ == extract_spec(text@, marker@, start as int),
{
    let ghost target = extract_spec(text@, marker@, start as int);
    let n = text.unicode_len();
    let m = marker.unicode_len();
    let k = count_newlines_before(text, start);
    let mut out = String::new();
    let mut j: usize = 0;
    while j < k
        invariant
            j <= k,
            out@ == newlines(j as nat),
        decreases k - j,
    {
        push_char(&mut out, '\n');
        proof {
            assert(newlines(j as nat).push('\n') =~= newlines((j + 1) as nat));
        }
        j = j + 1;
    }
    let ghost prefix = newlines(k as nat);
    let mut seg: usize = start;
    let mut i: usize = start;
    while m <= n && i <= n - m
        invariant
            start <= seg <= i <= n,
            n == text@.len(),
            m == marker@.len(),
            m > 0,
            target == extract_spec(text@, marker@, start as int),
            target == out@ + remove_all(text@.skip(seg as int), marker@),
            forall|j2: int| seg <= j2 < i ==> !occurs_at(text@, marker@, j2),
        decreases n - i,
    {
        if occurs_at_x(text, marker, i) {
            let piece = text.substring_char(seg, i);
            out.append(piece);
            proof {
                lemma_remove_all_segment(text@, marker@, seg as int, i as int);
                let ti = text@.skip(i as int);
                assert(ti.take(m as int) =~= text@.subrange(i as int, i + m));
                assert(ti.take(m as int) == marker@);
                assert(remove_all(ti, marker@) == remove_all(ti.skip(m as int), marker@));
                assert(ti.skip(m as int) =~= text@.skip(i + m));
                assert(out@ + remove_all(text@.skip(i + m), marker@) =~= target);
            }
            i = i + m;
            seg = i;
        } else {
            i = i + 1;
        }
    }
    proof {
        assert forall|j2: int| seg <= j2 < n implies !occurs_at(text@, marker@, j2) by {
            if i <= j2 {
                assert(j2 + marker@.len() > text@.len());
            }
        }
    }
    let tail = text.substring_char(seg, n);
    out.append(tail);
    proof {
        lemma_remove_all_segment(text@, marker@, seg as int, n as int);
        assert(text@.skip(n as int).len() == 0);
        assert(remove_all(text@.skip(n as int), marker@) == text@.skip(n as int));
        assert(out@ =~= target);
    }
    out
}

/// Counting distributes over concatenation.
proof fn lemma_count_char_concat(a: Seq<char>, b: Seq<char>, ch: char)
    ensures
        count_char(a + b, ch) == count_char(a, ch) + count_char(b, ch),
    decreases b.len(),
{
    if b.len() == 0 {
        assert(a + b =~= a);
    } else {
        assert((a + b).drop_last() =~= a + b.drop_last());
        assert((a + b).last() == b.last());
        lemma_count_char_concat(a, b.drop_last(), ch);
    }
}

/// A run of blank lines holds exactly that many newlines.
proof fn lemma_count_newlines(k: nat)
    ensures
        count_char(newlines(k), '\n') == k,
    decreases k,
{
    if k > 0 {
        assert(newlines(k).drop_last() =~= newlines((k - 1) as nat));
        lemma_count_newlines((k - 1) as nat);
    }
}

/// Where a position is anchored and none before it is, the search finds it.
proof fn lemma_find_anchored_first(t: Seq<char>, p: Seq<char>, i: int, s: int)
    requires
        p.len() > 0,
        0 <= i <= s,
        anchored_at(t, p, s),
        forall|j: int| i <= j < s ==> !anchored_at(t, p, j),
    ensures
        find_anchored_from(t, p, i) == Some(s),
    decreases s - i,
{
    if i < s {
        lemma_find_anchored_first(t, p, i + 1, s);
    }
}

/// Where the pattern occurs nowhere, the search finds nothing.
proof fn lemma_find_anchored_absent(t: Seq<char>, p: Seq<char>, i: int)
    requires
        forall|j: int| !occurs_at(t, p, j),
    ensures
        find_anchored_from(t, p, i) is None,
    decreases t.len() - i,
{
    if !(i < 0 || i + p.len() > t.len() || p.len() == 0) {
        lemma_find_anchored_absent(t, p, i + 1);
    }
}

/// Line preservation: wherever the marker occurs only at its anchor and
/// holds no newline itself, every position of the extracted block is
/// preceded by exactly as many newlines as the corresponding position of
/// the original document, so a parser reading the extract reports the
/// original's line numbers.
pub proof fn lemma_line_preservation(t: Seq<char>, m: Seq<char>, start: int)
    requires
        m.len() > 0,
        anchored_at(t, m, start),
        count_char(m, '\n') == 0,
        forall|j: int| occurs_at(t, m, j) ==> j == start,
    ensures
        ({
            let out = extract_spec(t, m, start);
            let k = count_char(t.take(start), '\n');
            let rest = t.skip(start + m.len());
            &&& out == newlines(k) + rest
            &&& out.len() == k + (t.len() - start - m.len())
            &&& forall|i: int|
                0 <= i <= rest.len() ==> count_char(#[trigger] out.take(k + i), '\n')
                    == count_char(t.take(start + m.len() + i), '\n')
        }),
{
    let out = extract_spec(t, m, start);
    let k = count_char(t.take(start), '\n');
    let rest = t.skip(start + m.len());
    let ts = t.skip(start);
    assert(ts.take(m.len() as int) =~= t.subrange(start, start + m.len()));
    assert(ts.take(m.len() as int) == m);
    assert(remove_all(ts, m) == remove_all(ts.skip(m.len() as int), m));
    assert(ts.skip(m.len() as int) =~= rest);
    assert forall|j: int| !occurs_at(rest, m, j) by {
        if occurs_at(rest, m, j) {
            assert(rest.subrange(j, j + m.len()) =~= t.subrange(
                start + m.len() + j,
                start + m.len() + j + m.len(),
            ));
            assert(occurs_at(t, m, start + m.len() + j));
        }
    }
    lemma_remove_all_absent(rest, m);
    assert(out == newlines(k) + rest);
    lemma_count_char_le_len(t.take(start), '\n');
    assert forall|i: int|
        0 <= i <= rest.len() implies count_char(#[trigger] out.take(k + i), '\n') == count_char(
        t.take(start + m.len() + i),
        '\n',
    ) by {
        assert(out.take(k + i) =~= newlines(k) + rest.take(i));
        lemma_count_char_concat(newlines(k), rest.take(i), '\n');
        lemma_count_newlines(k);
        assert(t.take(start + m.len() + i) =~= (t.take(start) + m) + rest.take(i));
        lemma_count_char_concat(t.take(start) + m, rest.take(i), '\n');
        lemma_count_char_concat(t.take(start), m, '\n');
    }
}

/// The two marker forms are interchangeable: two documents that differ
/// only in which marker announces the block are located at the same
/// offset and extract to the same settings block, so they resolve
/// identically.
pub proof fn lemma_marker_interchangeable(pre: Seq<char>, rest: Seq<char>)
    requires
        pre.len() == 0 || pre[pre.len() - 1] == '\n',
        forall|j: int|
            occurs_at(pre + singular_marker() + rest, singular_marker(), j) ==> j == pre.len(),
        forall|j: int| !occurs_at(pre + singular_marker() + rest, plural_marker(), j),
        forall|j: int|
            occurs_at(pre + plural_marker() + rest, plural_marker(), j) ==> j == pre.len(),
        forall|j: int| !occurs_at(pre + plural_marker() + rest, singular_marker(), j),
    ensures
        locate_spec(pre + singular_marker() + rest) == Some((pre.len() as int, singular_marker())),
        locate_spec(pre + plural_marker() + rest) == Some((pre.len() as int, plural_marker())),
        extract_spec(pre + singular_marker() + rest, singular_marker(), pre.len() as int)
            == extract_spec(pre + plural_marker() + rest, plural_marker(), pre.len() as int),
{
    reveal_strlit("[package.metadata.leptos]");
    reveal_strlit("[[workspace.metadata.leptos]]");
    let sm = singular_marker();
    let pm = plural_marker();
    let t1 = pre + sm + rest;
    let t2 = pre + pm + rest;
    let n = pre.len() as int;

    assert(t1.subrange(n, n + sm.len()) =~= sm);
    assert(occurs_at(t1, sm, n));
    assert(anchored_at(t1, sm, n));
    lemma_find_anchored_first(t1, sm, 0, n);
    assert(locate_spec(t1) == Some((n, sm)));

    assert(t2.subrange(n, n + pm.len()) =~= pm);
    assert(occurs_at(t2, pm, n));
    assert(anchored_at(t2, pm, n));
    lemma_find_anchored_absent(t2, sm, 0);
    lemma_find_anchored_first(t2, pm, 0, n);
    assert(locate_spec(t2) == Some((n, pm)));

    assert(t1.take(n) =~= pre);
    assert(t2.take(n) =~= pre);

    let ts1 = t1.skip(n);
    assert(ts1.take(sm.len() as int) =~= t1.subrange(n, n + sm.len()));
    assert(remove_all(ts1, sm) == remove_all(ts1.skip(sm.len() as int), sm));
    assert(ts1.skip(sm.len() as int) =~= rest);
    assert forall|j: int| !occurs_at(rest, sm, j) by {
        if occurs_at(rest, sm, j) {
            assert(rest.subrange(j, j + sm.len()) =~= t1.subrange(
                n + sm.len() + j,
                n + sm.len() + j + sm.len(),
            ));
            assert(occurs_at(t1, sm, n + sm.len() + j));
        }
    }
    lemma_remove_all_absent(rest, sm);

    let ts2 = t2.skip(n);
    assert(ts2.take(pm.len() as int) =~= t2.subrange(n, n + pm.len()));
    assert(remove_all(ts2, pm) == remove_all(ts2.skip(pm.len() as int), pm));
    assert(ts2.skip(pm.len() as int) =~= rest);
    assert forall|j: int| !occurs_at(rest, pm, j) by {
        if occurs_at(rest, pm, j) {
            assert(rest.subrange(j, j + pm.len()) =~= t2.subrange(
                n + pm.len() + j,
                n + pm.len() + j + pm.len(),
            ));
            assert(occurs_at(t2, pm, n + pm.len() + j));
        }
    }
    lemma_remove_all_absent(rest, pm);
}

} // verus!
