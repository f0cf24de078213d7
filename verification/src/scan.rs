//! Line structure of a text: newline counts and the boundary scans that the
//! cursor movements are defined by. Everything here is mathematics over
//! `Seq<char>`; the executable scans live with the text store.

use vstd::prelude::*;

verus! {

/// The character that ends a line.
pub const NEWLINE: char = '\n';

/// Number of newline characters in `s`.
pub open spec fn count_newlines(s: Seq<char>) -> nat
    decreases s.len(),
{
    if s.len() == 0 {
        0
    } else {
        count_newlines(s.drop_last()) + if s.last() == NEWLINE {
            1nat
        } else {
            0nat
        }
    }
}

/// Index of the nearest newline strictly before `scan`, with `scan` clamped to
/// the length of `s`; 0 when there is none.
pub open spec fn last_newline(s: Seq<char>, scan: int) -> int
    decreases scan,
{
    if scan <= 0 {
        0
    } else if scan > s.len() {
        last_newline(s, s.len() as int)
    } else if s[scan - 1] == NEWLINE {
        scan - 1
    } else {
        last_newline(s, scan - 1)
    }
}

/// Index of the nearest newline at or after `scan`; the length of `s` when
/// there is none.
pub open spec fn next_newline(s: Seq<char>, scan: int) -> int
    decreases s.len() - scan,
{
    if scan >= s.len() {
        s.len() as int
    } else if scan >= 0 && s[scan] == NEWLINE {
        scan
    } else {
        next_newline(s, scan + 1)
    }
}

/// Offset at which the line holding offset `i` begins: just after the nearest
/// newline strictly before `i`, or 0 on the first line.
pub open spec fn line_start(s: Seq<char>, i: int) -> int
    decreases i,
{
    if i <= 0 {
        0
    } else if s[i - 1] == NEWLINE {
        i
    } else {
        line_start(s, i - 1)
    }
}

/// The line that begins at `pos`, without the newline that ends it.
pub open spec fn line_at(s: Seq<char>, pos: int) -> Seq<char> {
    s.subrange(pos, next_newline(s, pos))
}

/// Where the line after the one that begins at `pos` begins: behind the
/// newline, or at the end of the text where no newline follows.
pub open spec fn after_line(s: Seq<char>, pos: int) -> int {
    let end = next_newline(s, pos);
    if end < s.len() {
        end + 1
    } else {
        s.len() as int
    }
}

/// The lines of `s` from offset `pos` on, `rows` of them at most. A text that
/// ends in a newline has no line after it.
pub open spec fn lines_from(s: Seq<char>, pos: int, rows: nat) -> Seq<Seq<char>>
    decreases rows,
{
    if rows == 0 || pos >= s.len() || pos < 0 {
        Seq::empty()
    } else {
        seq![line_at(s, pos)] + lines_from(s, after_line(s, pos), (rows - 1) as nat)
    }
}

/// No newline lies in `s[from..to)`.
pub open spec fn newline_free(s: Seq<char>, from: int, to: int) -> bool {
    forall|k: int| from <= k < to ==> s[k] != NEWLINE
}

/// `l` is exactly one line: it ends in a newline and holds no other.
pub open spec fn single_line(l: Seq<char>) -> bool {
    &&& l.len() > 0
    &&& l.last() == NEWLINE
    &&& newline_free(l, 0, l.len() - 1)
}

/// A text is free of newlines everywhere.
pub open spec fn no_newline(s: Seq<char>) -> bool {
    newline_free(s, 0, s.len() as int)
}

/// No line of a text holds a newline.
pub proof fn lemma_lines_no_newline(s: Seq<char>, pos: int, rows: nat)
    ensures
        forall|i: int|
            0 <= i < lines_from(s, pos, rows).len() ==> no_newline(
                #[trigger] lines_from(s, pos, rows)[i],
            ),
    decreases rows,
{
    if !(rows == 0 || pos >= s.len() || pos < 0) {
        lemma_next_newline(s, pos);
        lemma_lines_no_newline(s, after_line(s, pos), (rows - 1) as nat);
        let rest = lines_from(s, after_line(s, pos), (rows - 1) as nat);
        assert forall|i: int| 0 <= i < lines_from(s, pos, rows).len() implies no_newline(
            #[trigger] lines_from(s, pos, rows)[i],
        ) by {
            if i == 0 {
                assert(lines_from(s, pos, rows)[0] == line_at(s, pos));
            } else {
                assert(lines_from(s, pos, rows)[i] == rest[i - 1]);
            }
        }
    }
}

/// Counting newlines distributes over concatenation.
pub proof fn lemma_count_concat(a: Seq<char>, b: Seq<char>)
    ensures
        count_newlines(a + b) == count_newlines(a) + count_newlines(b),
    decreases b.len(),
{
    if b.len() > 0 {
        assert((a + b).drop_last() =~= a + b.drop_last());
        lemma_count_concat(a, b.drop_last());
    }
}

/// A text has at most as many newlines as characters.
pub proof fn lemma_count_bound(s: Seq<char>)
    ensures
        count_newlines(s) <= s.len(),
    decreases s.len(),
{
    if s.len() > 0 {
        lemma_count_bound(s.drop_last());
    }
}

/// A text without newlines counts none, and the other way round.
pub proof fn lemma_count_zero(s: Seq<char>)
    ensures
        count_newlines(s) == 0 <==> newline_free(s, 0, s.len() as int),
    decreases s.len(),
{
    if s.len() > 0 {
        let p = s.drop_last();
        lemma_count_zero(p);
        if count_newlines(s) == 0 {
            assert forall|k: int| 0 <= k < s.len() implies s[k] != NEWLINE by {
                if k < p.len() {
                    assert(p[k] == s[k]);
                }
            }
        }
    }
}

/// The newlines of a prefix grow with the prefix, by one for each newline
/// passed.
pub proof fn lemma_count_take_step(s: Seq<char>, i: int)
    requires
        0 <= i < s.len(),
    ensures
        count_newlines(s.take(i + 1)) == count_newlines(s.take(i)) + if s[i] == NEWLINE {
            1nat
        } else {
            0nat
        },
{
    assert(s.take(i + 1).drop_last() =~= s.take(i));
}

/// Prefix counts are monotone, and differ by exactly the newlines between.
pub proof fn lemma_count_take_split(s: Seq<char>, i: int, j: int)
    requires
        0 <= i <= j <= s.len(),
    ensures
        count_newlines(s.take(j)) == count_newlines(s.take(i)) + count_newlines(
            s.subrange(i, j),
        ),
{
    assert(s.take(j) =~= s.take(i) + s.subrange(i, j));
    lemma_count_concat(s.take(i), s.subrange(i, j));
}

/// Inserting a character adds one newline exactly when it is one.
pub proof fn lemma_count_insert(s: Seq<char>, i: int, c: char)
    requires
        0 <= i <= s.len(),
    ensures
        count_newlines(s.insert(i, c)) == count_newlines(s) + if c == NEWLINE {
            1nat
        } else {
            0nat
        },
{
    let one = seq![c];
    assert(one.drop_last() =~= Seq::<char>::empty());
    assert(count_newlines(Seq::<char>::empty()) == 0);
    assert(s.insert(i, c) =~= s.take(i) + one + s.skip(i));
    assert(s =~= s.take(i) + s.skip(i));
    lemma_count_concat(s.take(i), one);
    lemma_count_concat(s.take(i) + one, s.skip(i));
    lemma_count_concat(s.take(i), s.skip(i));
}

/// Removing a character takes one newline away exactly when it was one.
pub proof fn lemma_count_remove(s: Seq<char>, i: int)
    requires
        0 <= i < s.len(),
    ensures
        count_newlines(s) == count_newlines(s.remove(i)) + if s[i] == NEWLINE {
            1nat
        } else {
            0nat
        },
{
    assert(s.remove(i).insert(i, s[i]) =~= s);
    lemma_count_insert(s.remove(i), i, s[i]);
}

/// What `last_newline` finds: a newline before the clamped `scan` with none
/// after it, or 0 with no newline before `scan` except possibly at offset 0.
pub proof fn lemma_last_newline(s: Seq<char>, scan: int)
    requires
        0 <= scan,
    ensures
        ({
            let end = if scan > s.len() { s.len() as int } else { scan };
            let r = last_newline(s, scan);
            &&& 0 <= r <= end
            &&& r < end || end == 0
            &&& newline_free(s, r + 1, end)
            &&& r > 0 ==> s[r] == NEWLINE
            &&& r == 0 && end > 0 && s[0] != NEWLINE ==> newline_free(s, 0, end)
        }),
    decreases scan,
{
    if scan > s.len() {
        lemma_last_newline(s, s.len() as int);
    } else if scan > 0 && s[scan - 1] != NEWLINE {
        lemma_last_newline(s, scan - 1);
    }
}

/// What `next_newline` finds: the first newline from `scan` on, or the end.
pub proof fn lemma_next_newline(s: Seq<char>, scan: int)
    requires
        0 <= scan,
    ensures
        ({
            let r = next_newline(s, scan);
            &&& scan <= s.len() ==> scan <= r <= s.len()
            &&& scan > s.len() ==> r == s.len()
            &&& r < s.len() ==> s[r] == NEWLINE
            &&& newline_free(s, scan, r)
        }),
    decreases s.len() - scan,
{
    if scan < s.len() && s[scan] != NEWLINE {
        lemma_next_newline(s, scan + 1);
    }
}

/// `next_newline` is the only offset that ends the newline-free run from
/// `scan`.
pub proof fn lemma_next_newline_unique(s: Seq<char>, scan: int, r: int)
    requires
        0 <= scan <= r <= s.len(),
        newline_free(s, scan, r),
        r < s.len() ==> s[r] == NEWLINE,
    ensures
        next_newline(s, scan) == r,
    decreases r - scan,
{
    if scan < r {
        lemma_next_newline_unique(s, scan + 1, r);
    }
}

/// What `line_start` finds: the offset after the nearest newline before `i`,
/// with the same number of newlines before it as before `i`.
pub proof fn lemma_line_start(s: Seq<char>, i: int)
    requires
        0 <= i <= s.len(),
    ensures
        ({
            let r = line_start(s, i);
            &&& 0 <= r <= i
            &&& r > 0 ==> s[r - 1] == NEWLINE
            &&& newline_free(s, r, i)
            &&& count_newlines(s.take(r)) == count_newlines(s.take(i))
            &&& line_start(s, r) == r
        }),
    decreases i,
{
    if i > 0 && s[i - 1] != NEWLINE {
        lemma_line_start(s, i - 1);
        lemma_count_take_step(s, i - 1);
    }
}

/// `line_start` is the only line beginning with a newline-free run up to `i`.
pub proof fn lemma_line_start_unique(s: Seq<char>, r: int, i: int)
    requires
        0 <= r <= i <= s.len(),
        r > 0 ==> s[r - 1] == NEWLINE,
        newline_free(s, r, i),
    ensures
        line_start(s, i) == r,
    decreases i - r,
{
    if r < i {
        lemma_line_start_unique(s, r, i - 1);
    }
}

/// How `line_start` is had from `last_newline`, whose answer 0 stands both for
/// a newline at offset 0 and for none at all.
pub proof fn lemma_line_start_from_last(s: Seq<char>, i: int)
    requires
        0 <= i <= s.len(),
    ensures
        line_start(s, i) == if last_newline(s, i) > 0 || (i > 0 && s[0] == NEWLINE) {
            last_newline(s, i) + 1
        } else {
            0
        },
    decreases i,
{
    if i > 0 && s[i - 1] != NEWLINE {
        lemma_line_start_from_last(s, i - 1);
    }
}

/// The scans up to offset `i` read only the first `i` characters.
pub proof fn lemma_prefix_scans(a: Seq<char>, b: Seq<char>, i: int)
    requires
        0 <= i <= a.len(),
        i <= b.len(),
        a.take(i) == b.take(i),
    ensures
        line_start(a, i) == line_start(b, i),
        last_newline(a, i) == last_newline(b, i),
    decreases i,
{
    if i > 0 {
        assert(a.take(i)[i - 1] == a[i - 1]);
        assert(a.take(i - 1) =~= a.take(i).take(i - 1));
        assert(b.take(i - 1) =~= b.take(i).take(i - 1));
        lemma_prefix_scans(a, b, i - 1);
    }
}

/// Below a text's last line another begins: after the first newline from `i`
/// on, one line further down.
pub proof fn lemma_next_line(s: Seq<char>, i: int)
    requires
        0 <= i <= s.len(),
        count_newlines(s.take(i)) < count_newlines(s),
    ensures
        ({
            let n = next_newline(s, i);
            &&& i <= n < s.len()
            &&& s[n] == NEWLINE
            &&& newline_free(s, i, n)
            &&& line_start(s, n + 1) == n + 1
            &&& line_start(s, n) == line_start(s, i)
            &&& count_newlines(s.take(n + 1)) == count_newlines(s.take(i)) + 1
        }),
{
    let n = next_newline(s, i);
    lemma_next_newline(s, i);
    lemma_count_take_split(s, i, n);
    lemma_count_zero(s.subrange(i, n));
    if n == s.len() {
        assert(s.take(n) =~= s);
    } else {
        lemma_count_take_step(s, n);
        lemma_line_start(s, i);
        lemma_line_start_unique(s, line_start(s, i), n);
    }
}

/// Every offset up to the end of a line lies on that line.
pub proof fn lemma_within_line(s: Seq<char>, start: int, j: int)
    requires
        0 <= start <= j <= next_newline(s, start),
        start <= s.len(),
        line_start(s, start) == start,
    ensures
        j <= s.len(),
        line_start(s, j) == start,
        newline_free(s, start, j),
        count_newlines(s.take(j)) == count_newlines(s.take(start)),
{
    lemma_next_newline(s, start);
    lemma_line_start(s, start);
    lemma_line_start(s, j);
}

/// Above a line that begins at `r > 0` lies the line that the newline at
/// `r - 1` ends.
pub proof fn lemma_prev_line(s: Seq<char>, r: int)
    requires
        0 < r <= s.len(),
        line_start(s, r) == r,
    ensures
        ({
            let p = line_start(s, r - 1);
            &&& 0 <= p <= r - 1
            &&& s[r - 1] == NEWLINE
            &&& line_start(s, p) == p
            &&& next_newline(s, p) == r - 1
            &&& count_newlines(s.take(p)) + 1 == count_newlines(s.take(r))
        }),
{
    let p = line_start(s, r - 1);
    lemma_line_start(s, r - 1);
    lemma_count_take_step(s, r - 1);
    lemma_next_newline_unique(s, p, r - 1);
}

/// The newlines of a prefix grow with the prefix and never exceed those of
/// the whole text.
pub proof fn lemma_count_take_monotone(s: Seq<char>, i: int, j: int)
    requires
        0 <= i <= j <= s.len(),
    ensures
        count_newlines(s.take(i)) <= count_newlines(s.take(j)),
        count_newlines(s.take(j)) <= count_newlines(s),
{
    lemma_count_take_split(s, i, j);
    lemma_count_take_split(s, j, s.len() as int);
    assert(s.take(s.len() as int) =~= s);
}

} // verus!
