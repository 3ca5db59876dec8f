use crate::text::chars_of;
use vstd::prelude::*;

verus! {

/// Line counts of a diff between two commits.
#[derive(Clone, Copy, Debug, PartialEq, Eq, Structural)]
pub struct GitDiffStats {
    pub lines_added: usize,
    pub lines_removed: usize,
    pub files_changed: usize,
}

/// An ASCII decimal digit.
pub open spec fn is_digit(c: char) -> bool {
    '0' <= c && c <= '9'
}

/// Value of a decimal digit.
pub open spec fn digit_value(c: char) -> nat {
    ((c as int) - ('0' as int)) as nat
}

/// Value of a string of decimal digits.
pub open spec fn digits_value(d: Seq<char>) -> nat
    decreases d.len(),
{
    if d.len() == 0 {
        0
    } else {
        digits_value(d.drop_last()) * 10 + digit_value(d.last())
    }
}

/// Every character is a decimal digit.
pub open spec fn all_digits(d: Seq<char>) -> bool {
    forall|i: int| 0 <= i < d.len() ==> is_digit(#[trigger] d[i])
}

/// What parsing a field as `usize` gives: an optional `+` followed by one
/// or more decimal digits whose value fits.
pub open spec fn parse_count(s: Seq<char>) -> Option<nat> {
    let d = if s.len() > 0 && s[0] == '+' {
        s.drop_first()
    } else {
        s
    };
    if d.len() > 0 && all_digits(d) && digits_value(d) <= usize::MAX {
        Some(digits_value(d))
    } else {
        None
    }
}

/// A field's count, zero where it does not parse (as for binary files).
pub open spec fn count_or_zero(s: Seq<char>) -> nat {
    match parse_count(s) {
        Some(v) => v,
        None => 0,
    }
}

/// First position in `k..hi` holding `c`, or `hi`.
pub open spec fn next_index_of(s: Seq<char>, k: int, hi: int, c: char) -> int
    decreases hi - k,
{
    if k >= hi {
        hi
    } else if s[k] == c {
        k
    } else {
        next_index_of(s, k + 1, hi, c)
    }
}

/// End of a line's content: a `\r` before its `\n` is not part of it.
pub open spec fn content_end(s: Seq<char>, k: int, e: int) -> int {
    if e < s.len() && e > k && s[e - 1] == '\r' {
        e - 1
    } else {
        e
    }
}

/// Totals over the lines from position `k` on: lines added, lines removed,
/// and the number of lines with at least two tab-separated fields.
pub open spec fn numstat_from(s: Seq<char>, k: int) -> (nat, nat, nat)
    decreases s.len() - k,
{
    if k < 0 || k >= s.len() {
        (0, 0, 0)
    } else {
        let e = next_index_of(s, k, s.len() as int, '\n');
        let le = content_end(s, k, e);
        let rest = if e < k || e + 1 >= s.len() {
            (0nat, 0nat, 0nat)
        } else {
            numstat_from(s, e + 1)
        };
        let t = next_index_of(s, k, le, '\t');
        if t < le {
            let t2 = next_index_of(s, t + 1, le, '\t');
            (
                count_or_zero(s.subrange(k, t)) + rest.0,
                count_or_zero(s.subrange(t + 1, t2)) + rest.1,
                1 + rest.2,
            )
        } else {
            rest
        }
    }
}

/// `x`, or `usize::MAX` where `x` does not fit.
pub open spec fn saturate(x: nat) -> usize {
    if x > usize::MAX {
        usize::MAX
    } else {
        x as usize
    }
}

proof fn lemma_next_index_of(s: Seq<char>, k: int, hi: int, c: char)
    requires
        0 <= k <= hi <= s.len(),
    ensures
        k <= next_index_of(s, k, hi, c) <= hi,
        next_index_of(s, k, hi, c) < hi ==> s[next_index_of(s, k, hi, c)] == c,
    decreases hi - k,
{
    if k < hi && s[k] != c {
        lemma_next_index_of(s, k + 1, hi, c);
    }
}

proof fn lemma_digits_prefix(d: Seq<char>, j: int)
    requires
        0 <= j <= d.len(),
    ensures
        digits_value(d.subrange(0, j)) <= digits_value(d),
    decreases d.len() - j,
{
    if j < d.len() {
        lemma_digits_prefix(d, j + 1);
        let p = d.subrange(0, j + 1);
        assert(p.drop_last() =~= d.subrange(0, j));
    } else {
        assert(d.subrange(0, j) =~= d);
    }
}

fn index_of(s: &Vec<char>, k: usize, hi: usize, c: char) -> (r: usize)
    requires
        k <= hi <= s@.len(),
    ensures
        r == next_index_of(s@, k as int, hi as int, c),
{
    let mut i: usize = k;
    while i < hi && s[i] != c
        invariant
            k <= i <= hi <= s@.len(),
            next_index_of(s@, k as int, hi as int, c) == next_index_of(s@, i as int, hi as int, c),
        decreases hi - i,
    {
        i = i + 1;
    }
    i
}

/// Parses `s[lo..hi]` as a `usize`.
fn parse_field(s: &Vec<char>, lo: usize, hi: usize) -> (r: Option<usize>)
    requires
        lo <= hi <= s@.len(),
    ensures
        match parse_count(s@.subrange(lo as int, hi as int)) {
            Some(v) => r == Some(v as usize),
            None => r is None,
        },
{
    let ghost f = s@.subrange(lo as int, hi as int);
    let mut a = lo;
    if a < hi && s[a] == '+' {
        a = a + 1;
    }
    let ghost d = s@.subrange(a as int, hi as int);
    assert(d =~= (if f.len() > 0 && f[0] == '+' {
        f.drop_first()
    } else {
        f
    }));
    if a == hi {
        return None;
    }
    let mut value: usize = 0;
    let mut i = a;
    while i < hi
        invariant
            lo <= a <= i <= hi <= s@.len(),
            d == s@.subrange(a as int, hi as int),
            f == s@.subrange(lo as int, hi as int),
            d == (if f.len() > 0 && f[0] == '+' {
                f.drop_first()
            } else {
                f
            }),
            d.len() > 0,
            all_digits(s@.subrange(a as int, i as int)),
            value == digits_value(s@.subrange(a as int, i as int)),
        decreases hi - i,
    {
        let c = s[i];
        if c < '0' || c > '9' {
            assert(d[i - a] == c);
            assert(!is_digit(d[i - a]));
            assert(!all_digits(d));
            return None;
        }
        let dv = (c as u32 - '0' as u32) as usize;
        assert(s@.subrange(a as int, i + 1).drop_last() =~= s@.subrange(a as int, i as int));
        if value > (usize::MAX - dv) / 10 {
            proof {
                let p = s@.subrange(a as int, i + 1);
                assert(p.last() == c);
                assert(digits_value(p) == digits_value(p.drop_last()) * 10 + digit_value(c));
                assert(digits_value(p) > usize::MAX) by (nonlinear_arith)
                    requires
                        digits_value(p) == value * 10 + dv,
                        value > (usize::MAX - dv) / 10,
                        dv <= 9,
                ;
                if all_digits(d) {
                    assert(d.subrange(0, i + 1 - a) =~= p);
                    lemma_digits_prefix(d, i + 1 - a);
                    assert(digits_value(d) > usize::MAX);
                }
            }
            return None;
        }
        proof {
            assert(value * 10 + dv <= usize::MAX) by (nonlinear_arith)
                requires
                    value <= (usize::MAX - dv) / 10,
                    dv <= 9,
            ;
        }
        value = value * 10 + dv;
        i = i + 1;
        assert(all_digits(s@.subrange(a as int, i as int))) by {
            assert forall|j: int| 0 <= j < i - a implies is_digit(
                #[trigger] s@.subrange(a as int, i as int)[j],
            ) by {
                if j < i - 1 - a {
                    assert(s@.subrange(a as int, i - 1)[j] == s@.subrange(a as int, i as int)[j]);
                }
            }
        }
    }
    assert(s@.subrange(a as int, i as int) =~= d);
    Some(value)
}

/// Totals of `git diff --numstat` output: each line is
/// `added<TAB>removed<TAB>path`; a line with at least two fields counts as a
/// changed file, and a count that does not parse (`-` for a binary file)
/// adds nothing. Totals saturate at `usize::MAX`.
pub fn parse_numstat(output: &str) -> (r: GitDiffStats)
    ensures
        r.lines_added == saturate(numstat_from(output@, 0).0),
        r.lines_removed == saturate(numstat_from(output@, 0).1),
        r.files_changed == saturate(numstat_from(output@, 0).2),
{
    let s = chars_of(output);
    let n = s.len();
    let ghost total = numstat_from(s@, 0);
    let mut added: usize = 0;
    let mut removed: usize = 0;
    let mut files: usize = 0;
    let ghost mut acc: (nat, nat, nat) = (0, 0, 0);
    let mut k: usize = 0;
    while k < n
        invariant
            n == s@.len(),
            k <= n,
            total == numstat_from(s@, 0),
            total.0 == acc.0 + numstat_from(s@, k as int).0,
            total.1 == acc.1 + numstat_from(s@, k as int).1,
            total.2 == acc.2 + numstat_from(s@, k as int).2,
            added == saturate(acc.0),
            removed == saturate(acc.1),
            files == saturate(acc.2),
        decreases n - k,
    {
        let e = index_of(&s, k, n, '\n');
        proof {
            lemma_next_index_of(s@, k as int, n as int, '\n');
        }
        let le = if e < n && e > k && s[e - 1] == '\r' {
            e - 1
        } else {
            e
        };
        let t = index_of(&s, k, le, '\t');
        proof {
            lemma_next_index_of(s@, k as int, le as int, '\t');
        }
        if t < le {
            let t2 = index_of(&s, t + 1, le, '\t');
            proof {
                lemma_next_index_of(s@, t + 1, le as int, '\t');
            }
            let a = match parse_field(&s, k, t) {
                Some(v) => v,
                None => 0,
            };
            let b = match parse_field(&s, t + 1, t2) {
                Some(v) => v,
                None => 0,
            };
            added = added.saturating_add(a);
            removed = removed.saturating_add(b);
            files = files.saturating_add(1);
            proof {
                acc = (
                    acc.0 + count_or_zero(s@.subrange(k as int, t as int)),
                    acc.1 + count_or_zero(s@.subrange(t + 1, t2 as int)),
                    acc.2 + 1,
                );
            }
        }
        if e >= n - 1 {
            k = n;
        } else {
            k = e + 1;
        }
    }
    GitDiffStats { lines_added: added, lines_removed: removed, files_changed: files }
}

} // verus!
