//! Aggregate line statistics and the derived empty-line share.

use vstd::prelude::*;

verus! {

/// Result of one counting pass over a file's lines.
///
/// Invariant: [`LineStats::wf`] — the lines counted as empty and the
/// lines counted as non-empty together account for every line.
#[derive(Debug, Clone, Copy)]
pub struct LineStats {
    /// Number of lines seen.
    pub total_lines: usize,
    /// Lines that still hold a non-whitespace character.
    pub non_empty_lines: usize,
    /// Lines that are empty or hold only whitespace.
    pub empty_lines: usize,
}

/// Share of empty lines in tenths of a percent, rounded to the nearest
/// tenth (ties upward); `0` when there are no lines at all.
pub open spec fn permille_of(empty: nat, total: nat) -> nat {
    if total == 0 {
        0
    } else {
        (2000 * empty + total) / (2 * total)
    }
}

impl LineStats {
    /// Every line is either empty or non-empty, and nothing else is counted.
    pub open spec fn wf(self) -> bool {
        self.total_lines == self.non_empty_lines + self.empty_lines
    }

    /// Packs three already-consistent counters into a `LineStats`.
    pub fn new(total_lines: usize, non_empty_lines: usize, empty_lines: usize) -> (r: Self)
        requires
            total_lines == non_empty_lines + empty_lines,
        ensures
            r.total_lines == total_lines,
            r.non_empty_lines == non_empty_lines,
            r.empty_lines == empty_lines,
            r.wf(),
    {
        LineStats { total_lines, non_empty_lines, empty_lines }
    }

    /// The empty-line share in tenths of a percent: `250` means `25.0 %`.
    ///
    /// The result is the exact rational `1000 * empty_lines / total_lines`
    /// rounded to the nearest integer (ties upward), and `0` for a file
    /// without lines.
    pub fn empty_permille(&self) -> (p: u64)
        requires
            self.wf(),
        ensures
            p == permille_of(self.empty_lines as nat, self.total_lines as nat),
            p <= 1000,
            self.total_lines == 0 ==> p == 0,
    {
        if self.total_lines == 0 {
            0u64
        } else {
            let e: u128 = self.empty_lines as u128;
            let t: u128 = self.total_lines as u128;
            let p128: u128 = (2000 * e + t) / (2 * t);
            proof {
                lemma_permille_bounds(self.empty_lines as nat, self.total_lines as nat);
            }
            p128 as u64
        }
    }
}

/// Law: the empty-line share lies between `0` and `1000` tenths of a
/// percent whenever the counters are consistent, it is `0` for a file
/// without lines, and for a non-empty file it differs from the exact
/// rational `1000 * empty / total` by at most half a tenth of a percent:
/// `2 * total * p - total <= 2000 * empty <= 2 * total * p + total`.
pub proof fn lemma_permille_bounds(empty: nat, total: nat)
    requires
        empty <= total,
    ensures
        permille_of(empty, total) <= 1000,
        total == 0 ==> permille_of(empty, total) == 0,
        total > 0 ==> 2 * total * permille_of(empty, total) <= 2000 * empty + total,
        total > 0 ==> 2000 * empty + total < 2 * total * (permille_of(empty, total) + 1),
{
    if total > 0 {
        let n = 2000 * empty + total;
        let d = 2 * total;
        let q = permille_of(empty, total);
        assert(q == n / d);
        assert(d * (n / d) <= n && n < d * (n / d) + d) by (nonlinear_arith)
            requires d > 0,
        ;
        assert(n <= 2000 * total + total) by (nonlinear_arith)
            requires empty <= total, n == 2000 * empty + total,
        ;
        assert(n / d <= 1000) by (nonlinear_arith)
            requires
                d == 2 * total,
                total > 0,
                d * (n / d) <= n,
                n <= 2000 * total + total,
        ;
        assert(2 * total * q == d * (n / d)) by (nonlinear_arith)
            requires q == n / d, d == 2 * total,
        ;
        assert(2 * total * (q + 1) == d * (n / d) + d) by (nonlinear_arith)
            requires q == n / d, d == 2 * total,
        ;
    }
}

} // verus!
