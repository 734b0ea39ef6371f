//! Wraparound navigation over an implicit 3-column grid of level entries.
//!
//! The grid holds `item_count` entries laid out in rows of three, the last
//! row possibly short. A frame applies the directional deltas in the order
//! up, down, left, right, then a final wraparound that keeps the hovered
//! index in range.

use vstd::prelude::*;

verus! {

/// The item count padded up past a multiple of three: the period used when
/// an upward move wraps from the first row to the last.
pub open spec fn padded_count(n: int) -> int {
    n + 3 - n % 3
}

/// One upward move: three back; on leaving the top, wrap modulo the padded
/// period and, if that lands on a padding slot past the real entries, step
/// one more row up to the last real row's same column.
pub open spec fn step_up(h: int, n: int) -> int {
    let up = h - 3;
    if up < 0 {
        let w = (up + padded_count(n)) % padded_count(n);
        if w >= n {
            w - 3
        } else {
            w
        }
    } else {
        up
    }
}

/// One downward move: three forward; on running past the last entry,
/// collapse to the first row's same column.
pub open spec fn step_down(h: int, n: int) -> int {
    let down = h + 3;
    if down >= n {
        down % 3
    } else {
        down
    }
}

/// The wraparound applied once at the end of a frame, after all deltas.
pub open spec fn wrap_index(h: int, n: int) -> int {
    (h + n) % n
}

/// The hovered index after one frame's directional input, deltas applied in
/// the order up, down, left, right, then the final wraparound.
pub open spec fn nav_step(h: int, n: int, up: bool, down: bool, left: bool, right: bool) -> int {
    let h1 = if up { step_up(h, n) } else { h };
    let h2 = if down { step_down(h1, n) } else { h1 };
    let h3 = if left { h2 - 1 } else { h2 };
    let h4 = if right { h3 + 1 } else { h3 };
    wrap_index(h4, n)
}

/// An upward move from a valid index lands on a valid index.
pub proof fn lemma_step_up_in_range(h: int, n: int)
    requires
        0 < n,
        0 <= h < n,
    ensures
        0 <= step_up(h, n) < n,
{
    let r = n % 3;
    assert(0 <= r < 3) by (nonlinear_arith)
        requires 0 < n, r == n % 3;
    let p = padded_count(n);
    if h - 3 < 0 {
        assert(r <= n) by (nonlinear_arith)
            requires 0 < n, r == n % 3;
        assert(0 <= h - 3 + p < p);
        assert((h - 3 + p) % p == h - 3 + p) by (nonlinear_arith)
            requires 0 <= h - 3 + p < p;
        let w = h - 3 + p;
        if w >= n {
            // The padding row is entered only when the column exists in the
            // last real row, so stepping back three stays in range.
            if r == 0 {
                assert(n >= 3) by (nonlinear_arith)
                    requires 0 < n, n % 3 == 0;
            } else {
                assert(h >= r);
                assert(n >= r + 3) by (nonlinear_arith)
                    requires 0 < n, n % 3 == r, n > r;
            }
        }
    }
}

/// A downward move from a valid index lands on a valid index.
pub proof fn lemma_step_down_in_range(h: int, n: int)
    requires
        0 < n,
        0 <= h < n,
    ensures
        0 <= step_down(h, n) < n,
{
    if h + 3 >= n {
        assert(0 <= (h + 3) % 3 < 3) by (nonlinear_arith);
        assert((h + 3) % 3 == h % 3) by (nonlinear_arith);
        if h < 3 {
            assert(h % 3 == h) by (nonlinear_arith)
                requires 0 <= h < 3;
        } else {
            assert(h % 3 < 3) by (nonlinear_arith)
                requires h >= 0;
        }
    }
}

/// The final wraparound leaves an already-valid index unchanged.
pub proof fn lemma_wrap_identity(h: int, n: int)
    requires
        0 < n,
        0 <= h < n,
    ensures
        wrap_index(h, n) == h,
{
    assert((h + n) % n == h) by (nonlinear_arith)
        requires 0 < n, 0 <= h < n;
}

/// For every positive item count and any combination of directional deltas,
/// one frame keeps the hovered index in range.
pub proof fn lemma_nav_step_in_range(h: int, n: int, up: bool, down: bool, left: bool, right: bool)
    requires
        0 < n,
        0 <= h < n,
    ensures
        0 <= nav_step(h, n, up, down, left, right) < n,
{
    let h1 = if up { step_up(h, n) } else { h };
    if up {
        lemma_step_up_in_range(h, n);
    }
    let h2 = if down { step_down(h1, n) } else { h1 };
    if down {
        lemma_step_down_in_range(h1, n);
    }
    let h3 = if left { h2 - 1 } else { h2 };
    let h4 = if right { h3 + 1 } else { h3 };
    assert(-1 <= h4 <= n);
    assert(0 <= (h4 + n) % n < n) by (nonlinear_arith)
        requires 0 < n;
}

/// On a full grid (a multiple of three entries), a frame with only Up
/// followed by a frame with only Down returns to the starting index, and so
/// does Down followed by Up.
pub proof fn lemma_up_down_round_trip(h: int, n: int)
    requires
        0 < n,
        n % 3 == 0,
        0 <= h < n,
    ensures
        nav_step(nav_step(h, n, true, false, false, false), n, false, true, false, false) == h,
        nav_step(nav_step(h, n, false, true, false, false), n, true, false, false, false) == h,
{
    assert(n >= 3) by (nonlinear_arith)
        requires 0 < n, n % 3 == 0;
    assert(padded_count(n) == n + 3);

    // Up, then Down.
    let u = step_up(h, n);
    lemma_step_up_in_range(h, n);
    lemma_wrap_identity(u, n);
    if h >= 3 {
        assert(step_down(u, n) == h);
    } else {
        assert((h - 3 + (n + 3)) % (n + 3) == h + n) by (nonlinear_arith)
            requires 0 <= h < 3, n >= 3;
        assert(u == h + n - 3);
        assert(step_down(u, n) == (h + n) % 3);
        assert((h + n) % 3 == h) by (nonlinear_arith)
            requires n % 3 == 0, 0 <= h < 3;
    }
    lemma_step_down_in_range(u, n);
    lemma_wrap_identity(step_down(u, n), n);

    // Down, then Up.
    let d = step_down(h, n);
    lemma_step_down_in_range(h, n);
    lemma_wrap_identity(d, n);
    if h + 3 < n {
        assert(step_up(d, n) == h);
    } else {
        assert(d == (h + 3) % 3);
        assert((h + 3) % 3 == h - (n - 3)) by (nonlinear_arith)
            requires n % 3 == 0, n - 3 <= h < n, 0 <= h;
        assert(0 <= d < 3);
        assert((d - 3 + (n + 3)) % (n + 3) == d + n) by (nonlinear_arith)
            requires 0 <= d < 3, n >= 3;
        assert(step_up(d, n) == d + n - 3);
    }
    lemma_step_up_in_range(d, n);
    lemma_wrap_identity(step_up(d, n), n);
}

/// Euclidean remainder of a non-negative value.
fn euclid_mod(a: i128, m: i128) -> (r: i128)
    requires
        0 <= a,
        0 < m,
    ensures
        r == (a as int) % (m as int),
{
    ((a as u128) % (m as u128)) as i128
}

/// The navigator over the level grid: the hovered index and the item count.
pub struct GridNav {
    pub hovered: usize,
    pub item_count: usize,
}

impl GridNav {
    /// The navigator's invariant: at least one entry, hovered index valid.
    pub open spec fn wf(self) -> bool {
        0 < self.item_count && self.hovered < self.item_count
    }

    /// Start hovering the first entry of a non-empty grid.
    pub fn new(item_count: usize) -> (nav: Self)
        requires
            0 < item_count,
        ensures
            nav.wf(),
            nav.hovered == 0,
            nav.item_count == item_count,
    {
        GridNav { hovered: 0, item_count }
    }

    /// Apply one frame's directional input.
    pub fn step(&mut self, up: bool, down: bool, left: bool, right: bool)
        requires
            old(self).wf(),
        ensures
            final(self).wf(),
            final(self).item_count == old(self).item_count,
            final(self).hovered as int == nav_step(
                old(self).hovered as int,
                old(self).item_count as int,
                up,
                down,
                left,
                right,
            ),
    {
        let ghost h0 = self.hovered as int;
        let ghost n0 = self.item_count as int;
        let n: i128 = self.item_count as i128;
        let mut h: i128 = self.hovered as i128;
        if up {
            h = h - 3;
            if h < 0 {
                proof {
                    assert(0 <= n0 % 3 <= n0 && n0 % 3 < 3) by (nonlinear_arith)
                        requires 0 < n0;
                }
                let padded: i128 = n + 3 - euclid_mod(n, 3);
                h = euclid_mod(h + padded, padded);
                if h >= n {
                    h = h - 3;
                }
            }
            assert(h == step_up(h0, n0));
        }
        let ghost h1 = if up { step_up(h0, n0) } else { h0 };
        assert(0 <= h1 < n0) by {
            if up {
                lemma_step_up_in_range(h0, n0);
            }
        }
        if down {
            h = h + 3;
            if h >= n {
                h = euclid_mod(h, 3);
            }
        }
        let ghost h2 = if down { step_down(h1, n0) } else { h1 };
        assert(0 <= h2 < n0) by {
            if down {
                lemma_step_down_in_range(h1, n0);
            }
        }
        if left {
            h = h - 1;
        }
        if right {
            h = h + 1;
        }
        h = euclid_mod(h + n, n);
        proof {
            lemma_nav_step_in_range(h0, n0, up, down, left, right);
        }
        self.hovered = h as usize;
    }

    /// A pointer hovering a valid entry overrides the directional result.
    pub fn point_at(&mut self, index: usize)
        requires
            old(self).wf(),
            index < old(self).item_count,
        ensures
            final(self).wf(),
            final(self).item_count == old(self).item_count,
            final(self).hovered == index,
    {
        self.hovered = index;
    }
}

} // verus!
