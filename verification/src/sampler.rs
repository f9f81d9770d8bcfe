//! Choosing the sample in which a wall-clock reading is bracketed most
//! tightly by two counter readings.
//!
//! A timeline interleaves counter readings and wall-clock readings,
//! `[tsc, wall, tsc, wall, ..., tsc]`: even positions hold the counter,
//! odd positions the wall clock. The wall clock may tick slowly, so that
//! several neighbouring wall readings are equal; of such a run the middle
//! reading is the one nearest to the instant at which the clock ticked.

use vstd::prelude::*;

verus! {

/// How many wall-clock readings one timeline holds by default.
pub const GET_CLOSEST_TSCSYS_RETRIES: usize = 256;

/// A timeline starts and ends with a counter reading and holds at least one
/// wall-clock reading.
pub open spec fn is_timeline(t: Seq<i64>) -> bool {
    t.len() >= 3 && t.len() % 2 == 1
}

/// Position `k` holds a wall-clock reading.
pub open spec fn is_wall_index(t: Seq<i64>, k: int) -> bool {
    0 < k < t.len() - 1 && k % 2 == 1
}

/// The wall-clock readings from position `i` up to, not including,
/// position `j` all equal the one at `i`.
pub open spec fn same_reading(t: Seq<i64>, i: int, j: int) -> bool {
    forall|k: int| i <= k < j && k % 2 == 1 ==> #[trigger] t[k] == t[i]
}

/// The wall-clock readings from `i` up to `j` form a closed run: a maximal
/// stretch of equal readings that starts at `i` and that the differing
/// reading at `j` ends.
pub open spec fn is_closed_run(t: Seq<i64>, i: int, j: int) -> bool {
    &&& is_wall_index(t, i)
    &&& is_wall_index(t, j)
    &&& i < j
    &&& (i == 1 || t[i - 2] != t[i])
    &&& same_reading(t, i, j)
    &&& t[j] != t[i]
}

/// The wall position in the middle of the run from `i` up to `j`; of two
/// middle positions the later one.
pub open spec fn run_middle(i: int, j: int) -> int {
    let m = (i + j - 2) / 2;
    if m % 2 == 0 {
        m + 1
    } else {
        m
    }
}

/// Position `m` is the middle of some closed run.
pub open spec fn is_run_middle(t: Seq<i64>, m: int) -> bool {
    exists|i: int, j: int| #[trigger] is_closed_run(t, i, j) && m == run_middle(i, j)
}

/// The distance between the two counter readings around wall position `m`.
pub open spec fn bracket_width(t: Seq<i64>, m: int) -> int {
    t[m + 1] - t[m - 1]
}

/// Position `m` is the one the sampler settles on: the earliest of the run
/// middles with the narrowest bracket, as long as that bracket is narrower
/// than `i64::MAX`; the first wall position where no run middle is.
pub open spec fn is_closest(t: Seq<i64>, m: int) -> bool {
    if exists|c: int| #[trigger] is_run_middle(t, c) && bracket_width(t, c) < i64::MAX {
        &&& is_run_middle(t, m)
        &&& bracket_width(t, m) < i64::MAX
        &&& forall|c: int| #[trigger]
            is_run_middle(t, c) ==> bracket_width(t, m) <= bracket_width(t, c)
        &&& forall|c: int| #[trigger]
            is_run_middle(t, c) && c < m ==> bracket_width(t, m) < bracket_width(t, c)
    } else {
        m == 1
    }
}

/// The wall position the sampler settles on.
pub open spec fn closest_wall_index(t: Seq<i64>) -> int {
    choose|m: int| is_closest(t, m)
}

/// The point halfway between two counter readings, rounded down.
pub open spec fn midpoint(a: i64, b: i64) -> int {
    (a + b) / 2
}

/// The sample at wall position `m`: the midpoint of the counter readings
/// around it, and the wall-clock reading itself.
pub open spec fn sample_at(t: Seq<i64>, m: int) -> (int, int) {
    (midpoint(t[m - 1], t[m + 1]), t[m] as int)
}

/// Whether `n` is even.
pub fn is_even(n: usize) -> (even: bool)
    ensures
        even == (n % 2 == 0),
{
    assert(n & 1 == n % 2) by (bit_vector);
    n & 1 == 0
}

/// A closed run lies inside the timeline, and so does its middle, which is a
/// wall position of the run.
pub proof fn lemma_run_middle_in_run(t: Seq<i64>, i: int, j: int)
    requires
        is_closed_run(t, i, j),
    ensures
        is_wall_index(t, run_middle(i, j)),
        i <= run_middle(i, j) <= j - 2,
        t[run_middle(i, j)] == t[i],
{
    let m = run_middle(i, j);
    assert(i <= m <= j - 2 && m % 2 == 1);
    assert(t[m] == t[i]);
}

/// At most one position is the one the sampler settles on.
pub proof fn lemma_closest_is_unique(t: Seq<i64>, m1: int, m2: int)
    requires
        is_closest(t, m1),
        is_closest(t, m2),
    ensures
        m1 == m2,
{
    if exists|c: int| #[trigger] is_run_middle(t, c) && bracket_width(t, c) < i64::MAX {
        assert(bracket_width(t, m1) <= bracket_width(t, m2));
        assert(bracket_width(t, m2) <= bracket_width(t, m1));
        if m1 < m2 {
            assert(bracket_width(t, m2) < bracket_width(t, m1));
        }
        if m2 < m1 {
            assert(bracket_width(t, m1) < bracket_width(t, m2));
        }
    }
}

/// The position the sampler settles on holds a wall-clock reading.
pub proof fn lemma_closest_is_wall_index(t: Seq<i64>, m: int)
    requires
        is_timeline(t),
        is_closest(t, m),
    ensures
        is_wall_index(t, m),
{
    if exists|c: int| #[trigger] is_run_middle(t, c) && bracket_width(t, c) < i64::MAX {
        let (i, j) = choose|i: int, j: int| #[trigger]
            is_closed_run(t, i, j) && m == run_middle(i, j);
        lemma_run_middle_in_run(t, i, j);
    }
}

/// The counter value of a sample lies between the two readings it was taken
/// from.
pub proof fn lemma_midpoint_between(a: i64, b: i64)
    ensures
        a <= b ==> a <= midpoint(a, b) <= b,
        b <= a ==> b <= midpoint(a, b) <= a,
        i64::MIN <= midpoint(a, b) <= i64::MAX,
{
}

/// No closed run ends after the start of a stretch of equal readings that
/// reaches up to `j`.
proof fn lemma_no_run_ends_inside(t: Seq<i64>, i: int, j: int, a: int, b: int)
    requires
        is_wall_index(t, i),
        i == 1 || t[i - 2] != t[i],
        same_reading(t, i, j),
        j % 2 == 1,
        is_closed_run(t, a, b),
        b < j,
    ensures
        b <= i,
{
    if i < b {
        assert(t[b] == t[i]);
        if a <= i {
            assert(t[i] == t[a]);
        } else {
            assert(t[a] == t[i]);
            assert(t[a - 2] == t[i]);
        }
    }
}

/// The closed run that the differing reading at `j` ends starts where the
/// stretch of equal readings before `j` starts.
proof fn lemma_run_end_fixes_start(t: Seq<i64>, i: int, j: int, a: int)
    requires
        is_closed_run(t, i, j),
        is_closed_run(t, a, j),
    ensures
        a == i,
{
    if a < i {
        assert(t[i - 2] == t[a]);
        assert(t[i] == t[a]);
    }
    if i < a {
        assert(t[a - 2] == t[i]);
        assert(t[a] == t[i]);
    }
}

/// What the scan knows once every closed run that ends at or before position
/// `i` has been looked at: `best_width` is the narrowest bracket among their
/// middles, capped at `i64::MAX`, and `best` the earliest middle that has it.
spec fn scanned(t: Seq<i64>, i: int, best_width: int, best: int) -> bool {
    &&& best_width <= i64::MAX
    &&& forall|a: int, b: int| #[trigger]
        is_closed_run(t, a, b) && b <= i ==> best_width <= bracket_width(t, run_middle(a, b))
    &&& best_width == i64::MAX ==> best == 1
    &&& best_width < i64::MAX ==> {
        &&& best < i
        &&& is_run_middle(t, best)
        &&& bracket_width(t, best) == best_width
        &&& forall|a: int, b: int| #[trigger]
            is_closed_run(t, a, b) && b <= i && run_middle(a, b) < best ==> best_width
                < bracket_width(t, run_middle(a, b))
    }
}

/// The scan takes in the closed run from `i` up to `j`.
proof fn lemma_scan_step(t: Seq<i64>, i: int, j: int, best_width: int, best: int)
    requires
        scanned(t, i, best_width, best),
        is_closed_run(t, i, j),
    ensures
        bracket_width(t, run_middle(i, j)) < best_width ==> scanned(
            t,
            j,
            bracket_width(t, run_middle(i, j)),
            run_middle(i, j),
        ),
        bracket_width(t, run_middle(i, j)) >= best_width ==> scanned(t, j, best_width, best),
{
    let mid = run_middle(i, j);
    let width = bracket_width(t, mid);
    lemma_run_middle_in_run(t, i, j);
    assert(is_run_middle(t, mid));
    let (w, m) = if width < best_width {
        (width, mid)
    } else {
        (best_width, best)
    };
    assert forall|a: int, b: int| #[trigger] is_closed_run(t, a, b) && b <= j implies w
        <= bracket_width(t, run_middle(a, b)) by {
        if b == j {
            lemma_run_end_fixes_start(t, i, j, a);
        } else {
            lemma_no_run_ends_inside(t, i, j, a, b);
        }
    }
    if w < i64::MAX {
        assert forall|a: int, b: int| #[trigger]
            is_closed_run(t, a, b) && b <= j && run_middle(a, b) < m implies w < bracket_width(
            t,
            run_middle(a, b),
        ) by {
            if b == j {
                lemma_run_end_fixes_start(t, i, j, a);
            } else {
                lemma_no_run_ends_inside(t, i, j, a, b);
                lemma_run_middle_in_run(t, a, b);
            }
        }
    }
}

/// Once the scan has reached the end of the timeline, the position it holds
/// is the one the sampler settles on.
proof fn lemma_scan_done(t: Seq<i64>, i: int, best_width: int, best: int)
    requires
        is_timeline(t),
        is_wall_index(t, i),
        i == 1 || t[i - 2] != t[i],
        same_reading(t, i, t.len() as int),
        scanned(t, i, best_width, best),
    ensures
        is_closest(t, best),
        best == closest_wall_index(t),
{
    assert forall|a: int, b: int| #[trigger] is_closed_run(t, a, b) implies b <= i by {
        lemma_no_run_ends_inside(t, i, t.len() as int, a, b);
    }
    assert forall|c: int| #[trigger] is_run_middle(t, c) implies best_width <= bracket_width(
        t,
        c,
    ) by {
        let (a, b) = choose|a: int, b: int| #[trigger]
            is_closed_run(t, a, b) && c == run_middle(a, b);
        assert(is_closed_run(t, a, b));
    }
    if best_width < i64::MAX {
        assert forall|c: int| #[trigger] is_run_middle(t, c) && c < best implies bracket_width(
            t,
            best,
        ) < bracket_width(t, c) by {
            let (a, b) = choose|a: int, b: int| #[trigger]
                is_closed_run(t, a, b) && c == run_middle(a, b);
            assert(is_closed_run(t, a, b));
        }
    }
    assert(is_closest(t, best));
    lemma_closest_is_unique(t, best, closest_wall_index(t));
}

/// Picks from a timeline the sample whose wall-clock reading is bracketed
/// most tightly: the counter value halfway between the two readings around
/// it, and the wall-clock reading.
pub fn get_closest_tsc_sys(timeline: &Vec<i64>) -> (pair: (i64, i64))
    requires
        is_timeline(timeline@),
    ensures
        is_closest(timeline@, closest_wall_index(timeline@)),
        (pair.0 as int, pair.1 as int) == sample_at(timeline@, closest_wall_index(timeline@)),
{
    let ghost t = timeline@;
    let n = timeline.len();
    // `i` is where the current run of equal wall readings starts, `j` the
    // wall position looked at next.
    let mut i: usize = 1;
    let mut j: usize = 3;
    let mut min_delta: i128 = i64::MAX as i128;
    let mut min_index: usize = 1;
    while j < n - 1
        invariant
            t == timeline@,
            n == t.len(),
            is_timeline(t),
            is_wall_index(t, i as int),
            i < j <= n,
            j % 2 == 1,
            i == 1 || t[i - 2] != t[i as int],
            same_reading(t, i as int, j as int),
            is_wall_index(t, min_index as int),
            scanned(t, i as int, min_delta as int, min_index as int),
        decreases n - j,
    {
        if timeline[j] != timeline[i] {
            let mut mid = i + (j - 2 - i) / 2;
            if is_even(mid) {
                mid += 1;
            }
            proof {
                assert(is_closed_run(t, i as int, j as int));
                assert(mid == run_middle(i as int, j as int));
                lemma_run_middle_in_run(t, i as int, j as int);
                lemma_scan_step(t, i as int, j as int, min_delta as int, min_index as int);
            }
            let delta = timeline[mid + 1] as i128 - timeline[mid - 1] as i128;
            if delta < min_delta {
                min_delta = delta;
                min_index = mid;
            }
            i = j;
        }
        j += 2;
    }
    proof {
        lemma_scan_done(t, i as int, min_delta as int, min_index as int);
    }
    let before = timeline[min_index - 1];
    let after = timeline[min_index + 1];
    let doubled: i128 = before as i128 + after as i128 + 0x1_0000_0000_0000_0000;
    let tsc = (doubled / 2 - 0x8000_0000_0000_0000) as i64;
    (tsc, timeline[min_index])
}

} // verus!
