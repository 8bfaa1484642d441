use embedded_graphics::prelude::Point;
use vstd::arithmetic::div_mod::{lemma_mod_self_0, lemma_small_mod};
use vstd::prelude::*;

verus! {

/// Width of the display in pixels; one history slot per pixel column.
pub const SCREEN_WIDTH: u32 = 128;

/// The history after one insertion: when it already holds `cap` samples the
/// oldest leaves before `p` is appended.
pub open spec fn push_evict(s: Seq<Point>, cap: nat, p: Point) -> Seq<Point> {
    if s.len() >= cap {
        s.drop_first().push(p)
    } else {
        s.push(p)
    }
}

/// The history after inserting each of `ps` in turn, starting from `s`.
pub open spec fn push_all(s: Seq<Point>, cap: nat, ps: Seq<Point>) -> Seq<Point>
    decreases ps.len(),
{
    if ps.len() == 0 {
        s
    } else {
        push_evict(push_all(s, cap, ps.drop_last()), cap, ps.last())
    }
}

/// Sum of the `y` coordinates.
pub open spec fn sum_y(s: Seq<Point>) -> int
    decreases s.len(),
{
    if s.len() == 0 {
        0
    } else {
        sum_y(s.drop_last()) + s.last().y
    }
}

/// Integer division truncated toward zero, for a positive divisor.
pub open spec fn div_toward_zero(a: int, d: int) -> int {
    if a >= 0 {
        a / d
    } else {
        -((-a) / d)
    }
}

/// Arithmetic mean of the `y` coordinates truncated toward zero; 0 when empty.
pub open spec fn mean_y(s: Seq<Point>) -> int {
    if s.len() == 0 {
        0
    } else {
        div_toward_zero(sum_y(s), s.len() as int)
    }
}

/// The column after `c` on a strip `cap` columns wide.
pub open spec fn next_column(c: nat, cap: nat) -> nat {
    if cap == 0 { 0 } else { ((c + 1) % cap) as nat }
}

/// The column reached from `c` after `k` steps.
pub open spec fn column_after(c: nat, cap: nat, k: nat) -> nat
    decreases k,
{
    if k == 0 {
        c
    } else {
        next_column(column_after(c, cap, (k - 1) as nat), cap)
    }
}

/// Inserting `ps` into a history `s` that fits its capacity leaves exactly
/// the newest `cap` samples of `s` followed by `ps`, in their original order.
pub proof fn lemma_push_all_keeps_newest(s: Seq<Point>, cap: nat, ps: Seq<Point>)
    requires
        cap > 0,
        s.len() <= cap,
    ensures
        push_all(s, cap, ps) == (s + ps).subrange(
            if s.len() + ps.len() > cap { s.len() + ps.len() - cap } else { 0 },
            (s.len() + ps.len()) as int,
        ),
    decreases ps.len(),
{
    let all = s + ps;
    let m = s.len() + ps.len();
    if ps.len() == 0 {
        assert(all =~= s);
        assert(all.subrange(0, m as int) =~= s);
    } else {
        let init = ps.drop_last();
        lemma_push_all_keeps_newest(s, cap, init);
        let m0 = s.len() + init.len();
        let a0: int = if m0 > cap { m0 - cap } else { 0 };
        let t = push_all(s, cap, init);
        assert((s + init) =~= all.subrange(0, m0 as int));
        assert(t =~= all.subrange(a0, m0 as int));
        assert(all[m - 1] == ps.last());
        if t.len() >= cap {
            assert(t.drop_first().push(ps.last()) =~= all.subrange(a0 + 1, m as int));
        } else {
            assert(t.push(ps.last()) =~= all.subrange(a0, m as int));
        }
    }
}

/// Whatever points are inserted into an empty history, it ends up holding
/// `min(cap, ps.len())` samples: the newest ones, oldest first.
pub proof fn lemma_history_is_newest_window(cap: nat, ps: Seq<Point>)
    requires
        cap > 0,
    ensures
        push_all(Seq::empty(), cap, ps).len() == if ps.len() < cap { ps.len() } else { cap },
        push_all(Seq::empty(), cap, ps) == ps.subrange(
            if ps.len() > cap { ps.len() - cap } else { 0 },
            ps.len() as int,
        ),
{
    lemma_push_all_keeps_newest(Seq::empty(), cap, ps);
    assert(Seq::<Point>::empty() + ps =~= ps);
}

/// Stepping the cursor from column 0 visits 0, 1, ..., `cap - 1` in turn and
/// is back at 0 after `cap` steps.
pub proof fn lemma_cursor_wraps(cap: nat, k: nat)
    requires
        cap > 0,
        k <= cap,
    ensures
        k < cap ==> column_after(0, cap, k) == k,
        k == cap ==> column_after(0, cap, k) == 0,
    decreases k,
{
    if k > 0 {
        lemma_cursor_wraps(cap, (k - 1) as nat);
        if k < cap {
            lemma_small_mod(k, cap);
        } else {
            lemma_mod_self_0(cap as int);
        }
    }
}

/// Bounded history of signal-strength samples, oldest first, together with
/// the column at which the next sample will be drawn.
pub struct WifiSignalTracker {
    points: Vec<Point>,
    max_points: usize,
    curr_x_pos: u32,
}

impl WifiSignalTracker {
    /// The samples held, oldest first.
    pub closed spec fn points_view(&self) -> Seq<Point> {
        self.points@
    }

    /// How many samples the history keeps.
    pub closed spec fn capacity(&self) -> nat {
        self.max_points as nat
    }

    /// The column of the next sample.
    pub closed spec fn cursor(&self) -> nat {
        self.curr_x_pos as nat
    }

    /// The history never outgrows its capacity and the cursor stays on the strip.
    pub closed spec fn wf(&self) -> bool {
        &&& 0 < self.max_points <= u32::MAX
        &&& self.points@.len() <= self.max_points
        &&& self.curr_x_pos < self.max_points
    }

    /// An empty history of `max_points` samples with the cursor at column 0.
    pub fn new(max_points: usize) -> (r: Self)
        requires
            0 < max_points <= u32::MAX,
        ensures
            r.wf(),
            r.points_view() == Seq::<Point>::empty(),
            r.capacity() == max_points,
            r.cursor() == 0,
    {
        WifiSignalTracker { points: Vec::new(), max_points, curr_x_pos: 0 }
    }

    /// Appends the sample `(x, y)`, first dropping the oldest one when the
    /// history is full.
    pub fn add_point(&mut self, x: u32, y: u32)
        requires
            old(self).wf(),
        ensures
            final(self).wf(),
            final(self).points_view() == push_evict(
                old(self).points_view(),
                old(self).capacity(),
                Point { x: x as i32, y: y as i32 },
            ),
            final(self).capacity() == old(self).capacity(),
            final(self).cursor() == old(self).cursor(),
    {
        if self.points.len() >= self.max_points {
            self.points.remove(0);
        }
        self.points.push(Point { x: x as i32, y: y as i32 });
        assert(self.points@ =~= push_evict(
            old(self).points@,
            old(self).max_points as nat,
            Point { x: x as i32, y: y as i32 },
        ));
    }

    /// The samples held, oldest first.
    pub fn get_points(&self) -> (r: &[Point])
        ensures
            r@ == self.points_view(),
    {
        self.points.as_slice()
    }

    /// Moves the cursor one column on, back to 0 past the last column.
    pub fn increment_x_pos(&mut self)
        requires
            old(self).wf(),
        ensures
            final(self).wf(),
            final(self).cursor() == next_column(old(self).cursor(), old(self).capacity()),
            final(self).points_view() == old(self).points_view(),
            final(self).capacity() == old(self).capacity(),
    {
        let next: u64 = self.curr_x_pos as u64 + 1;
        self.curr_x_pos = (next % (self.max_points as u64)) as u32;
    }

    /// The column of the next sample.
    pub fn get_x_pos(&mut self) -> (r: u32)
        ensures
            r == old(self).cursor(),
            *final(self) == *old(self),
    {
        self.curr_x_pos
    }

    /// Mean of the held strengths, truncated toward zero; 0 when empty.
    pub fn get_average_strength(&mut self) -> (r: i32)
        requires
            old(self).wf(),
        ensures
            r == mean_y(old(self).points_view()),
            *final(self) == *old(self),
    {
        let n: usize = self.points.len();
        if n == 0 {
            return 0i32;
        }
        let mut total: i64 = 0;
        let mut i: usize = 0;
        while i < n
            invariant
                n == self.points@.len(),
                n <= u32::MAX,
                0 <= i <= n,
                total == sum_y(self.points@.subrange(0, i as int)),
                i * i32::MIN <= total <= i * i32::MAX,
            decreases n - i,
        {
            proof {
                let s = self.points@.subrange(0, i as int + 1);
                assert(s.drop_last() =~= self.points@.subrange(0, i as int));
            }
            total = total + self.points[i].y as i64;
            i = i + 1;
        }
        assert(self.points@.subrange(0, n as int) =~= self.points@);
        let d: i64 = n as i64;
        if total >= 0 {
            assert(total / d <= i32::MAX) by (nonlinear_arith)
                requires
                    0 <= total <= d * i32::MAX,
                    d > 0,
            ;
            (total / d) as i32
        } else {
            let m: i64 = -total;
            assert(m / d <= -(i32::MIN as int)) by (nonlinear_arith)
                requires
                    0 <= m <= d * (-(i32::MIN as int)),
                    d > 0,
            ;
            let q: i64 = -(m / d);
            q as i32
        }
    }
}

impl Default for WifiSignalTracker {
    /// A history one display wide.
    fn default() -> (r: Self)
        ensures
            r.wf(),
            r.points_view() == Seq::<Point>::empty(),
            r.capacity() == SCREEN_WIDTH,
            r.cursor() == 0,
    {
        Self::new(SCREEN_WIDTH as usize)
    }
}

} // verus!
