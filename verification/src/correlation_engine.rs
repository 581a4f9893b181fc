//! Streaming Pearson correlation engine.
//!
//! The engine maintains, across arbitrarily many batches, running sums over
//! `T` sample-time series and `H` hypothesis series, together with all
//! `H * T` cross sums, and from them computes the Pearson correlation of
//! every `(hypothesis, time)` pair.
//!
//! All values are fixed-point integers: a caller maps its real-valued
//! measurements into integers (any scale up to [`VALUE_BOUND`]), and each
//! returned correlation is scaled by [`RHO_SCALE`], so `RHO_SCALE` means a
//! correlation of one.  Every accumulation step is exact, which is what makes
//! the streaming property (batching does not change the result) a theorem
//! rather than an approximation.
use vstd::prelude::*;

verus! {

/// The errors the analysis can report.
#[derive(Clone, Copy, Debug, PartialEq, Eq, Structural)]
pub enum CpaError {
    /// A construction argument was rejected: unknown model name, missing or
    /// ill-sized key material, or an out-of-range configuration value.
    Config,
    /// A batch had inconsistent dimensions, or did not match the dimensions
    /// fixed by the first batch.
    Shape,
    /// A result was requested before any batch had been observed.
    Empty,
}

/// A returned correlation of `RHO_SCALE` means exactly 1.
pub const RHO_SCALE: i64 = 1_000_000_000;

/// Largest magnitude a fixed-point sample or hypothesis value may have.
pub const VALUE_BOUND: i64 = 0x800_0000;

/// Largest total number of traces an engine accepts over its lifetime.
pub const MAX_TRACES: usize = 0x10_0000;

/// Largest sample duration and largest hypothesis count.
pub const MAX_DIM: usize = 0x1_0000;

/// Largest number of result cells (`H * T`) an engine may be built with.
pub const MAX_CELLS: usize = 0x4000_0000;

/// The integer view of a row of fixed-point values.
pub open spec fn row_int(s: Seq<i64>) -> Seq<int> {
    Seq::new(s.len(), |i: int| s[i] as int)
}

/// Sum of a series.
pub open spec fn spec_sum(s: Seq<int>) -> int
    decreases s.len(),
{
    if s.len() == 0 {
        0
    } else {
        spec_sum(s.drop_last()) + s.last()
    }
}

/// Sum of the squares of a series.
pub open spec fn spec_sum_sq(s: Seq<int>) -> int
    decreases s.len(),
{
    if s.len() == 0 {
        0
    } else {
        spec_sum_sq(s.drop_last()) + s.last() * s.last()
    }
}

/// Sum of the pointwise products of two series of equal length.
pub open spec fn spec_sum_prod(a: Seq<int>, b: Seq<int>) -> int
    decreases a.len(),
{
    if a.len() == 0 {
        0
    } else {
        spec_sum_prod(a.drop_last(), b.drop_last()) + a.last() * b.last()
    }
}

/// Sums distribute over concatenation: the heart of the streaming design.
pub proof fn lemma_sum_append(a: Seq<int>, b: Seq<int>)
    ensures
        spec_sum(a + b) == spec_sum(a) + spec_sum(b),
    decreases b.len(),
{
    if b.len() == 0 {
        assert(a + b =~= a);
    } else {
        assert((a + b).drop_last() =~= a + b.drop_last());
        lemma_sum_append(a, b.drop_last());
    }
}

/// Sums of squares distribute over concatenation.
pub proof fn lemma_sum_sq_append(a: Seq<int>, b: Seq<int>)
    ensures
        spec_sum_sq(a + b) == spec_sum_sq(a) + spec_sum_sq(b),
    decreases b.len(),
{
    if b.len() == 0 {
        assert(a + b =~= a);
    } else {
        assert((a + b).drop_last() =~= a + b.drop_last());
        lemma_sum_sq_append(a, b.drop_last());
    }
}

/// Cross sums distribute over concatenation of equal-length halves.
pub proof fn lemma_sum_prod_append(a1: Seq<int>, b1: Seq<int>, a2: Seq<int>, b2: Seq<int>)
    requires
        a1.len() == b1.len(),
        a2.len() == b2.len(),
    ensures
        spec_sum_prod(a1 + a2, b1 + b2) == spec_sum_prod(a1, b1) + spec_sum_prod(a2, b2),
    decreases a2.len(),
{
    if a2.len() == 0 {
        assert(a1 + a2 =~= a1);
        assert(b1 + b2 =~= b1);
    } else {
        assert((a1 + a2).drop_last() =~= a1 + a2.drop_last());
        assert((b1 + b2).drop_last() =~= b1 + b2.drop_last());
        lemma_sum_prod_append(a1, b1, a2.drop_last(), b2.drop_last());
    }
}

/// Extending a prefix sum by one element.
pub proof fn lemma_sum_take_step(s: Seq<int>, i: int)
    requires
        0 <= i < s.len(),
    ensures
        spec_sum(s.take(i + 1)) == spec_sum(s.take(i)) + s[i],
        spec_sum_sq(s.take(i + 1)) == spec_sum_sq(s.take(i)) + s[i] * s[i],
{
    assert(s.take(i + 1).drop_last() =~= s.take(i));
}

/// Extending a prefix cross sum by one element of each series.
pub proof fn lemma_sum_prod_take_step(a: Seq<int>, b: Seq<int>, i: int)
    requires
        0 <= i < a.len(),
        0 <= i < b.len(),
    ensures
        spec_sum_prod(a.take(i + 1), b.take(i + 1)) == spec_sum_prod(a.take(i), b.take(i)) + a[i]
            * b[i],
{
    assert(a.take(i + 1).drop_last() =~= a.take(i));
    assert(b.take(i + 1).drop_last() =~= b.take(i));
}

/// A series with bounded entries has a linearly bounded sum and a linearly
/// bounded sum of squares.
pub proof fn lemma_sum_bounds(s: Seq<int>, b: int)
    requires
        b >= 0,
        forall|i: int| 0 <= i < s.len() ==> -b <= #[trigger] s[i] <= b,
    ensures
        -(s.len() * b) <= spec_sum(s) <= s.len() * b,
        0 <= spec_sum_sq(s) <= s.len() * (b * b),
    decreases s.len(),
{
    if s.len() == 0 {
    } else {
        lemma_sum_bounds(s.drop_last(), b);
        assert(s.len() * b == (s.len() - 1) * b + b) by (nonlinear_arith);
        assert(s.len() * (b * b) == (s.len() - 1) * (b * b) + b * b) by (nonlinear_arith);
        assert(s.last() * s.last() <= b * b && 0 <= s.last() * s.last()) by (nonlinear_arith)
            requires
                -b <= s.last() <= b,
        ;
    }
}

/// Two series with bounded entries have a bounded cross sum.
pub proof fn lemma_sum_prod_bound(a: Seq<int>, b: Seq<int>, bound: int)
    requires
        bound >= 0,
        a.len() == b.len(),
        forall|i: int| 0 <= i < a.len() ==> -bound <= #[trigger] a[i] <= bound,
        forall|i: int| 0 <= i < b.len() ==> -bound <= #[trigger] b[i] <= bound,
    ensures
        -(a.len() * (bound * bound)) <= spec_sum_prod(a, b) <= a.len() * (bound * bound),
    decreases a.len(),
{
    if a.len() == 0 {
    } else {
        lemma_sum_prod_bound(a.drop_last(), b.drop_last(), bound);
        assert(a.len() * (bound * bound) == (a.len() - 1) * (bound * bound) + bound * bound)
            by (nonlinear_arith);
        assert(-(bound * bound) <= a.last() * b.last() <= bound * bound) by (nonlinear_arith)
            requires
                -bound <= a.last() <= bound && -bound <= b.last() <= bound,
        ;
    }
}

/// `r` is the integer square root of `n`, rounded down.
pub open spec fn is_floor_sqrt(n: int, r: int) -> bool {
    0 <= r && r * r <= n && n < (r + 1) * (r + 1)
}

/// The integer square root of a nonnegative value, rounded down.
pub open spec fn spec_isqrt(n: int) -> int {
    choose|r: int| is_floor_sqrt(n, r)
}

/// Floor square roots are unique.
pub proof fn lemma_floor_sqrt_unique(n: int, r1: int, r2: int)
    requires
        is_floor_sqrt(n, r1),
        is_floor_sqrt(n, r2),
    ensures
        r1 == r2,
{
    assert(r1 < r2 ==> (r1 + 1) * (r1 + 1) <= r2 * r2) by (nonlinear_arith)
        requires
            0 <= r1 && 0 <= r2,
    ;
    assert(r2 < r1 ==> (r2 + 1) * (r2 + 1) <= r1 * r1) by (nonlinear_arith)
        requires
            0 <= r1 && 0 <= r2,
    ;
}

/// Computes the integer square root of `n`, rounded down.
pub fn isqrt(n: i128) -> (r: i128)
    requires
        0 <= n < 0x4000_0000_0000_0000_0000_0000_0000_0000,
    ensures
        is_floor_sqrt(n as int, r as int),
        r == spec_isqrt(n as int),
{
    let mut lo: i128 = 0;
    let mut hi: i128 = 0x8000_0000_0000_0000;
    assert(hi * hi > n) by (nonlinear_arith)
        requires
            hi == 0x8000_0000_0000_0000 && n < 0x4000_0000_0000_0000_0000_0000_0000_0000,
    ;
    while hi - lo > 1
        invariant
            0 <= lo < hi <= 0x8000_0000_0000_0000,
            lo * lo <= n,
            n < hi * hi,
        decreases hi - lo,
    {
        let mid = lo + (hi - lo) / 2;
        assert(lo < mid < hi);
        assert(mid * mid <= 0x8000_0000_0000_0000i128 * 0x8000_0000_0000_0000i128)
            by (nonlinear_arith)
            requires
                0 < mid <= 0x8000_0000_0000_0000,
        ;
        if mid * mid <= n {
            lo = mid;
        } else {
            hi = mid;
        }
    }
    proof {
        assert(is_floor_sqrt(n as int, lo as int));
        lemma_floor_sqrt_unique(n as int, lo as int, spec_isqrt(n as int));
    }
    lo
}

/// The Pearson numerator `N * sum_xy - sum_x * sum_y` over recorded series.
pub open spec fn spec_num(n: int, xs: Seq<int>, ys: Seq<int>) -> int {
    n * spec_sum_prod(ys, xs) - spec_sum(xs) * spec_sum(ys)
}

/// The Pearson denominator term `N * sum_sq - sum * sum` of one series.
pub open spec fn spec_den(n: int, s: Seq<int>) -> int {
    n * spec_sum_sq(s) - spec_sum(s) * spec_sum(s)
}

/// The fixed-point Pearson correlation of a sample-time series `xs` and a
/// hypothesis series `ys`, both of length `n`: the numerator is scaled by
/// `RHO_SCALE`, divided by the product of the floor square roots of the two
/// denominator terms, clamped to `[-RHO_SCALE, RHO_SCALE]`; it is zero
/// whenever either variance term is degenerate.
pub open spec fn spec_rho(n: int, xs: Seq<int>, ys: Seq<int>) -> int {
    let num = spec_num(n, xs, ys);
    let den_x = spec_den(n, xs);
    let den_y = spec_den(n, ys);
    if den_x <= 0 || den_y <= 0 {
        0
    } else {
        let d = spec_isqrt(den_x) * spec_isqrt(den_y);
        if d <= 0 {
            0
        } else {
            let q = (if num < 0 {
                -num
            } else {
                num
            }) * RHO_SCALE / d;
            let c = if q > RHO_SCALE {
                RHO_SCALE as int
            } else {
                q
            };
            if num < 0 {
                -c
            } else {
                c
            }
        }
    }
}

/// Every correlation the engine defines lies in `[-RHO_SCALE, RHO_SCALE]`:
/// no value outside the fixed-point unit range, and degenerate variances
/// yield exactly zero.
pub proof fn lemma_rho_range(n: int, xs: Seq<int>, ys: Seq<int>)
    ensures
        -RHO_SCALE <= spec_rho(n, xs, ys) <= RHO_SCALE,
        spec_den(n, xs) <= 0 || spec_den(n, ys) <= 0 ==> spec_rho(n, xs, ys) == 0,
{
    let num = spec_num(n, xs, ys);
    let den_x = spec_den(n, xs);
    let den_y = spec_den(n, ys);
    if den_x > 0 && den_y > 0 {
        let d = spec_isqrt(den_x) * spec_isqrt(den_y);
        if d > 0 {
            let a = if num < 0 {
                -num
            } else {
                num
            };
            assert(a * RHO_SCALE >= 0) by (nonlinear_arith)
                requires
                    a >= 0,
            ;
            vstd::arithmetic::div_mod::lemma_div_is_ordered(0, a * RHO_SCALE, d);
        }
    }
}

/// The width (trace count) of a batch given time-major, one row per time
/// index: the length of the first row, or zero if there are no rows.
pub open spec fn spec_batch_width(m: Seq<Seq<i64>>) -> nat {
    if m.len() == 0 {
        0
    } else {
        m[0].len()
    }
}

/// Every row of `m` has length `w`.
pub open spec fn spec_rows_ok(m: Seq<Seq<i64>>, w: nat) -> bool {
    forall|i: int| 0 <= i < m.len() ==> (#[trigger] m[i]).len() == w
}

/// A batch fits an engine of `t` time indices and `h` hypotheses: `t`
/// time-major sample rows and `h` hypothesis rows, all of one width.
pub open spec fn spec_batch_ok(samples: Seq<Seq<i64>>, hyps: Seq<Seq<i64>>, t: nat, h: nat) -> bool {
    &&& samples.len() == t
    &&& hyps.len() == h
    &&& spec_rows_ok(samples, spec_batch_width(samples))
    &&& spec_rows_ok(hyps, spec_batch_width(samples))
}

/// Every entry of every row lies in `[-VALUE_BOUND, VALUE_BOUND]`.
pub open spec fn spec_values_bounded(m: Seq<Seq<i64>>) -> bool {
    forall|i: int, j: int|
        0 <= i < m.len() && 0 <= j < m[i].len() ==> -VALUE_BOUND <= #[trigger] m[i][j]
            <= VALUE_BOUND
}

/// The streaming correlation engine.
///
/// The recorded history is carried alongside the running sums as ghost
/// state: `samples()[t]` is every fixed-point sample seen at time index `t`,
/// in arrival order, and `hypotheses()[h]` is every value of hypothesis `h`,
/// so the contracts of [`CorrelationEngine::update`] and
/// [`CorrelationEngine::get_result`] speak about exact sums over the whole
/// stream.
pub struct CorrelationEngine {
    sample_duration: usize,
    n_guesses: usize,
    n_traces: usize,
    sum_x: Vec<i128>,
    sum_x2: Vec<i128>,
    sum_y: Vec<i128>,
    sum_y2: Vec<i128>,
    sum_xy: Vec<i128>,
    xs: Ghost<Seq<Seq<int>>>,
    ys: Ghost<Seq<Seq<int>>>,
}

impl CorrelationEngine {
    /// The fixed sample duration `T`.
    pub closed spec fn duration(&self) -> nat {
        self.sample_duration as nat
    }

    /// The fixed hypothesis count `H`.
    pub closed spec fn hypothesis_count(&self) -> nat {
        self.n_guesses as nat
    }

    /// The number of traces observed so far.
    pub closed spec fn trace_count(&self) -> nat {
        self.n_traces as nat
    }

    /// The recorded sample history, one series per time index.
    pub closed spec fn samples(&self) -> Seq<Seq<int>> {
        self.xs@
    }

    /// The recorded hypothesis history, one series per hypothesis.
    pub closed spec fn hypotheses(&self) -> Seq<Seq<int>> {
        self.ys@
    }

    /// The engine's invariant: dimensions are in range, the recorded series
    /// all have the observed length and bounded entries, and every running
    /// sum equals the exact sum over its recorded series.
    pub closed spec fn wf(&self) -> bool {
        &&& 1 <= self.sample_duration <= MAX_DIM
        &&& 1 <= self.n_guesses <= MAX_DIM
        &&& self.n_guesses * self.sample_duration <= MAX_CELLS
        &&& self.n_traces <= MAX_TRACES
        &&& self.xs@.len() == self.sample_duration
        &&& self.ys@.len() == self.n_guesses
        &&& forall|t: int|
            0 <= t < self.xs@.len() ==> (#[trigger] self.xs@[t]).len() == self.n_traces
        &&& forall|h: int|
            0 <= h < self.ys@.len() ==> (#[trigger] self.ys@[h]).len() == self.n_traces
        &&& forall|t: int, n: int|
            0 <= t < self.xs@.len() && 0 <= n < self.xs@[t].len() ==> -VALUE_BOUND
                <= #[trigger] self.xs@[t][n] <= VALUE_BOUND
        &&& forall|h: int, n: int|
            0 <= h < self.ys@.len() && 0 <= n < self.ys@[h].len() ==> -VALUE_BOUND
                <= #[trigger] self.ys@[h][n] <= VALUE_BOUND
        &&& self.sum_x@.len() == self.sample_duration
        &&& self.sum_x2@.len() == self.sample_duration
        &&& self.sum_y@.len() == self.n_guesses
        &&& self.sum_y2@.len() == self.n_guesses
        &&& self.sum_xy@.len() == self.n_guesses * self.sample_duration
        &&& forall|t: int|
            0 <= t < self.xs@.len() ==> self.sum_x@[t] == spec_sum(#[trigger] self.xs@[t])
        &&& forall|t: int|
            0 <= t < self.xs@.len() ==> self.sum_x2@[t] == spec_sum_sq(#[trigger] self.xs@[t])
        &&& forall|h: int|
            0 <= h < self.ys@.len() ==> self.sum_y@[h] == spec_sum(#[trigger] self.ys@[h])
        &&& forall|h: int|
            0 <= h < self.ys@.len() ==> self.sum_y2@[h] == spec_sum_sq(#[trigger] self.ys@[h])
        &&& forall|h: int, t: int|
            0 <= h < self.ys@.len() && 0 <= t < self.xs@.len() ==> self.sum_xy@[h
                * self.sample_duration + t] == spec_sum_prod(
                #[trigger] self.ys@[h],
                #[trigger] self.xs@[t],
            )
    }

    /// Builds an engine for `sample_duration` time indices and `n_guesses`
    /// hypotheses with all running sums at zero and no recorded history.
    pub fn new(sample_duration: usize, n_guesses: usize) -> (r: CorrelationEngine)
        requires
            1 <= sample_duration <= MAX_DIM,
            1 <= n_guesses <= MAX_DIM,
            n_guesses * sample_duration <= MAX_CELLS,
        ensures
            r.wf(),
            r.duration() == sample_duration,
            r.hypothesis_count() == n_guesses,
            r.trace_count() == 0,
            r.samples() == Seq::new(sample_duration as nat, |t: int| Seq::<int>::empty()),
            r.hypotheses() == Seq::new(n_guesses as nat, |h: int| Seq::<int>::empty()),
    {
        let cells = n_guesses * sample_duration;
        let r = CorrelationEngine {
            sample_duration,
            n_guesses,
            n_traces: 0,
            sum_x: zeros(sample_duration),
            sum_x2: zeros(sample_duration),
            sum_y: zeros(n_guesses),
            sum_y2: zeros(n_guesses),
            sum_xy: zeros(cells),
            xs: Ghost(Seq::new(sample_duration as nat, |t: int| Seq::<int>::empty())),
            ys: Ghost(Seq::new(n_guesses as nat, |h: int| Seq::<int>::empty())),
        };
        proof {
            assert forall|h: int, t: int|
                0 <= h < r.ys@.len() && 0 <= t < r.xs@.len() implies r.sum_xy@[h
                * r.sample_duration + t] == spec_sum_prod(r.ys@[h], r.xs@[t]) by {
                assert(0 <= h * r.sample_duration + t < r.sum_xy@.len()) by (nonlinear_arith)
                    requires
                        0 <= h < r.ys@.len() && 0 <= t < r.sample_duration && r.ys@.len()
                            == r.n_guesses && r.sum_xy@.len() == r.n_guesses * r.sample_duration,
                ;
            }
        }
        r
    }
}

impl CorrelationEngine {
    /// Folds one batch into the running sums: `samples` holds one row per
    /// time index (time-major), `hypotheses` one row per hypothesis, all
    /// rows of one width `S`.  On success the batch is appended to the
    /// recorded history and the trace count grows by `S`; a batch whose
    /// shape does not match the engine is rejected with `Shape` and leaves
    /// the engine untouched.
    pub fn update(&mut self, samples: &Vec<Vec<i64>>, hypotheses: &Vec<Vec<i64>>) -> (r: Result<
        (),
        CpaError,
    >)
        requires
            old(self).wf(),
            spec_values_bounded(matrix_view(samples@)),
            spec_values_bounded(matrix_view(hypotheses@)),
            old(self).trace_count() + spec_batch_width(matrix_view(samples@)) <= MAX_TRACES,
        ensures
            r is Ok <==> spec_batch_ok(
                matrix_view(samples@),
                matrix_view(hypotheses@),
                old(self).duration(),
                old(self).hypothesis_count(),
            ),
            r is Err ==> *final(self) == *old(self),
            r is Ok ==> {
                &&& final(self).wf()
                &&& final(self).duration() == old(self).duration()
                &&& final(self).hypothesis_count() == old(self).hypothesis_count()
                &&& final(self).trace_count() == old(self).trace_count() + spec_batch_width(
                    matrix_view(samples@),
                )
                &&& forall|t: int|
                    0 <= t < old(self).duration() ==> final(self).samples()[t] == old(
                        self,
                    ).samples()[t] + row_int(#[trigger] matrix_view(samples@)[t])
                &&& forall|h: int|
                    0 <= h < old(self).hypothesis_count() ==> final(self).hypotheses()[h] == old(
                        self,
                    ).hypotheses()[h] + row_int(#[trigger] matrix_view(hypotheses@)[h])
            },
    {
        let t_dim = self.sample_duration;
        let h_dim = self.n_guesses;
        if samples.len() != t_dim || hypotheses.len() != h_dim {
            return Err(CpaError::Shape);
        }
        let width = samples[0].len();
        for i in 0..t_dim
            invariant
                t_dim == samples@.len(),
                width == spec_batch_width(matrix_view(samples@)),
                forall|j: int| 0 <= j < i ==> (#[trigger] matrix_view(samples@)[j]).len() == width,
        {
            if samples[i].len() != width {
                proof {
                    assert(matrix_view(samples@)[i as int].len() != spec_batch_width(
                        matrix_view(samples@),
                    ));
                }
                return Err(CpaError::Shape);
            }
        }
        for i in 0..h_dim
            invariant
                h_dim == hypotheses@.len(),
                width == spec_batch_width(matrix_view(samples@)),
                forall|j: int|
                    0 <= j < i ==> (#[trigger] matrix_view(hypotheses@)[j]).len() == width,
        {
            if hypotheses[i].len() != width {
                proof {
                    assert(matrix_view(hypotheses@)[i as int].len() != spec_batch_width(
                        matrix_view(samples@),
                    ));
                }
                return Err(CpaError::Shape);
            }
        }
        let ghost sv = matrix_view(samples@);
        let ghost hv = matrix_view(hypotheses@);
        assert(spec_batch_ok(sv, hv, old(self).duration(), old(self).hypothesis_count()));
        let ghost old_xs = self.xs@;
        let ghost old_ys = self.ys@;
        let ghost n0 = self.n_traces as nat;

        for t in 0..t_dim
            invariant
                self.sample_duration == t_dim && self.n_guesses == h_dim,
                self.n_traces == n0,
                t_dim == samples@.len(),
                sv == matrix_view(samples@) && hv == matrix_view(hypotheses@),
                spec_batch_ok(sv, hv, t_dim as nat, h_dim as nat),
                spec_values_bounded(sv),
                width == spec_batch_width(sv),
                n0 + width <= MAX_TRACES,
                self.xs@ == old_xs && self.ys@ == old_ys,
                self.sum_y == old(self).sum_y && self.sum_y2 == old(self).sum_y2 && self.sum_xy
                    == old(self).sum_xy,
                self.sum_x@.len() == t_dim && self.sum_x2@.len() == t_dim,
                old_xs.len() == t_dim,
                forall|j: int| 0 <= j < t_dim ==> (#[trigger] old_xs[j]).len() == n0,
                forall|j: int, n: int|
                    0 <= j < t_dim && 0 <= n < old_xs[j].len() ==> -VALUE_BOUND
                        <= #[trigger] old_xs[j][n] <= VALUE_BOUND,
                forall|j: int|
                    0 <= j < t ==> self.sum_x@[j] == spec_sum(
                        #[trigger] old_xs[j] + row_int(sv[j]),
                    ),
                forall|j: int|
                    0 <= j < t ==> self.sum_x2@[j] == spec_sum_sq(
                        #[trigger] old_xs[j] + row_int(sv[j]),
                    ),
                forall|j: int| t <= j < t_dim ==> self.sum_x@[j] == spec_sum(#[trigger] old_xs[j]),
                forall|j: int|
                    t <= j < t_dim ==> self.sum_x2@[j] == spec_sum_sq(#[trigger] old_xs[j]),
        {
            let row = &samples[t];
            assert(row@ == sv[t as int]);
            let pair = accumulate_row(
                self.sum_x[t],
                self.sum_x2[t],
                row,
                Ghost(old_xs[t as int]),
            );
            self.sum_x[t] = pair.0;
            self.sum_x2[t] = pair.1;
        }

        let ghost sum_x_done = self.sum_x@;
        let ghost sum_x2_done = self.sum_x2@;
        for h in 0..h_dim
            invariant
                self.sample_duration == t_dim && self.n_guesses == h_dim,
                self.n_traces == n0,
                h_dim == hypotheses@.len(),
                sv == matrix_view(samples@) && hv == matrix_view(hypotheses@),
                spec_batch_ok(sv, hv, t_dim as nat, h_dim as nat),
                spec_values_bounded(hv),
                width == spec_batch_width(sv),
                n0 + width <= MAX_TRACES,
                self.xs@ == old_xs && self.ys@ == old_ys,
                self.sum_x@ == sum_x_done && self.sum_x2@ == sum_x2_done,
                self.sum_xy == old(self).sum_xy,
                self.sum_y@.len() == h_dim && self.sum_y2@.len() == h_dim,
                old_ys.len() == h_dim,
                forall|g: int| 0 <= g < h_dim ==> (#[trigger] old_ys[g]).len() == n0,
                forall|g: int, n: int|
                    0 <= g < h_dim && 0 <= n < old_ys[g].len() ==> -VALUE_BOUND
                        <= #[trigger] old_ys[g][n] <= VALUE_BOUND,
                forall|g: int|
                    0 <= g < h ==> self.sum_y@[g] == spec_sum(
                        #[trigger] old_ys[g] + row_int(hv[g]),
                    ),
                forall|g: int|
                    0 <= g < h ==> self.sum_y2@[g] == spec_sum_sq(
                        #[trigger] old_ys[g] + row_int(hv[g]),
                    ),
                forall|g: int| h <= g < h_dim ==> self.sum_y@[g] == spec_sum(#[trigger] old_ys[g]),
                forall|g: int|
                    h <= g < h_dim ==> self.sum_y2@[g] == spec_sum_sq(#[trigger] old_ys[g]),
        {
            let row = &hypotheses[h];
            assert(row@ == hv[h as int]);
            let pair = accumulate_row(
                self.sum_y[h],
                self.sum_y2[h],
                row,
                Ghost(old_ys[h as int]),
            );
            self.sum_y[h] = pair.0;
            self.sum_y2[h] = pair.1;
        }

        let ghost sum_y_done = self.sum_y@;
        let ghost sum_y2_done = self.sum_y2@;
        for h in 0..h_dim
            invariant
                self.sample_duration == t_dim && self.n_guesses == h_dim,
                self.n_traces == n0,
                t_dim == samples@.len() && h_dim == hypotheses@.len(),
                sv == matrix_view(samples@) && hv == matrix_view(hypotheses@),
                spec_batch_ok(sv, hv, t_dim as nat, h_dim as nat),
                spec_values_bounded(sv) && spec_values_bounded(hv),
                width == spec_batch_width(sv),
                n0 + width <= MAX_TRACES,
                h_dim * t_dim <= MAX_CELLS,
                self.xs@ == old_xs && self.ys@ == old_ys,
                self.sum_x@ == sum_x_done && self.sum_x2@ == sum_x2_done,
                self.sum_y@ == sum_y_done && self.sum_y2@ == sum_y2_done,
                self.sum_xy@.len() == h_dim * t_dim,
                old_xs.len() == t_dim && old_ys.len() == h_dim,
                forall|j: int| 0 <= j < t_dim ==> (#[trigger] old_xs[j]).len() == n0,
                forall|g: int| 0 <= g < h_dim ==> (#[trigger] old_ys[g]).len() == n0,
                forall|j: int, n: int|
                    0 <= j < t_dim && 0 <= n < old_xs[j].len() ==> -VALUE_BOUND
                        <= #[trigger] old_xs[j][n] <= VALUE_BOUND,
                forall|g: int, n: int|
                    0 <= g < h_dim && 0 <= n < old_ys[g].len() ==> -VALUE_BOUND
                        <= #[trigger] old_ys[g][n] <= VALUE_BOUND,
                forall|g: int, j: int|
                    #![trigger old_ys[g], old_xs[j]]
                    0 <= g < h && 0 <= j < t_dim ==> self.sum_xy@[g * t_dim + j] == spec_sum_prod(
                        old_ys[g] + row_int(hv[g]),
                        old_xs[j] + row_int(sv[j]),
                    ),
                forall|g: int, j: int|
                    #![trigger old_ys[g], old_xs[j]]
                    h <= g < h_dim && 0 <= j < t_dim ==> self.sum_xy@[g * t_dim + j]
                        == spec_sum_prod(old_ys[g], old_xs[j]),
        {
            let yrow = &hypotheses[h];
            assert(yrow@ == hv[h as int]);
            for t in 0..t_dim
                invariant
                    self.sample_duration == t_dim && self.n_guesses == h_dim,
                    self.n_traces == n0,
                    0 <= h < h_dim,
                    t_dim == samples@.len() && h_dim == hypotheses@.len(),
                    sv == matrix_view(samples@) && hv == matrix_view(hypotheses@),
                    spec_batch_ok(sv, hv, t_dim as nat, h_dim as nat),
                    spec_values_bounded(sv) && spec_values_bounded(hv),
                    width == spec_batch_width(sv),
                    n0 + width <= MAX_TRACES,
                    h_dim * t_dim <= MAX_CELLS,
                    self.xs@ == old_xs && self.ys@ == old_ys,
                    self.sum_x@ == sum_x_done && self.sum_x2@ == sum_x2_done,
                    self.sum_y@ == sum_y_done && self.sum_y2@ == sum_y2_done,
                    self.sum_xy@.len() == h_dim * t_dim,
                    old_xs.len() == t_dim && old_ys.len() == h_dim,
                    yrow@ == hv[h as int],
                    forall|j: int| 0 <= j < t_dim ==> (#[trigger] old_xs[j]).len() == n0,
                    forall|g: int| 0 <= g < h_dim ==> (#[trigger] old_ys[g]).len() == n0,
                    forall|j: int, n: int|
                        0 <= j < t_dim && 0 <= n < old_xs[j].len() ==> -VALUE_BOUND
                            <= #[trigger] old_xs[j][n] <= VALUE_BOUND,
                    forall|g: int, n: int|
                        0 <= g < h_dim && 0 <= n < old_ys[g].len() ==> -VALUE_BOUND
                            <= #[trigger] old_ys[g][n] <= VALUE_BOUND,
                    forall|g: int, j: int|
                        #![trigger old_ys[g], old_xs[j]]
                        0 <= g < h && 0 <= j < t_dim ==> self.sum_xy@[g * t_dim + j]
                            == spec_sum_prod(
                            old_ys[g] + row_int(hv[g]),
                            old_xs[j] + row_int(sv[j]),
                        ),
                    forall|j: int|
                        #![trigger old_xs[j]]
                        0 <= j < t ==> self.sum_xy@[h * t_dim + j] == spec_sum_prod(
                            old_ys[h as int] + row_int(hv[h as int]),
                            old_xs[j] + row_int(sv[j]),
                        ),
                    forall|j: int|
                        #![trigger old_xs[j]]
                        t <= j < t_dim ==> self.sum_xy@[h * t_dim + j] == spec_sum_prod(
                            old_ys[h as int],
                            old_xs[j],
                        ),
                    forall|g: int, j: int|
                        #![trigger old_ys[g], old_xs[j]]
                        h < g < h_dim && 0 <= j < t_dim ==> self.sum_xy@[g * t_dim + j]
                            == spec_sum_prod(old_ys[g], old_xs[j]),
            {
                proof {
                    assert(h * t_dim + t < h_dim * t_dim) by (nonlinear_arith)
                        requires
                            0 <= h < h_dim && 0 <= t < t_dim,
                    ;
                }
                let idx = h * t_dim + t;
                let xrow = &samples[t];
                assert(xrow@ == sv[t as int]);
                let c = accumulate_cross(
                    self.sum_xy[idx],
                    yrow,
                    xrow,
                    Ghost(old_ys[h as int]),
                    Ghost(old_xs[t as int]),
                );
                let ghost prev_xy = self.sum_xy@;
                self.sum_xy[idx] = c;
                proof {
                    assert forall|g: int, j: int|
                        #![trigger old_ys[g], old_xs[j]]
                        0 <= g < h_dim && 0 <= j < t_dim && !(g == h && j == t) implies self.sum_xy@[g
                        * t_dim + j] == prev_xy[g * t_dim + j] by {
                        if g * t_dim + j == h * t_dim + t {
                            lemma_cell_index_injective(g, j, h as int, t as int, t_dim as int);
                        }
                        assert(0 <= g * t_dim + j < h_dim * t_dim) by (nonlinear_arith)
                            requires
                                0 <= g < h_dim && 0 <= j < t_dim,
                        ;
                    }
                }
            }
        }

        let new_count = self.n_traces + width;
        self.n_traces = new_count;
        proof {
            self.xs@ = Seq::new(t_dim as nat, |j: int| old_xs[j] + row_int(sv[j]));
            self.ys@ = Seq::new(h_dim as nat, |g: int| old_ys[g] + row_int(hv[g]));
            assert forall|j: int, n: int|
                #![trigger self.xs@[j][n]]
                0 <= j < t_dim && 0 <= n < self.xs@[j].len() implies -VALUE_BOUND
                <= self.xs@[j][n] <= VALUE_BOUND by {
                if n >= old_xs[j].len() {
                    assert(self.xs@[j][n] == row_int(sv[j])[n - n0]);
                }
            }
            assert forall|g: int, n: int|
                #![trigger self.ys@[g][n]]
                0 <= g < h_dim && 0 <= n < self.ys@[g].len() implies -VALUE_BOUND
                <= self.ys@[g][n] <= VALUE_BOUND by {
                if n >= old_ys[g].len() {
                    assert(self.ys@[g][n] == row_int(hv[g])[n - n0]);
                }
            }
        }
        Ok(())
    }
}

/// The row-of-sequences view of a matrix held as a vector of vectors.
pub open spec fn matrix_view(m: Seq<Vec<i64>>) -> Seq<Seq<i64>> {
    Seq::new(m.len(), |i: int| m[i]@)
}

/// Cells of an `H x T` accumulator are addressed injectively by
/// `h * width + t`.
proof fn lemma_cell_index_injective(g: int, j: int, h: int, t: int, w: int)
    requires
        0 <= j < w,
        0 <= t < w,
        g * w + j == h * w + t,
    ensures
        g == h && j == t,
{
    assert(g == h && j == t) by (nonlinear_arith)
        requires
            0 <= j < w && 0 <= t < w && g * w + j == h * w + t,
    ;
}

/// Adds one batch row into a running sum and running sum of squares.
fn accumulate_row(acc0: i128, acc20: i128, row: &Vec<i64>, base: Ghost<Seq<int>>) -> (r: (
    i128,
    i128,
))
    requires
        acc0 == spec_sum(base@),
        acc20 == spec_sum_sq(base@),
        base@.len() + row@.len() <= MAX_TRACES,
        forall|i: int| 0 <= i < base@.len() ==> -VALUE_BOUND <= #[trigger] base@[i] <= VALUE_BOUND,
        forall|i: int| 0 <= i < row@.len() ==> -VALUE_BOUND <= #[trigger] row@[i] <= VALUE_BOUND,
    ensures
        r.0 == spec_sum(base@ + row_int(row@)),
        r.1 == spec_sum_sq(base@ + row_int(row@)),
{
    let mut acc = acc0;
    let mut acc2 = acc20;
    let ghost ri = row_int(row@);
    let n = row.len();
    proof {
        lemma_sum_bounds(base@, VALUE_BOUND as int);
        assert(ri.take(0) =~= Seq::<int>::empty());
    }
    for s in 0..n
        invariant
            n == row@.len(),
            ri == row_int(row@),
            base@.len() + n <= MAX_TRACES,
            forall|i: int|
                0 <= i < row@.len() ==> -VALUE_BOUND <= #[trigger] row@[i] <= VALUE_BOUND,
            acc == spec_sum(base@) + spec_sum(ri.take(s as int)),
            acc2 == spec_sum_sq(base@) + spec_sum_sq(ri.take(s as int)),
            -((base@.len() + s) * VALUE_BOUND) <= acc <= (base@.len() + s) * VALUE_BOUND,
            0 <= acc2 <= (base@.len() + s) * (VALUE_BOUND * VALUE_BOUND),
            -((base@.len() as int) * VALUE_BOUND) <= spec_sum(base@) <= (base@.len() as int)
                * VALUE_BOUND,
            0 <= spec_sum_sq(base@) <= (base@.len() as int) * (VALUE_BOUND * VALUE_BOUND),
    {
        let v = row[s] as i128;
        proof {
            lemma_sum_take_step(ri, s as int);
            assert(ri[s as int] == row@[s as int] as int);
            let k = base@.len() + s;
            assert((k + 1) * VALUE_BOUND == k * VALUE_BOUND + VALUE_BOUND) by (nonlinear_arith);
            assert((k + 1) * (VALUE_BOUND * VALUE_BOUND) == k * (VALUE_BOUND * VALUE_BOUND)
                + VALUE_BOUND * VALUE_BOUND) by (nonlinear_arith);
            assert(0 <= v * v <= VALUE_BOUND * VALUE_BOUND) by (nonlinear_arith)
                requires
                    -VALUE_BOUND <= v <= VALUE_BOUND,
            ;
        }
        acc = acc + v;
        acc2 = acc2 + v * v;
    }
    proof {
        assert(ri.take(n as int) =~= ri);
        lemma_sum_append(base@, ri);
        lemma_sum_sq_append(base@, ri);
    }
    (acc, acc2)
}

/// Adds one batch's pointwise products into a running cross sum.
fn accumulate_cross(
    acc0: i128,
    yrow: &Vec<i64>,
    xrow: &Vec<i64>,
    ybase: Ghost<Seq<int>>,
    xbase: Ghost<Seq<int>>,
) -> (r: i128)
    requires
        acc0 == spec_sum_prod(ybase@, xbase@),
        ybase@.len() == xbase@.len(),
        yrow@.len() == xrow@.len(),
        ybase@.len() + yrow@.len() <= MAX_TRACES,
        forall|i: int|
            0 <= i < ybase@.len() ==> -VALUE_BOUND <= #[trigger] ybase@[i] <= VALUE_BOUND,
        forall|i: int|
            0 <= i < xbase@.len() ==> -VALUE_BOUND <= #[trigger] xbase@[i] <= VALUE_BOUND,
        forall|i: int| 0 <= i < yrow@.len() ==> -VALUE_BOUND <= #[trigger] yrow@[i] <= VALUE_BOUND,
        forall|i: int| 0 <= i < xrow@.len() ==> -VALUE_BOUND <= #[trigger] xrow@[i] <= VALUE_BOUND,
    ensures
        r == spec_sum_prod(ybase@ + row_int(yrow@), xbase@ + row_int(xrow@)),
{
    let mut acc = acc0;
    let ghost yi = row_int(yrow@);
    let ghost xi = row_int(xrow@);
    let n = yrow.len();
    proof {
        lemma_sum_prod_bound(ybase@, xbase@, VALUE_BOUND as int);
        assert(yi.take(0) =~= Seq::<int>::empty());
        assert(xi.take(0) =~= Seq::<int>::empty());
    }
    for s in 0..n
        invariant
            n == yrow@.len() && n == xrow@.len(),
            yi == row_int(yrow@) && xi == row_int(xrow@),
            ybase@.len() + n <= MAX_TRACES,
            forall|i: int|
                0 <= i < yrow@.len() ==> -VALUE_BOUND <= #[trigger] yrow@[i] <= VALUE_BOUND,
            forall|i: int|
                0 <= i < xrow@.len() ==> -VALUE_BOUND <= #[trigger] xrow@[i] <= VALUE_BOUND,
            acc == spec_sum_prod(ybase@, xbase@) + spec_sum_prod(yi.take(s as int), xi.take(s as int)),
            -((ybase@.len() + s) * (VALUE_BOUND * VALUE_BOUND)) <= acc <= (ybase@.len() + s)
                * (VALUE_BOUND * VALUE_BOUND),
            -((ybase@.len() as int) * (VALUE_BOUND * VALUE_BOUND)) <= spec_sum_prod(ybase@, xbase@)
                <= (ybase@.len() as int) * (VALUE_BOUND * VALUE_BOUND),
    {
        let y = yrow[s] as i128;
        let x = xrow[s] as i128;
        proof {
            lemma_sum_prod_take_step(yi, xi, s as int);
            assert(yi[s as int] == yrow@[s as int] as int);
            assert(xi[s as int] == xrow@[s as int] as int);
            let k = ybase@.len() + s;
            assert((k + 1) * (VALUE_BOUND * VALUE_BOUND) == k * (VALUE_BOUND * VALUE_BOUND)
                + VALUE_BOUND * VALUE_BOUND) by (nonlinear_arith);
            assert(-(VALUE_BOUND * VALUE_BOUND) <= y * x <= VALUE_BOUND * VALUE_BOUND)
                by (nonlinear_arith)
                requires
                    -VALUE_BOUND <= y <= VALUE_BOUND && -VALUE_BOUND <= x <= VALUE_BOUND,
            ;
        }
        acc = acc + y * x;
    }
    proof {
        assert(yi.take(n as int) =~= yi);
        assert(xi.take(n as int) =~= xi);
        lemma_sum_prod_append(ybase@, xbase@, yi, xi);
    }
    acc
}

impl CorrelationEngine {
    /// The fixed sample duration `T`, as an executable value.
    pub fn duration_runtime(&self) -> (r: usize)
        ensures
            r == self.duration(),
    {
        self.sample_duration
    }

    /// The fixed-point correlation of hypothesis `h` and time index `t`.
    fn rho_cell(&self, h: usize, t: usize) -> (r: i64)
        requires
            self.wf(),
            h < self.hypothesis_count(),
            t < self.duration(),
        ensures
            r == spec_rho(
                self.trace_count() as int,
                self.samples()[t as int],
                self.hypotheses()[h as int],
            ),
            -RHO_SCALE <= r <= RHO_SCALE,
    {
        let ghost xs_t = self.xs@[t as int];
        let ghost ys_h = self.ys@[h as int];
        let ghost nn = self.n_traces as int;
        let ghost bb = VALUE_BOUND as int;
        proof {
            lemma_rho_range(nn, xs_t, ys_h);
            lemma_sum_bounds(xs_t, bb);
            lemma_sum_bounds(ys_h, bb);
            lemma_sum_prod_bound(ys_h, xs_t, bb);
            assert(h * self.sample_duration + t < self.n_guesses * self.sample_duration)
                by (nonlinear_arith)
                requires
                    0 <= h < self.n_guesses && 0 <= t < self.sample_duration,
            ;
        }
        let n = self.n_traces as i128;
        let sx = self.sum_x[t];
        let sx2 = self.sum_x2[t];
        let sy = self.sum_y[h];
        let sy2 = self.sum_y2[h];
        let sxy = self.sum_xy[h * self.sample_duration + t];
        proof {
            assert(0 <= n * sx2 <= 0x4000_0000_0000_0000_0000_0000 && 0 <= n * sy2
                <= 0x4000_0000_0000_0000_0000_0000 && 0 <= sx * sx <= 0x4000_0000_0000_0000_0000_0000
                && 0 <= sy * sy <= 0x4000_0000_0000_0000_0000_0000
                && -0x4000_0000_0000_0000_0000_0000 <= n * sxy <= 0x4000_0000_0000_0000_0000_0000
                && -0x4000_0000_0000_0000_0000_0000 <= sx * sy
                <= 0x4000_0000_0000_0000_0000_0000) by (nonlinear_arith)
                requires
                    0 <= n <= MAX_TRACES,
                    -(n * bb) <= sx <= n * bb,
                    -(n * bb) <= sy <= n * bb,
                    0 <= sx2 <= n * (bb * bb),
                    0 <= sy2 <= n * (bb * bb),
                    -(n * (bb * bb)) <= sxy <= n * (bb * bb),
                    bb == VALUE_BOUND,
                    MAX_TRACES * ((MAX_TRACES * VALUE_BOUND) * VALUE_BOUND)
                        <= 0x4000_0000_0000_0000_0000_0000,
            ;
        }
        let den_x = n * sx2 - sx * sx;
        let den_y = n * sy2 - sy * sy;
        if den_x <= 0 || den_y <= 0 {
            return 0;
        }
        let rx = isqrt(den_x);
        let ry = isqrt(den_y);
        proof {
            assert(0 <= rx * ry <= 0x8000_0000_0000_0000_0000_0000_0000 && (rx * ry == 0 ==> rx
                == 0 || ry == 0)) by (nonlinear_arith)
                requires
                    0 <= rx && 0 <= ry && rx * rx <= den_x && ry * ry <= den_y && den_x
                        <= 0x8000_0000_0000_0000_0000_0000 && den_y
                        <= 0x8000_0000_0000_0000_0000_0000,
            ;
        }
        let d = rx * ry;
        if d <= 0 {
            return 0;
        }
        let num = n * sxy - sx * sy;
        let neg = num < 0;
        let na = if neg {
            -num
        } else {
            num
        };
        proof {
            assert(0 <= na * (RHO_SCALE as i128) < 0x4000_0000_0000_0000_0000_0000_0000_0000)
                by (nonlinear_arith)
                requires
                    0 <= na <= 0x8000_0000_0000_0000_0000_0000 && RHO_SCALE == 1_000_000_000,
            ;
            vstd::arithmetic::div_mod::lemma_div_is_ordered(0, na * (RHO_SCALE as int), d as int);
        }
        let q = na * (RHO_SCALE as i128) / d;
        let c: i64 = if q > (RHO_SCALE as i128) {
            RHO_SCALE
        } else {
            q as i64
        };
        if neg {
            -c
        } else {
            c
        }
    }

    /// Returns the full correlation matrix, one row of `T` correlations per
    /// hypothesis, each cell the exact fixed-point Pearson correlation of
    /// the recorded series; fails with `Empty` before any batch has been
    /// observed.
    pub fn get_result(&self) -> (r: Result<Vec<Vec<i64>>, CpaError>)
        requires
            self.wf(),
        ensures
            r is Err <==> self.trace_count() == 0,
            r is Err ==> r == Err::<Vec<Vec<i64>>, CpaError>(CpaError::Empty),
            r is Ok ==> {
                let m = r->Ok_0;
                &&& m@.len() == self.hypothesis_count()
                &&& forall|h: int|
                    0 <= h < m@.len() ==> (#[trigger] m@[h])@.len() == self.duration()
                &&& forall|h: int, t: int|
                    0 <= h < m@.len() && 0 <= t < m@[h]@.len() ==> #[trigger] m@[h]@[t] == spec_rho(
                        self.trace_count() as int,
                        self.samples()[t],
                        self.hypotheses()[h],
                    )
                &&& forall|h: int, t: int|
                    0 <= h < m@.len() && 0 <= t < m@[h]@.len() ==> -RHO_SCALE
                        <= #[trigger] m@[h]@[t] <= RHO_SCALE
            },
    {
        if self.n_traces == 0 {
            return Err(CpaError::Empty);
        }
        let t_dim = self.sample_duration;
        let h_dim = self.n_guesses;
        let mut out: Vec<Vec<i64>> = Vec::new();
        for h in 0..h_dim
            invariant
                self.wf(),
                self.sample_duration == t_dim && self.n_guesses == h_dim,
                out@.len() == h,
                forall|g: int| 0 <= g < h ==> (#[trigger] out@[g])@.len() == t_dim,
                forall|g: int, t: int|
                    0 <= g < h && 0 <= t < t_dim ==> #[trigger] out@[g]@[t] == spec_rho(
                        self.trace_count() as int,
                        self.samples()[t],
                        self.hypotheses()[g],
                    ),
                forall|g: int, t: int|
                    0 <= g < h && 0 <= t < t_dim ==> -RHO_SCALE <= #[trigger] out@[g]@[t]
                        <= RHO_SCALE,
        {
            let mut row: Vec<i64> = Vec::new();
            for t in 0..t_dim
                invariant
                    self.wf(),
                    self.sample_duration == t_dim && self.n_guesses == h_dim,
                    h < h_dim,
                    row@.len() == t,
                    forall|u: int|
                        0 <= u < t ==> #[trigger] row@[u] == spec_rho(
                            self.trace_count() as int,
                            self.samples()[u],
                            self.hypotheses()[h as int],
                        ),
                    forall|u: int| 0 <= u < t ==> -RHO_SCALE <= #[trigger] row@[u] <= RHO_SCALE,
            {
                let v = self.rho_cell(h, t);
                row.push(v);
            }
            out.push(row);
        }
        Ok(out)
    }
}

/// A floor square root exists for every nonnegative value, so `spec_isqrt`
/// denotes it.
pub proof fn lemma_isqrt_exists(n: int)
    requires
        n >= 0,
    ensures
        is_floor_sqrt(n, spec_isqrt(n)),
    decreases n,
{
    if n == 0 {
        assert(is_floor_sqrt(0, 0));
    } else {
        lemma_isqrt_exists(n - 1);
        let r = spec_isqrt(n - 1);
        if (r + 1) * (r + 1) <= n {
            assert(n < (r + 2) * (r + 2)) by (nonlinear_arith)
                requires
                    n - 1 < (r + 1) * (r + 1) && 0 <= r,
            ;
            assert(is_floor_sqrt(n, r + 1));
        } else {
            assert(is_floor_sqrt(n, r));
        }
    }
}

/// The pointwise product of a series with itself sums to its sum of squares.
pub proof fn lemma_sum_prod_self(s: Seq<int>)
    ensures
        spec_sum_prod(s, s) == spec_sum_sq(s),
    decreases s.len(),
{
    if s.len() > 0 {
        lemma_sum_prod_self(s.drop_last());
    }
}

/// The pointwise negation of a series.
pub open spec fn neg_seq(s: Seq<int>) -> Seq<int> {
    Seq::new(s.len(), |i: int| -s[i])
}

/// Negating a series negates its sum, keeps its sum of squares, and negates
/// its cross sum with any other series.
pub proof fn lemma_neg_seq_sums(s: Seq<int>, o: Seq<int>)
    requires
        s.len() == o.len(),
    ensures
        spec_sum(neg_seq(s)) == -spec_sum(s),
        spec_sum_sq(neg_seq(s)) == spec_sum_sq(s),
        spec_sum_prod(neg_seq(s), o) == -spec_sum_prod(s, o),
    decreases s.len(),
{
    if s.len() > 0 {
        assert(neg_seq(s).drop_last() =~= neg_seq(s.drop_last()));
        lemma_neg_seq_sums(s.drop_last(), o.drop_last());
        assert((-s.last()) * (-s.last()) == s.last() * s.last()) by (nonlinear_arith);
        assert((-s.last()) * o.last() == -(s.last() * o.last())) by (nonlinear_arith);
    }
}

/// A constant series sums to `len * c`, with sum of squares `len * c * c`.
pub proof fn lemma_const_sums(s: Seq<int>, c: int)
    requires
        forall|i: int| 0 <= i < s.len() ==> #[trigger] s[i] == c,
    ensures
        spec_sum(s) == s.len() * c,
        spec_sum_sq(s) == s.len() * (c * c),
    decreases s.len(),
{
    if s.len() == 0 {
    } else {
        lemma_const_sums(s.drop_last(), c);
        assert(s.len() * c == (s.len() - 1) * c + c) by (nonlinear_arith);
        assert(s.len() * (c * c) == (s.len() - 1) * (c * c) + c * c) by (nonlinear_arith);
    }
}

/// When a hypothesis series repeats its own sample series, and the variance
/// term is not degenerate, the correlation is exactly one.
pub proof fn lemma_self_correlation(n: int, s: Seq<int>)
    requires
        spec_den(n, s) > 0,
    ensures
        spec_rho(n, s, s) == RHO_SCALE,
{
    lemma_sum_prod_self(s);
    let den = spec_den(n, s);
    assert(spec_num(n, s, s) == den);
    lemma_isqrt_exists(den);
    let r = spec_isqrt(den);
    assert(r >= 1 && 1 <= r * r <= den) by (nonlinear_arith)
        requires
            is_floor_sqrt(den, r) && den > 0,
    ;
    assert(den * RHO_SCALE >= (r * r) * RHO_SCALE) by (nonlinear_arith)
        requires
            den >= r * r && RHO_SCALE > 0,
    ;
    vstd::arithmetic::div_mod::lemma_div_is_ordered(
        (r * r) * (RHO_SCALE as int),
        den * RHO_SCALE,
        r * r,
    );
    vstd::arithmetic::div_mod::lemma_div_multiples_vanish(RHO_SCALE as int, r * r);
    assert((r * r) * (RHO_SCALE as int) == (RHO_SCALE as int) * (r * r)) by (nonlinear_arith);
    assert(den * RHO_SCALE / (r * r) >= RHO_SCALE);
}

/// When a hypothesis series is the negation of its sample series, and the
/// variance term is not degenerate, the correlation is exactly minus one.
pub proof fn lemma_anti_correlation(n: int, s: Seq<int>)
    requires
        spec_den(n, s) > 0,
    ensures
        spec_rho(n, s, neg_seq(s)) == -RHO_SCALE,
{
    lemma_sum_prod_self(s);
    lemma_neg_seq_sums(s, s);
    let den = spec_den(n, s);
    let sp = spec_sum_prod(s, s);
    let ss = spec_sum(s);
    assert(n * (-sp) == -(n * sp) && (-ss) * (-ss) == ss * ss && ss * (-ss) == -(ss * ss))
        by (nonlinear_arith);
    assert(spec_den(n, neg_seq(s)) == den);
    assert(spec_num(n, s, neg_seq(s)) == -den);
    lemma_isqrt_exists(den);
    let r = spec_isqrt(den);
    assert(r >= 1 && 1 <= r * r <= den) by (nonlinear_arith)
        requires
            is_floor_sqrt(den, r) && den > 0,
    ;
    assert(den * RHO_SCALE >= (r * r) * RHO_SCALE) by (nonlinear_arith)
        requires
            den >= r * r && RHO_SCALE > 0,
    ;
    vstd::arithmetic::div_mod::lemma_div_is_ordered(
        (r * r) * (RHO_SCALE as int),
        den * RHO_SCALE,
        r * r,
    );
    vstd::arithmetic::div_mod::lemma_div_multiples_vanish(RHO_SCALE as int, r * r);
    assert((r * r) * (RHO_SCALE as int) == (RHO_SCALE as int) * (r * r)) by (nonlinear_arith);
    assert(den * RHO_SCALE / (r * r) >= RHO_SCALE);
}

/// A constant hypothesis series has a degenerate variance term, so its
/// correlation with any sample series is exactly zero.
pub proof fn lemma_constant_hypothesis(n: int, xs: Seq<int>, ys: Seq<int>, c: int)
    requires
        n == ys.len(),
        forall|i: int| 0 <= i < ys.len() ==> #[trigger] ys[i] == c,
    ensures
        spec_rho(n, xs, ys) == 0,
{
    lemma_const_sums(ys, c);
    assert(n * (n * (c * c)) - (n * c) * (n * c) == 0) by (nonlinear_arith);
}

/// Partition independence: appending two batches in turn to a recorded
/// series leaves exactly the series that appending their concatenation
/// leaves, so the correlation of the stream does not depend on how it was
/// split into batches.
pub proof fn lemma_partition_independence(
    n: int,
    xbase: Seq<int>,
    x1: Seq<int>,
    x2: Seq<int>,
    ybase: Seq<int>,
    y1: Seq<int>,
    y2: Seq<int>,
)
    ensures
        (xbase + x1) + x2 == xbase + (x1 + x2),
        (ybase + y1) + y2 == ybase + (y1 + y2),
        spec_rho(n, (xbase + x1) + x2, (ybase + y1) + y2) == spec_rho(
            n,
            xbase + (x1 + x2),
            ybase + (y1 + y2),
        ),
{
    assert((xbase + x1) + x2 =~= xbase + (x1 + x2));
    assert((ybase + y1) + y2 =~= ybase + (y1 + y2));
}

/// A vector of `n` zeroed accumulators.
fn zeros(n: usize) -> (v: Vec<i128>)
    ensures
        v@.len() == n,
        forall|i: int| 0 <= i < n ==> v@[i] == 0,
{
    let mut v: Vec<i128> = Vec::new();
    for i in 0..n
        invariant
            v@.len() == i,
            forall|j: int| 0 <= j < i ==> v@[j] == 0,
    {
        v.push(0);
    }
    v
}

} // verus!
