//! Attack and assessment drivers.
//!
//! [`CpaSolver`] runs a byte-guess attack: it turns each payload batch into
//! a 256-row hypothesis matrix under a chosen leakage model, transposes the
//! user's `(S, T)` sample matrix into the engine's time-major layout, and
//! streams both into a lazily created correlation engine.
//! [`AssessmentSolver`] does the same for a list of candidate keys, using
//! every AES intermediate state as a hypothesis.
//!
//! Nonlinear leakage (a power `beta` of the Hamming weight) is expressed by
//! a caller-supplied weight table with one fixed-point entry per possible
//! Hamming weight `0..=32`, so `weights[w]` plays the role of `w ^ beta`.
use crate::aes;
use crate::correlation_engine::CorrelationEngine;
use crate::correlation_engine::CpaError;
use crate::correlation_engine::MAX_CELLS;
use crate::correlation_engine::MAX_DIM;
use crate::correlation_engine::MAX_TRACES;
use crate::correlation_engine::RHO_SCALE;
use crate::correlation_engine::VALUE_BOUND;
use crate::correlation_engine::matrix_view;
use crate::correlation_engine::row_int;
use crate::correlation_engine::spec_batch_ok;
use crate::correlation_engine::spec_batch_width;
use crate::correlation_engine::spec_rho;
use crate::correlation_engine::spec_values_bounded;
use crate::power_consumption_models::ConsumptionModel;
use crate::power_consumption_models::ConsumptionModelRound0;
use crate::power_consumption_models::ConsumptionModelRound0DecTable;
use crate::power_consumption_models::ConsumptionModelRound1;
use crate::power_consumption_models::ConsumptionModelRound1DecTable;
use crate::power_consumption_models::ConsumptionModelTrait;
use crate::power_consumption_models::spec_state_hamming_weight;
use crate::power_consumption_models::state_hamming_weight;
use vstd::prelude::*;
use vstd::string::StringSliceAdditionalSpecFns;

verus! {

/// The number of entries a weight table must have: one per possible
/// Hamming weight of an intermediate value, `0..=32`.
pub const WEIGHT_TABLE_LEN: usize = 33;

/// A weight table is complete and fixed-point bounded.
pub open spec fn spec_weights_ok(w: Seq<i64>) -> bool {
    &&& w.len() == WEIGHT_TABLE_LEN
    &&& forall|i: int| 0 <= i < w.len() ==> -VALUE_BOUND <= #[trigger] w[i] <= VALUE_BOUND
}

/// Byte-wise equality of two slices.
fn bytes_eq(a: &[u8], b: &[u8]) -> (r: bool)
    ensures
        r == (a@ == b@),
{
    if a.len() != b.len() {
        return false;
    }
    for i in 0..a.len()
        invariant
            a@.len() == b@.len(),
            i <= a@.len(),
            forall|j: int| 0 <= j < i ==> a@[j] == b@[j],
    {
        if a[i] != b[i] {
            return false;
        }
    }
    assert(a@ =~= b@);
    true
}

/// Whether `name` spells the same bytes as `target`.
fn name_is(name: &str, target: &str) -> (r: bool)
    ensures
        r == (name.spec_bytes() == target.spec_bytes()),
{
    bytes_eq(name.as_bytes(), target.as_bytes())
}

/// Selects a leakage model by name.  The two second-round models need key
/// material; a missing key, like an unknown name, is a configuration error.
pub fn get_power_consumption_model(name: &str, key: Option<&[u8; 16]>) -> (r: Result<
    ConsumptionModel,
    CpaError,
>)
    ensures
        r is Ok <==> spec_model_args_ok(name.spec_bytes(), key is Some),
        r is Err ==> r == Err::<ConsumptionModel, CpaError>(CpaError::Config),
        r is Ok ==> spec_model_matches(name.spec_bytes(), key, r->Ok_0),
{
    if name_is(name, "round0") {
        Ok(ConsumptionModel::Round0(ConsumptionModelRound0::new()))
    } else if name_is(name, "round0dectable") {
        Ok(ConsumptionModel::Round0DecTable(ConsumptionModelRound0DecTable::new()))
    } else if name_is(name, "round1") {
        match key {
            Some(k0) => Ok(ConsumptionModel::Round1(ConsumptionModelRound1::new(k0))),
            None => Err(CpaError::Config),
        }
    } else if name_is(name, "round1dectable") {
        match key {
            Some(tk0) => Ok(ConsumptionModel::Round1DecTable(ConsumptionModelRound1DecTable::new(tk0))),
            None => Err(CpaError::Config),
        }
    } else {
        Err(CpaError::Config)
    }
}

/// The four understood model names, and which of them need key material.
pub open spec fn spec_model_args_ok(nb: Seq<u8>, has_key: bool) -> bool {
    if nb == "round0".spec_bytes() || nb == "round0dectable".spec_bytes() {
        true
    } else if nb == "round1".spec_bytes() || nb == "round1dectable".spec_bytes() {
        has_key
    } else {
        false
    }
}

/// The model a name and optional key select.
pub open spec fn spec_model_matches(
    nb: Seq<u8>,
    key: Option<&[u8; 16]>,
    m: ConsumptionModel,
) -> bool {
    if nb == "round0".spec_bytes() {
        m is Round0
    } else if nb == "round0dectable".spec_bytes() {
        m is Round0DecTable
    } else if nb == "round1".spec_bytes() {
        m matches ConsumptionModel::Round1(inner) && key is Some && inner.k0@ == key->0@
    } else if nb == "round1dectable".spec_bytes() {
        m matches ConsumptionModel::Round1DecTable(inner) && key is Some && inner.tk0@ == key->0@
    } else {
        true
    }
}

/// The raw column `t` of a row-major matrix.
pub open spec fn spec_col(m: Seq<Seq<i64>>, t: int) -> Seq<i64> {
    Seq::new(m.len(), |s: int| m[s][t])
}

/// A user batch: one payload per trace, samples row-major `(S, T)`, all
/// sample rows of one nonzero length that fits the engine, and matching any
/// duration already fixed by an earlier batch.
pub open spec fn spec_user_batch_ok(
    pcount: nat,
    samples: Seq<Seq<i64>>,
    hyp_count: nat,
    existing: Option<nat>,
) -> bool {
    &&& samples.len() == pcount
    &&& pcount >= 1
    &&& 1 <= samples[0].len() <= MAX_DIM
    &&& hyp_count * samples[0].len() <= MAX_CELLS
    &&& forall|s: int| 0 <= s < samples.len() ==> (#[trigger] samples[s]).len() == samples[0].len()
    &&& match existing {
        Some(t) => samples[0].len() == t,
        None => true,
    }
}

/// The hypothesis row a leakage model and weight table produce for guess
/// `h` over a payload batch.
pub open spec fn spec_guess_row(
    model: ConsumptionModel,
    weights: Seq<i64>,
    payloads: Seq<[u8; 16]>,
    k_index: int,
    h: int,
) -> Seq<int> {
    Seq::new(
        payloads.len(),
        |s: int| weights[model.spec_estimate(payloads[s]@, h as u8, k_index) as int] as int,
    )
}

/// Transposes a row-major `(S, T)` matrix into `T` columns of length `S`.
fn transpose(samples: &Vec<Vec<i64>>, width: usize) -> (cols: Vec<Vec<i64>>)
    requires
        samples@.len() >= 1,
        forall|s: int| 0 <= s < samples@.len() ==> (#[trigger] samples@[s])@.len() == width,
    ensures
        cols@.len() == width,
        forall|t: int| 0 <= t < width ==> (#[trigger] cols@[t])@ == spec_col(
            matrix_view(samples@),
            t,
        ),
{
    let s_count = samples.len();
    let mut cols: Vec<Vec<i64>> = Vec::new();
    for t in 0..width
        invariant
            s_count == samples@.len() >= 1,
            forall|s: int| 0 <= s < samples@.len() ==> (#[trigger] samples@[s])@.len() == width,
            cols@.len() == t,
            forall|j: int| 0 <= j < t ==> (#[trigger] cols@[j])@ == spec_col(
                matrix_view(samples@),
                j,
            ),
    {
        let mut col: Vec<i64> = Vec::new();
        for s in 0..s_count
            invariant
                s_count == samples@.len(),
                t < width,
                forall|u: int| 0 <= u < samples@.len() ==> (#[trigger] samples@[u])@.len() == width,
                col@.len() == s,
                forall|u: int| 0 <= u < s ==> #[trigger] col@[u] == samples@[u]@[t as int],
        {
            col.push(samples[s][t]);
        }
        assert(col@ =~= spec_col(matrix_view(samples@), t as int));
        cols.push(col);
    }
    cols
}

/// The byte-guess attack driver: fixes a leakage model, a key byte index
/// and a weight table at construction, then lazily builds a 256-hypothesis
/// correlation engine sized by the first batch.
pub struct CpaSolver {
    correlation_engine: Option<CorrelationEngine>,
    power_consumption_model: ConsumptionModel,
    k_index: usize,
    weights: Vec<i64>,
}

impl CpaSolver {
    /// The configured leakage model.
    pub closed spec fn model(&self) -> ConsumptionModel {
        self.power_consumption_model
    }

    /// The attacked key byte index.
    pub closed spec fn key_index(&self) -> int {
        self.k_index as int
    }

    /// The configured weight table.
    pub closed spec fn weight_table(&self) -> Seq<i64> {
        self.weights@
    }

    /// Whether at least one batch has been folded in.
    pub closed spec fn has_results(&self) -> bool {
        self.correlation_engine is Some
    }

    /// The underlying engine once one exists.
    pub closed spec fn engine_of(&self) -> CorrelationEngine {
        self.correlation_engine->Some_0
    }

    /// Traces observed so far.
    pub open spec fn observed(&self) -> nat {
        if self.has_results() {
            self.engine_of().trace_count()
        } else {
            0
        }
    }

    /// The solver invariant.
    pub closed spec fn wf(&self) -> bool {
        &&& self.k_index < 16
        &&& spec_weights_ok(self.weights@)
        &&& match self.correlation_engine {
            Some(e) => e.wf() && e.hypothesis_count() == 256 && e.trace_count() >= 1,
            None => true,
        }
    }

    /// Builds an attack driver from a model name, the attacked key byte
    /// index, a weight table and optional key material for the
    /// second-round models.
    pub fn new(name: &str, k_index: usize, weights: Vec<i64>, key: Option<&[u8; 16]>) -> (r:
        Result<CpaSolver, CpaError>)
        ensures
            r is Ok <==> (spec_model_args_ok(name.spec_bytes(), key is Some) && k_index < 16
                && spec_weights_ok(weights@)),
            r is Err ==> r == Err::<CpaSolver, CpaError>(CpaError::Config),
            r is Ok ==> {
                let s = r->Ok_0;
                &&& s.wf()
                &&& !s.has_results()
                &&& s.key_index() == k_index
                &&& s.weight_table() == weights@
                &&& spec_model_matches(name.spec_bytes(), key, s.model())
            },
    {
        let model = match get_power_consumption_model(name, key) {
            Ok(m) => m,
            Err(e) => {
                return Err(e);
            },
        };
        if k_index >= 16 {
            return Err(CpaError::Config);
        }
        if weights.len() != WEIGHT_TABLE_LEN {
            return Err(CpaError::Config);
        }
        for i in 0..weights.len()
            invariant
                weights@.len() == WEIGHT_TABLE_LEN,
                forall|j: int| 0 <= j < i ==> -VALUE_BOUND <= #[trigger] weights@[j] <= VALUE_BOUND,
        {
            if weights[i] > VALUE_BOUND || weights[i] < -VALUE_BOUND {
                return Err(CpaError::Config);
            }
        }
        Ok(
            CpaSolver {
                correlation_engine: None,
                power_consumption_model: model,
                k_index,
                weights,
            },
        )
    }

    /// Folds one batch of payloads and their `(S, T)` sample matrix into
    /// the stream: hypothesis `h` takes the weight of the model's estimate
    /// for guess byte `h` on each payload, and the samples are transposed
    /// into time-major columns.
    pub fn update(&mut self, payloads: &Vec<[u8; 16]>, samples: &Vec<Vec<i64>>) -> (r: Result<
        (),
        CpaError,
    >)
        requires
            old(self).wf(),
            spec_values_bounded(matrix_view(samples@)),
            old(self).observed() + payloads@.len() <= MAX_TRACES,
        ensures
            r is Ok <==> spec_user_batch_ok(
                payloads@.len(),
                matrix_view(samples@),
                256,
                if old(self).has_results() {
                    Some(old(self).engine_of().duration())
                } else {
                    None
                },
            ),
            r is Err ==> *final(self) == *old(self) && r == Err::<(), CpaError>(CpaError::Shape),
            r is Ok ==> {
                let e = final(self).engine_of();
                let mv = matrix_view(samples@);
                &&& final(self).wf()
                &&& final(self).has_results()
                &&& final(self).model() == old(self).model()
                &&& final(self).key_index() == old(self).key_index()
                &&& final(self).weight_table() == old(self).weight_table()
                &&& e.duration() == mv[0].len()
                &&& e.hypothesis_count() == 256
                &&& e.trace_count() == old(self).observed() + payloads@.len()
                &&& forall|t: int|
                    0 <= t < e.duration() ==> e.samples()[t] == (if old(self).has_results() {
                        old(self).engine_of().samples()[t]
                    } else {
                        Seq::<int>::empty()
                    }) + row_int(#[trigger] spec_col(mv, t))
                &&& forall|h: int|
                    0 <= h < 256 ==> #[trigger] e.hypotheses()[h] == (if old(self).has_results() {
                        old(self).engine_of().hypotheses()[h]
                    } else {
                        Seq::<int>::empty()
                    }) + spec_guess_row(
                        old(self).model(),
                        old(self).weight_table(),
                        payloads@,
                        old(self).key_index(),
                        h,
                    )
            },
    {
        let s_count = payloads.len();
        if samples.len() != s_count || s_count == 0 {
            return Err(CpaError::Shape);
        }
        let width = samples[0].len();
        if width == 0 || width > MAX_DIM {
            return Err(CpaError::Shape);
        }
        for s in 0..s_count
            invariant
                s_count == samples@.len(),
                width == matrix_view(samples@)[0].len(),
                forall|u: int| 0 <= u < s ==> (#[trigger] matrix_view(samples@)[u]).len() == width,
        {
            if samples[s].len() != width {
                proof {
                    assert(matrix_view(samples@)[s as int].len() != matrix_view(
                        samples@,
                    )[0].len());
                }
                return Err(CpaError::Shape);
            }
        }
        if let Some(e) = &self.correlation_engine {
            if e.duration_runtime() != width {
                return Err(CpaError::Shape);
            }
        }
        proof {
            assert(256 * width <= MAX_CELLS);
            assert forall|u: int| 0 <= u < samples@.len() implies (#[trigger] samples@[u])@.len()
                == width by {
                assert(matrix_view(samples@)[u].len() == width);
            }
        }

        let cols = transpose(samples, width);
        let mut guesses: Vec<Vec<i64>> = Vec::new();
        for g in 0..256usize
            invariant
                self == old(self),
                self.k_index < 16,
                spec_weights_ok(self.weights@),
                s_count == payloads@.len(),
                guesses@.len() == g,
                forall|h: int| 0 <= h < g ==> (#[trigger] guesses@[h])@.len() == s_count,
                forall|h: int|
                    0 <= h < g ==> row_int((#[trigger] guesses@[h])@) == spec_guess_row(
                        self.power_consumption_model,
                        self.weights@,
                        payloads@,
                        self.k_index as int,
                        h,
                    ),
                forall|h: int, u: int|
                    0 <= h < g && 0 <= u < s_count ==> -VALUE_BOUND <= #[trigger] guesses@[h]@[u]
                        <= VALUE_BOUND,
        {
            let mut row: Vec<i64> = Vec::new();
            for s in 0..s_count
                invariant
                    self == old(self),
                    self.k_index < 16,
                    spec_weights_ok(self.weights@),
                    s_count == payloads@.len(),
                    g < 256,
                    row@.len() == s,
                    forall|u: int|
                        0 <= u < s ==> #[trigger] row@[u] == self.weights@[
                            self.power_consumption_model.spec_estimate(
                                payloads@[u]@,
                                g as u8,
                                self.k_index as int,
                            ) as int],
                    forall|u: int| 0 <= u < s ==> -VALUE_BOUND <= #[trigger] row@[u] <= VALUE_BOUND,
            {
                let hw = self.power_consumption_model.estimate(
                    &payloads[s],
                    g as u8,
                    self.k_index,
                );
                row.push(self.weights[hw as usize]);
            }
            proof {
                assert(row_int(row@) =~= spec_guess_row(
                    self.power_consumption_model,
                    self.weights@,
                    payloads@,
                    self.k_index as int,
                    g as int,
                ));
            }
            guesses.push(row);
        }

        let mut engine = match self.correlation_engine.take() {
            Some(e) => e,
            None => CorrelationEngine::new(width, 256),
        };
        let ghost pre = engine;
        proof {
            assert(spec_values_bounded(matrix_view(cols@))) by {
                assert forall|i: int, j: int|
                    0 <= i < matrix_view(cols@).len() && 0 <= j < matrix_view(cols@)[i].len()
                    implies -VALUE_BOUND <= #[trigger] matrix_view(cols@)[i][j]
                    <= VALUE_BOUND by {
                    assert(matrix_view(cols@)[i][j] == matrix_view(samples@)[j][i]);
                }
            }
            assert(spec_values_bounded(matrix_view(guesses@))) by {
                assert forall|i: int, j: int|
                    0 <= i < matrix_view(guesses@).len() && 0 <= j < matrix_view(
                        guesses@,
                    )[i].len() implies -VALUE_BOUND <= #[trigger] matrix_view(guesses@)[i][j]
                    <= VALUE_BOUND by {
                    assert(matrix_view(guesses@)[i][j] == guesses@[i]@[j]);
                }
            }
            assert(spec_batch_width(matrix_view(cols@)) == s_count);
        }
        let res = engine.update(&cols, &guesses);
        proof {
            assert(spec_batch_ok(
                matrix_view(cols@),
                matrix_view(guesses@),
                pre.duration(),
                pre.hypothesis_count(),
            ));
        }
        match res {
            Ok(_) => {
                proof {
                    let mv = matrix_view(samples@);
                    assert(spec_col(mv, 0).len() == s_count);
                    assert(spec_batch_width(matrix_view(cols@)) == s_count);
                    assert forall|t: int| 0 <= t < width implies row_int(
                        matrix_view(cols@)[t],
                    ) == row_int(#[trigger] spec_col(mv, t)) by {
                        assert(matrix_view(cols@)[t] == cols@[t]@);
                    }
                    assert forall|h: int| 0 <= h < 256 implies #[trigger] engine.hypotheses()[h]
                        == (if old(self).has_results() {
                        old(self).engine_of().hypotheses()[h]
                    } else {
                        Seq::<int>::empty()
                    }) + spec_guess_row(
                        old(self).model(),
                        old(self).weight_table(),
                        payloads@,
                        old(self).key_index(),
                        h,
                    ) by {
                        assert(matrix_view(guesses@)[h] == guesses@[h]@);
                        assert(row_int(guesses@[h]@) == spec_guess_row(
                            old(self).model(),
                            old(self).weight_table(),
                            payloads@,
                            old(self).key_index(),
                            h,
                        ));
                        assert(engine.hypotheses()[h] == pre.hypotheses()[h] + row_int(
                            matrix_view(guesses@)[h],
                        ));
                    }
                }
                self.correlation_engine = Some(engine);
                Ok(())
            },
            Err(e) => {
                proof {
                    assert(false);
                }
                Err(CpaError::Shape)
            },
        }
    }

    /// Returns the current `256 x T` correlation matrix, each cell the
    /// exact fixed-point correlation of its guess and time index; fails
    /// with `Empty` before the first successful update.
    pub fn get_result(&self) -> (r: Result<Vec<Vec<i64>>, CpaError>)
        requires
            self.wf(),
        ensures
            r is Err <==> !self.has_results(),
            r is Err ==> r == Err::<Vec<Vec<i64>>, CpaError>(CpaError::Empty),
            r is Ok ==> {
                let m = r->Ok_0;
                let e = self.engine_of();
                &&& m@.len() == 256
                &&& forall|h: int| 0 <= h < m@.len() ==> (#[trigger] m@[h])@.len() == e.duration()
                &&& forall|h: int, t: int|
                    0 <= h < m@.len() && 0 <= t < m@[h]@.len() ==> #[trigger] m@[h]@[t] == spec_rho(
                        e.trace_count() as int,
                        e.samples()[t],
                        e.hypotheses()[h],
                    )
                &&& forall|h: int, t: int|
                    0 <= h < m@.len() && 0 <= t < m@[h]@.len() ==> -RHO_SCALE <= #[trigger] m@[h]@[t]
                        <= RHO_SCALE
            },
    {
        match &self.correlation_engine {
            None => Err(CpaError::Empty),
            Some(e) => {
                match e.get_result() {
                    Ok(m) => Ok(m),
                    Err(_) => {
                        proof {
                            assert(false);
                        }
                        Err(CpaError::Empty)
                    },
                }
            },
        }
    }
}

/// The hypothesis row `h` of the assessment driver: for each payload, the
/// total Hamming weight of the `h`-th AES intermediate state over the
/// candidate keys.
pub open spec fn spec_assess_row(keys: Seq<[u8; 16]>, payloads: Seq<[u8; 16]>, h: int) -> Seq<
    int,
> {
    Seq::new(
        payloads.len(),
        |s: int|
            spec_state_hamming_weight(
                aes::spec_all_states(payloads[s]@, aes::blocks_view(keys))[h],
            ),
    )
}

/// The assessment driver: evaluates a fixed list of candidate 16-byte keys
/// end-to-end, correlating every AES intermediate state (forty per key)
/// against the traces.
pub struct AssessmentSolver {
    correlation_engine: Option<CorrelationEngine>,
    keys: Vec<[u8; 16]>,
}

impl AssessmentSolver {
    /// The candidate keys under assessment.
    pub closed spec fn keys_of(&self) -> Seq<[u8; 16]> {
        self.keys@
    }

    /// Whether at least one batch has been folded in.
    pub closed spec fn has_results(&self) -> bool {
        self.correlation_engine is Some
    }

    /// The underlying engine once one exists.
    pub closed spec fn engine_of(&self) -> CorrelationEngine {
        self.correlation_engine->Some_0
    }

    /// Traces observed so far.
    pub open spec fn observed(&self) -> nat {
        if self.has_results() {
            self.engine_of().trace_count()
        } else {
            0
        }
    }

    /// The solver invariant.
    pub closed spec fn wf(&self) -> bool {
        &&& 1 <= self.keys@.len()
        &&& 40 * self.keys@.len() <= MAX_DIM
        &&& match self.correlation_engine {
            Some(e) => e.wf() && e.hypothesis_count() == 40 * self.keys@.len()
                && e.trace_count() >= 1,
            None => true,
        }
    }

    /// Builds an assessment driver for a nonempty list of candidate keys
    /// small enough for the engine's hypothesis limit.
    pub fn new(keys: Vec<[u8; 16]>) -> (r: Result<AssessmentSolver, CpaError>)
        ensures
            r is Ok <==> (1 <= keys@.len() && 40 * keys@.len() <= MAX_DIM),
            r is Err ==> r == Err::<AssessmentSolver, CpaError>(CpaError::Config),
            r is Ok ==> {
                let s = r->Ok_0;
                &&& s.wf()
                &&& !s.has_results()
                &&& s.keys_of() == keys@
            },
    {
        if keys.len() == 0 || keys.len() > MAX_DIM / 40 {
            return Err(CpaError::Config);
        }
        Ok(AssessmentSolver { correlation_engine: None, keys })
    }

    /// Folds one batch of payloads and their `(S, T)` sample matrix into
    /// the stream: hypothesis `h` takes the Hamming weight of the `h`-th
    /// intermediate state of each payload, and the samples are transposed
    /// into time-major columns.
    pub fn update(&mut self, payloads: &Vec<[u8; 16]>, samples: &Vec<Vec<i64>>) -> (r: Result<
        (),
        CpaError,
    >)
        requires
            old(self).wf(),
            spec_values_bounded(matrix_view(samples@)),
            old(self).observed() + payloads@.len() <= MAX_TRACES,
        ensures
            r is Ok <==> spec_user_batch_ok(
                payloads@.len(),
                matrix_view(samples@),
                40 * old(self).keys_of().len(),
                if old(self).has_results() {
                    Some(old(self).engine_of().duration())
                } else {
                    None
                },
            ),
            r is Err ==> *final(self) == *old(self) && r == Err::<(), CpaError>(CpaError::Shape),
            r is Ok ==> {
                let e = final(self).engine_of();
                let mv = matrix_view(samples@);
                &&& final(self).wf()
                &&& final(self).has_results()
                &&& final(self).keys_of() == old(self).keys_of()
                &&& e.duration() == mv[0].len()
                &&& e.hypothesis_count() == 40 * old(self).keys_of().len()
                &&& e.trace_count() == old(self).observed() + payloads@.len()
                &&& forall|t: int|
                    0 <= t < e.duration() ==> e.samples()[t] == (if old(self).has_results() {
                        old(self).engine_of().samples()[t]
                    } else {
                        Seq::<int>::empty()
                    }) + row_int(#[trigger] spec_col(mv, t))
                &&& forall|h: int|
                    0 <= h < e.hypothesis_count() ==> #[trigger] e.hypotheses()[h] == (if old(
                        self,
                    ).has_results() {
                        old(self).engine_of().hypotheses()[h]
                    } else {
                        Seq::<int>::empty()
                    }) + spec_assess_row(old(self).keys_of(), payloads@, h)
            },
    {
        let s_count = payloads.len();
        let h_dim = 40 * self.keys.len();
        if samples.len() != s_count || s_count == 0 {
            return Err(CpaError::Shape);
        }
        let width = samples[0].len();
        if width == 0 || width > MAX_DIM {
            return Err(CpaError::Shape);
        }
        proof {
            assert((h_dim as int) * (width as int) <= 0x1_0000_0000) by (nonlinear_arith)
                requires
                    0 <= h_dim <= 0x1_0000 && 0 <= width <= 0x1_0000,
            ;
        }
        if (h_dim as u64) * (width as u64) > (MAX_CELLS as u64) {
            proof {
                assert(!(40 * self.keys@.len() * matrix_view(samples@)[0].len() <= MAX_CELLS));
            }
            return Err(CpaError::Shape);
        }
        for s in 0..s_count
            invariant
                s_count == samples@.len(),
                width == matrix_view(samples@)[0].len(),
                forall|u: int| 0 <= u < s ==> (#[trigger] matrix_view(samples@)[u]).len() == width,
        {
            if samples[s].len() != width {
                proof {
                    assert(matrix_view(samples@)[s as int].len() != matrix_view(
                        samples@,
                    )[0].len());
                }
                return Err(CpaError::Shape);
            }
        }
        if let Some(e) = &self.correlation_engine {
            if e.duration_runtime() != width {
                return Err(CpaError::Shape);
            }
        }
        proof {
            assert forall|u: int| 0 <= u < samples@.len() implies (#[trigger] samples@[u])@.len()
                == width by {
                assert(matrix_view(samples@)[u].len() == width);
            }
        }

        let ghost kv = aes::blocks_view(self.keys@);
        let mut hw_rows: Vec<Vec<i64>> = Vec::new();
        for s in 0..s_count
            invariant
                self == old(self),
                s_count == payloads@.len(),
                h_dim == 40 * self.keys@.len(),
                kv == aes::blocks_view(self.keys@),
                hw_rows@.len() == s,
                forall|u: int| 0 <= u < s ==> (#[trigger] hw_rows@[u])@.len() == h_dim,
                forall|u: int, j: int|
                    0 <= u < s && 0 <= j < h_dim ==> #[trigger] hw_rows@[u]@[j]
                        == spec_state_hamming_weight(
                        aes::spec_all_states(payloads@[u]@, kv)[j],
                    ),
                forall|u: int, j: int|
                    0 <= u < s && 0 <= j < h_dim ==> 0 <= #[trigger] hw_rows@[u]@[j] <= 128,
        {
            let states = aes::compute_all_states(&payloads[s], &self.keys);
            let n_states = states.len();
            let mut row: Vec<i64> = Vec::new();
            for j in 0..n_states
                invariant
                    n_states == states@.len(),
                    aes::blocks_view(states@) == aes::spec_all_states(payloads@[s as int]@, kv),
                    row@.len() == j,
                    forall|u: int|
                        0 <= u < j ==> #[trigger] row@[u] == spec_state_hamming_weight(
                            aes::spec_all_states(payloads@[s as int]@, kv)[u],
                        ),
                    forall|u: int| 0 <= u < j ==> 0 <= #[trigger] row@[u] <= 128,
            {
                let w = state_hamming_weight(&states[j]);
                proof {
                    assert(aes::blocks_view(states@)[j as int] == states@[j as int]@);
                }
                row.push(w as i64);
            }
            hw_rows.push(row);
        }

        let guesses = transpose(&hw_rows, h_dim);
        let cols = transpose(samples, width);
        let mut engine = match self.correlation_engine.take() {
            Some(e) => e,
            None => CorrelationEngine::new(width, h_dim),
        };
        let ghost pre = engine;
        proof {
            assert(spec_values_bounded(matrix_view(cols@))) by {
                assert forall|i: int, j: int|
                    0 <= i < matrix_view(cols@).len() && 0 <= j < matrix_view(cols@)[i].len()
                    implies -VALUE_BOUND <= #[trigger] matrix_view(cols@)[i][j]
                    <= VALUE_BOUND by {
                    assert(matrix_view(cols@)[i][j] == matrix_view(samples@)[j][i]);
                }
            }
            assert(spec_values_bounded(matrix_view(guesses@))) by {
                assert forall|i: int, j: int|
                    0 <= i < matrix_view(guesses@).len() && 0 <= j < matrix_view(
                        guesses@,
                    )[i].len() implies -VALUE_BOUND <= #[trigger] matrix_view(guesses@)[i][j]
                    <= VALUE_BOUND by {
                    assert(matrix_view(guesses@)[i][j] == hw_rows@[j]@[i]);
                }
            }
            assert(spec_batch_width(matrix_view(cols@)) == s_count);
        }
        let res = engine.update(&cols, &guesses);
        proof {
            assert(spec_batch_ok(
                matrix_view(cols@),
                matrix_view(guesses@),
                pre.duration(),
                pre.hypothesis_count(),
            ));
        }
        match res {
            Ok(_) => {
                proof {
                    let mv = matrix_view(samples@);
                    assert(spec_col(mv, 0).len() == s_count);
                    assert forall|t: int| 0 <= t < width implies row_int(
                        matrix_view(cols@)[t],
                    ) == row_int(#[trigger] spec_col(mv, t)) by {
                        assert(matrix_view(cols@)[t] == cols@[t]@);
                    }
                    assert forall|h: int| 0 <= h < h_dim implies #[trigger] engine.hypotheses()[h]
                        == (if old(self).has_results() {
                        old(self).engine_of().hypotheses()[h]
                    } else {
                        Seq::<int>::empty()
                    }) + spec_assess_row(old(self).keys_of(), payloads@, h) by {
                        assert(matrix_view(guesses@)[h] == guesses@[h]@);
                        assert(guesses@[h]@ == spec_col(matrix_view(hw_rows@), h));
                        assert(row_int(spec_col(matrix_view(hw_rows@), h)) =~= spec_assess_row(
                            old(self).keys_of(),
                            payloads@,
                            h,
                        ));
                        assert(engine.hypotheses()[h] == pre.hypotheses()[h] + row_int(
                            matrix_view(guesses@)[h],
                        ));
                    }
                }
                self.correlation_engine = Some(engine);
                Ok(())
            },
            Err(_) => {
                proof {
                    assert(false);
                }
                Err(CpaError::Shape)
            },
        }
    }

    /// Returns the current correlation matrix, one row per intermediate
    /// state across the candidate keys; fails with `Empty` before the
    /// first successful update.
    pub fn get_result(&self) -> (r: Result<Vec<Vec<i64>>, CpaError>)
        requires
            self.wf(),
        ensures
            r is Err <==> !self.has_results(),
            r is Err ==> r == Err::<Vec<Vec<i64>>, CpaError>(CpaError::Empty),
            r is Ok ==> {
                let m = r->Ok_0;
                let e = self.engine_of();
                &&& m@.len() == 40 * self.keys_of().len()
                &&& forall|h: int| 0 <= h < m@.len() ==> (#[trigger] m@[h])@.len() == e.duration()
                &&& forall|h: int, t: int|
                    0 <= h < m@.len() && 0 <= t < m@[h]@.len() ==> #[trigger] m@[h]@[t] == spec_rho(
                        e.trace_count() as int,
                        e.samples()[t],
                        e.hypotheses()[h],
                    )
                &&& forall|h: int, t: int|
                    0 <= h < m@.len() && 0 <= t < m@[h]@.len() ==> -RHO_SCALE <= #[trigger] m@[h]@[t]
                        <= RHO_SCALE
            },
    {
        match &self.correlation_engine {
            None => Err(CpaError::Empty),
            Some(e) => {
                match e.get_result() {
                    Ok(m) => Ok(m),
                    Err(_) => {
                        proof {
                            assert(false);
                        }
                        Err(CpaError::Empty)
                    },
                }
            },
        }
    }
}

} // verus!
