use cpa_lib::aes::sbox;
use cpa_lib::correlation_engine::{CorrelationEngine, CpaError, RHO_SCALE};
use cpa_lib::solver::{AssessmentSolver, CpaSolver};

fn lcg(state: &mut u64) -> u64 {
    *state = state.wrapping_mul(6364136223846793005).wrapping_add(1442695040888963407);
    *state >> 16
}

fn gaussian(state: &mut u64) -> f64 {
    let u1 = ((lcg(state) % 1_000_000) as f64 + 1.0) / 1_000_001.0;
    let u2 = (lcg(state) % 1_000_000) as f64 / 1_000_000.0;
    (-2.0 * u1.ln()).sqrt() * (2.0 * std::f64::consts::PI * u2).cos()
}

#[test]
fn result_has_engine_shape() {
    let mut engine = CorrelationEngine::new(2, 3);
    let samples = vec![vec![1, 2, 3, 4], vec![5, 6, 7, 8]];
    let hypotheses = vec![vec![1, 1, 2, 2], vec![0, 1, 0, 1], vec![4, 3, 2, 1]];
    engine.update(&samples, &hypotheses).unwrap();
    let result = engine.get_result().unwrap();
    assert_eq!(result.len(), 3);
    for row in &result {
        assert_eq!(row.len(), 2);
    }
}

#[test]
fn result_values_stay_in_unit_range() {
    let mut engine = CorrelationEngine::new(3, 2);
    let samples = vec![vec![10, -3, 7], vec![0, 0, 0], vec![5, 5, -9]];
    let hypotheses = vec![vec![1, 8, 2], vec![3, 3, 3]];
    engine.update(&samples, &hypotheses).unwrap();
    let result = engine.get_result().unwrap();
    for row in &result {
        for &v in row {
            assert!(-RHO_SCALE <= v && v <= RHO_SCALE);
        }
    }
    // The constant hypothesis row is degenerate: exactly zero everywhere.
    for &v in &result[1] {
        assert_eq!(v, 0);
    }
}

#[test]
fn self_correlation_is_exactly_one() {
    let mut engine = CorrelationEngine::new(1, 1);
    // Feed x = y = 1..=12 split over three uneven batches.
    let batches: [&[i64]; 3] = [&[1, 2, 3], &[4], &[5, 6, 7, 8, 9, 10, 11, 12]];
    for b in batches {
        let row: Vec<i64> = b.to_vec();
        engine.update(&vec![row.clone()], &vec![row]).unwrap();
    }
    let result = engine.get_result().unwrap();
    assert_eq!(result[0][0], RHO_SCALE);
}

#[test]
fn anti_correlation_is_exactly_minus_one() {
    let mut engine = CorrelationEngine::new(1, 1);
    let xs: Vec<i64> = (1..=12).collect();
    let ys: Vec<i64> = xs.iter().map(|v| -v).collect();
    engine.update(&vec![xs], &vec![ys]).unwrap();
    let result = engine.get_result().unwrap();
    assert_eq!(result[0][0], -RHO_SCALE);
}

#[test]
fn constant_hypothesis_gives_exact_zero() {
    let mut engine = CorrelationEngine::new(1, 1);
    let mut state = 9u64;
    let xs: Vec<i64> = (0..50).map(|_| (lcg(&mut state) % 1000) as i64).collect();
    let ys: Vec<i64> = vec![7; 50];
    engine.update(&vec![xs], &vec![ys]).unwrap();
    let result = engine.get_result().unwrap();
    assert_eq!(result[0][0], 0);
}

#[test]
fn streaming_identity_three_batches() {
    let mut engine = CorrelationEngine::new(1, 1);
    engine.update(&vec![vec![1, 2]], &vec![vec![1, 2]]).unwrap();
    engine.update(&vec![vec![3, 4]], &vec![vec![3, 4]]).unwrap();
    engine.update(&vec![vec![5, 6]], &vec![vec![5, 6]]).unwrap();
    let result = engine.get_result().unwrap();
    assert_eq!(result[0][0], RHO_SCALE);
}

#[test]
fn batched_equals_one_shot() {
    // X[s][t] = sin(s * t), Y[h][s] = cos((h + 1) * s), quantized.
    let s_total = 1000usize;
    let t_dim = 50usize;
    let h_dim = 4usize;
    let scale = 10_000_000.0;
    let x = |s: usize, t: usize| ((s * t) as f64).sin();
    let y = |h: usize, s: usize| (((h + 1) * s) as f64).cos();

    let mut one_shot = CorrelationEngine::new(t_dim, h_dim);
    let samples: Vec<Vec<i64>> = (0..t_dim)
        .map(|t| (0..s_total).map(|s| (x(s, t) * scale) as i64).collect())
        .collect();
    let hypotheses: Vec<Vec<i64>> = (0..h_dim)
        .map(|h| (0..s_total).map(|s| (y(h, s) * scale) as i64).collect())
        .collect();
    one_shot.update(&samples, &hypotheses).unwrap();
    let expected = one_shot.get_result().unwrap();

    let mut batched = CorrelationEngine::new(t_dim, h_dim);
    let mut start = 0usize;
    let mut k = 0usize;
    while start < s_total {
        // 17 uneven chunks.
        let len = (59 + 7 * (k % 3)).min(s_total - start);
        let sb: Vec<Vec<i64>> = (0..t_dim)
            .map(|t| (start..start + len).map(|s| (x(s, t) * scale) as i64).collect())
            .collect();
        let hb: Vec<Vec<i64>> = (0..h_dim)
            .map(|h| (start..start + len).map(|s| (y(h, s) * scale) as i64).collect())
            .collect();
        batched.update(&sb, &hb).unwrap();
        start += len;
        k += 1;
    }
    let got = batched.get_result().unwrap();
    // Integer accumulation is exact, so the partition changes nothing at all.
    assert_eq!(expected, got);
}

#[test]
fn empty_engine_reports_empty() {
    let engine = CorrelationEngine::new(4, 4);
    assert_eq!(engine.get_result().unwrap_err(), CpaError::Empty);
}

#[test]
fn shape_mismatch_is_rejected() {
    let mut engine = CorrelationEngine::new(2, 2);
    // Wrong number of sample rows.
    let r = engine.update(&vec![vec![1, 2]], &vec![vec![1, 2], vec![3, 4]]);
    assert_eq!(r.unwrap_err(), CpaError::Shape);
    // Ragged hypothesis rows.
    let r = engine.update(
        &vec![vec![1, 2], vec![3, 4]],
        &vec![vec![1, 2], vec![3]],
    );
    assert_eq!(r.unwrap_err(), CpaError::Shape);
}

#[test]
fn solver_configuration_errors() {
    let identity: Vec<i64> = (0..33).collect();
    assert!(CpaSolver::new("nonsense", 0, identity.clone(), None).is_err());
    assert!(CpaSolver::new("round1", 0, identity.clone(), None).is_err());
    assert!(CpaSolver::new("round0", 16, identity.clone(), None).is_err());
    assert!(CpaSolver::new("round0", 0, vec![1, 2, 3], None).is_err());
    assert!(CpaSolver::new("round0", 0, identity, None).is_ok());
    assert!(AssessmentSolver::new(vec![]).is_err());
    assert!(AssessmentSolver::new(vec![[0u8; 16]]).is_ok());
}

#[test]
fn solver_shape_and_empty_errors() {
    let identity: Vec<i64> = (0..33).collect();
    let mut solver = CpaSolver::new("round0", 0, identity, None).unwrap();
    assert_eq!(solver.get_result().unwrap_err(), CpaError::Empty);
    let payloads = vec![[0u8; 16], [1u8; 16]];
    // Payload count and trace count disagree.
    let r = solver.update(&payloads, &vec![vec![1, 2, 3]]);
    assert_eq!(r.unwrap_err(), CpaError::Shape);
    solver.update(&payloads, &vec![vec![1, 2], vec![3, 4]]).unwrap();
    // A later batch may not change the sample duration.
    let r = solver.update(&payloads, &vec![vec![1], vec![2]]);
    assert_eq!(r.unwrap_err(), CpaError::Shape);
    let result = solver.get_result().unwrap();
    assert_eq!(result.len(), 256);
    assert_eq!(result[0].len(), 2);
}

#[test]
fn attack_recovers_planted_key_byte() {
    let mut rng = 0xdeadbeefu64;
    let k_index = (lcg(&mut rng) % 16) as usize;
    let true_key = lcg(&mut rng) as u8;
    let s_total = 5000usize;
    let t_dim = 4usize;
    let t0 = 2usize;
    let scale = 1_000_000.0;

    let mut payloads: Vec<[u8; 16]> = Vec::with_capacity(s_total);
    let mut samples: Vec<Vec<i64>> = Vec::with_capacity(s_total);
    for _ in 0..s_total {
        let mut p = [0u8; 16];
        for v in p.iter_mut() {
            *v = lcg(&mut rng) as u8;
        }
        let leak = sbox(p[k_index] ^ true_key).count_ones() as f64;
        let mut row = Vec::with_capacity(t_dim);
        for t in 0..t_dim {
            let noise = gaussian(&mut rng);
            let value = if t == t0 { leak + noise } else { noise };
            row.push((value * scale) as i64);
        }
        payloads.push(p);
        samples.push(row);
    }

    let identity: Vec<i64> = (0..33).collect();
    let mut solver = CpaSolver::new("round0", k_index, identity, None).unwrap();
    solver.update(&payloads, &samples).unwrap();
    let result = solver.get_result().unwrap();
    let mut best = 0usize;
    for h in 0..256 {
        if result[h][t0] > result[best][t0] {
            best = h;
        }
    }
    assert_eq!(best as u8, true_key);
}

#[test]
fn assessment_solver_end_to_end() {
    let keys = vec![[0u8; 16], [0x0fu8; 16]];
    let mut solver = AssessmentSolver::new(keys).unwrap();
    assert_eq!(solver.get_result().unwrap_err(), CpaError::Empty);
    let payloads = vec![[1u8; 16], [2u8; 16], [3u8; 16]];
    let samples = vec![vec![10, 20], vec![30, 40], vec![50, 60]];
    solver.update(&payloads, &samples).unwrap();
    let result = solver.get_result().unwrap();
    assert_eq!(result.len(), 80);
    for row in &result {
        assert_eq!(row.len(), 2);
        for &v in row {
            assert!(-RHO_SCALE <= v && v <= RHO_SCALE);
        }
    }
}
