use cpa_lib::aes::{
    compute_all_states, gal11, gal13, gal14, gal2, gal3, gal9, inv_sbox, sbox, AesState,
};
use cpa_lib::power_consumption_models::{
    state_hamming_weight, ConsumptionModel, ConsumptionModelRound0, ConsumptionModelRound0DecTable,
    ConsumptionModelTrait,
};
use cpa_lib::solver::get_power_consumption_model;

fn lcg(state: &mut u64) -> u64 {
    *state = state.wrapping_mul(6364136223846793005).wrapping_add(1442695040888963407);
    *state >> 16
}

#[test]
fn sbox_known_values() {
    assert_eq!(sbox(0x00), 0x63);
    assert_eq!(sbox(0x55), 0xfc);
    assert_eq!(inv_sbox(0x00), 0x52);
}

#[test]
fn sbox_involution_all_bytes() {
    for b in 0..=255u8 {
        assert_eq!(inv_sbox(sbox(b)), b);
        assert_eq!(sbox(inv_sbox(b)), b);
    }
}

#[test]
fn galois_gal2_xor_is_gal3() {
    for b in 0..=255u8 {
        assert_eq!(gal2(b) ^ b, gal3(b));
    }
}

#[test]
fn galois_known_values() {
    // 0x52 * {9, 11, 13, 14} in GF(2^8) modulo 0x11B.
    assert_eq!(gal9(0x52), 0xf4);
    assert_eq!(gal11(0x52), 0x50);
    assert_eq!(gal13(0x52), 0xa7);
    assert_eq!(gal14(0x52), 0x51);
}

#[test]
fn round_operations_invert_each_other() {
    let mut state = 1u64;
    let mut blocks: Vec<[u8; 16]> = vec![[0u8; 16], [0xffu8; 16]];
    for _ in 0..8 {
        let mut b = [0u8; 16];
        for v in b.iter_mut() {
            *v = lcg(&mut state) as u8;
        }
        blocks.push(b);
    }
    for b in blocks {
        let mut st = AesState::new(&b);
        st.sub_bytes();
        st.sub_bytes_inv();
        assert_eq!(st.data, b);
        st.shift_rows();
        st.shift_rows_inv();
        assert_eq!(st.data, b);
        st.mix_columns();
        st.mix_columns_inv();
        assert_eq!(st.data, b);
        st.add_round_key(&b);
        st.add_round_key(&b);
        assert_eq!(st.data, b);
    }
}

#[test]
fn compute_all_states_matches_fips_ciphertext() {
    let key: [u8; 16] = [
        0x00, 0x01, 0x02, 0x03, 0x04, 0x05, 0x06, 0x07, 0x08, 0x09, 0x0a, 0x0b, 0x0c, 0x0d, 0x0e,
        0x0f,
    ];
    let payload: [u8; 16] = [
        0x00, 0x11, 0x22, 0x33, 0x44, 0x55, 0x66, 0x77, 0x88, 0x99, 0xaa, 0xbb, 0xcc, 0xdd, 0xee,
        0xff,
    ];
    let states = compute_all_states(&payload, &vec![key]);
    assert_eq!(states.len(), 40);
    let expected: [u8; 16] = [
        0x69, 0xc4, 0xe0, 0xd8, 0x6a, 0x7b, 0x04, 0x30, 0xd8, 0xcd, 0xb7, 0x80, 0x70, 0xb4, 0xc5,
        0x5a,
    ];
    assert_eq!(states[39], expected);
}

#[test]
fn compute_all_states_length_is_stable() {
    let keys = vec![[0u8; 16], [1u8; 16], [2u8; 16]];
    let states = compute_all_states(&[0u8; 16], &keys);
    assert_eq!(states.len(), 120);
}

#[test]
fn round0_estimate_all_zero_payload() {
    let model = ConsumptionModelRound0::new();
    let payload = [0u8; 16];
    // sbox(0x00) = 0x63 has Hamming weight 4.
    assert_eq!(model.estimate(&payload, 0x00, 0), 4);
}

#[test]
fn round0_estimate_with_square_weighting() {
    let model = ConsumptionModelRound0::new();
    let payload = [0xffu8; 16];
    // sbox(0xff ^ 0xaa) = sbox(0x55) = 0xfc has Hamming weight 6.
    let hw = model.estimate(&payload, 0xaa, 0);
    assert_eq!(hw, 6);
    let weights: Vec<i64> = (0..33).map(|w: i64| w * w).collect();
    assert_eq!(weights[hw as usize], 36);
}

#[test]
fn round0dectable_estimate_all_zero_payload() {
    let model = ConsumptionModelRound0DecTable::new();
    let payload = [0u8; 16];
    // inv_sbox(0x00) = 0x52 packs to 0x51a750f4, Hamming weight 15.
    assert_eq!(model.estimate(&payload, 0x00, 0), 15);
}

#[test]
fn estimate_is_deterministic() {
    let model = ConsumptionModelRound0::new();
    let payload = [0x5au8; 16];
    for guess in [0u8, 1, 17, 255] {
        assert_eq!(
            model.estimate(&payload, guess, 3),
            model.estimate(&payload, guess, 3)
        );
    }
}

#[test]
fn state_hamming_weight_counts_all_bytes() {
    assert_eq!(state_hamming_weight(&[0u8; 16]), 0);
    assert_eq!(state_hamming_weight(&[0xffu8; 16]), 128);
    let mut s = [0u8; 16];
    s[0] = 0x01;
    s[15] = 0x07;
    assert_eq!(state_hamming_weight(&s), 4);
}

#[test]
fn model_selection_by_name() {
    assert!(matches!(
        get_power_consumption_model("round0", None),
        Ok(ConsumptionModel::Round0(_))
    ));
    assert!(matches!(
        get_power_consumption_model("round0dectable", None),
        Ok(ConsumptionModel::Round0DecTable(_))
    ));
    let k = [7u8; 16];
    assert!(matches!(
        get_power_consumption_model("round1", Some(&k)),
        Ok(ConsumptionModel::Round1(_))
    ));
    assert!(matches!(
        get_power_consumption_model("round1dectable", Some(&k)),
        Ok(ConsumptionModel::Round1DecTable(_))
    ));
}

#[test]
fn model_selection_errors() {
    assert!(get_power_consumption_model("unknown", None).is_err());
    assert!(get_power_consumption_model("round1", None).is_err());
    assert!(get_power_consumption_model("round1dectable", None).is_err());
}

#[test]
fn round1_models_use_key_material() {
    let k = [3u8; 16];
    let payload = [0x42u8; 16];
    let m1 = get_power_consumption_model("round1", Some(&k)).unwrap();
    let m2 = get_power_consumption_model("round1dectable", Some(&k)).unwrap();
    for index in 0..16 {
        let e1 = m1.estimate(&payload, 0x10, index);
        let e2 = m2.estimate(&payload, 0x10, index);
        assert!(e1 <= 8);
        assert!(e2 <= 32);
    }
}
