//! Leakage models: each maps a 16-byte payload, a key-byte guess and a byte
//! index to the Hamming weight of a model-specific AES intermediate value.
//!
//! The models return plain integer Hamming weights.  A caller that wants a
//! nonlinear leakage hypothesis (a power of the Hamming weight) maps these
//! integers through a weight table; see the attack driver.
use crate::aes;
use vstd::prelude::*;

verus! {

/// The number of set bits in a byte.
pub open spec fn spec_pop8(b: u8) -> u32 {
    (((b & 1) + ((b >> 1) & 1) + ((b >> 2) & 1) + ((b >> 3) & 1) + ((b >> 4) & 1) + ((b >> 5) & 1)
        + ((b >> 6) & 1) + ((b >> 7) & 1)) as u32)
}

/// The number of set bits in a 32-bit word, summed byte by byte.
pub open spec fn spec_pop32(x: u32) -> u32 {
    ((spec_pop8(x as u8) + spec_pop8((x >> 8) as u8) + spec_pop8((x >> 16) as u8) + spec_pop8(
        (x >> 24) as u8,
    )) as u32)
}

/// A byte has at most eight set bits.
pub proof fn lemma_pop8_bound(b: u8)
    by (bit_vector)
    ensures
        spec_pop8(b) <= 8,
{
}

/// The number of set bits in a byte (its Hamming weight).
pub fn pop8(b: u8) -> (r: u32)
    ensures
        r == spec_pop8(b),
        r <= 8,
{
    proof {
        lemma_pop8_bound(b);
    }
    ((b & 1) as u32) + (((b >> 1u8) & 1) as u32) + (((b >> 2u8) & 1) as u32) + (((b >> 3u8)
        & 1) as u32) + (((b >> 4u8) & 1) as u32) + (((b >> 5u8) & 1) as u32) + (((b >> 6u8)
        & 1) as u32) + (((b >> 7u8) & 1) as u32)
}

/// The number of set bits in a 32-bit word (its Hamming weight).
pub fn pop32(x: u32) -> (r: u32)
    ensures
        r == spec_pop32(x),
        r <= 32,
{
    pop8(x as u8) + pop8((x >> 8u32) as u8) + pop8((x >> 16u32) as u8) + pop8((x >> 24u32) as u8)
}

/// The 32-bit decryption T-table row for an inverse S-box output `i`:
/// `gal9(i)` in the low byte, then `gal11(i)`, `gal13(i)`, `gal14(i)`.
pub open spec fn spec_dec_table_row(i: u8) -> u32 {
    (aes::spec_gal9(i) as u32) | ((aes::spec_gal11(i) as u32) << 8) | ((aes::spec_gal13(
        i,
    ) as u32) << 16) | ((aes::spec_gal14(i) as u32) << 24)
}

/// The 32-bit decryption T-table row for an inverse S-box output.
pub fn dec_table_row(i: u8) -> (r: u32)
    ensures
        r == spec_dec_table_row(i),
{
    (aes::gal9(i) as u32) | ((aes::gal11(i) as u32) << 8u32) | ((aes::gal13(i) as u32) << 16u32)
        | ((aes::gal14(i) as u32) << 24u32)
}

/// A leakage model: a pure function from payload, guess and byte index to
/// the Hamming weight of a model-specific intermediate value.
pub trait ConsumptionModelTrait: Sized {
    /// The model's estimate as a mathematical function.
    spec fn spec_estimate(&self, payload: Seq<u8>, guess: u8, index: int) -> u32;

    /// Computes the model's estimate; at most 32, since every intermediate
    /// is at most 32 bits wide.
    fn estimate(&self, payload: &[u8; 16], guess: u8, index: usize) -> (r: u32)
        requires
            index < 16,
        ensures
            r == self.spec_estimate(payload@, guess, index as int),
            r <= 32,
    ;
}

/// First-round encryption model: the S-box output of payload byte XOR guess.
pub struct ConsumptionModelRound0 {}

/// Second-round encryption model: the round-1 S-box output XOR the round-0
/// S-box output under a known first round key `k0`.
pub struct ConsumptionModelRound1 {
    pub k0: [u8; 16],
}

/// First-round decryption T-table model: the table row selected by the
/// inverse S-box of payload byte XOR guess.
pub struct ConsumptionModelRound0DecTable {}

/// Second-round decryption T-table model under a known tweaked round key
/// `tk0`.
pub struct ConsumptionModelRound1DecTable {
    pub tk0: [u8; 16],
}

impl ConsumptionModelRound0 {
    /// Builds the first-round encryption model.
    pub fn new() -> (r: ConsumptionModelRound0) {
        ConsumptionModelRound0 {  }
    }
}

impl ConsumptionModelRound1 {
    /// Builds the second-round encryption model for the round key `k0`.
    pub fn new(k0: &[u8; 16]) -> (r: ConsumptionModelRound1)
        ensures
            r.k0@ == k0@,
    {
        ConsumptionModelRound1 { k0: *k0 }
    }
}

impl ConsumptionModelRound0DecTable {
    /// Builds the first-round decryption T-table model.
    pub fn new() -> (r: ConsumptionModelRound0DecTable) {
        ConsumptionModelRound0DecTable {  }
    }
}

impl ConsumptionModelRound1DecTable {
    /// Builds the second-round decryption T-table model for the tweaked
    /// round key `tk0`.
    pub fn new(tk0: &[u8; 16]) -> (r: ConsumptionModelRound1DecTable)
        ensures
            r.tk0@ == tk0@,
    {
        ConsumptionModelRound1DecTable { tk0: *tk0 }
    }
}

impl ConsumptionModelTrait for ConsumptionModelRound0 {
    open spec fn spec_estimate(&self, payload: Seq<u8>, guess: u8, index: int) -> u32 {
        spec_pop8(aes::spec_sbox(payload[index] ^ guess))
    }

    fn estimate(&self, payload: &[u8; 16], guess: u8, index: usize) -> (r: u32) {
        pop8(aes::sbox(payload[index] ^ guess))
    }
}

impl ConsumptionModelTrait for ConsumptionModelRound1 {
    open spec fn spec_estimate(&self, payload: Seq<u8>, guess: u8, index: int) -> u32 {
        let m = aes::spec_mix_columns(
            aes::spec_shift_rows(aes::spec_sub_bytes(aes::spec_add_round_key(payload, self.k0@))),
        );
        spec_pop8(aes::spec_sbox(m[index] ^ guess) ^ aes::spec_sbox(payload[index] ^ self.k0@[index]))
    }

    fn estimate(&self, payload: &[u8; 16], guess: u8, index: usize) -> (r: u32) {
        let mut st = aes::AesState::new(payload);
        st.add_round_key(&self.k0);
        st.sub_bytes();
        st.shift_rows();
        st.mix_columns();
        pop8(aes::sbox(st.data[index] ^ guess) ^ aes::sbox(payload[index] ^ self.k0[index]))
    }
}

impl ConsumptionModelTrait for ConsumptionModelRound0DecTable {
    open spec fn spec_estimate(&self, payload: Seq<u8>, guess: u8, index: int) -> u32 {
        spec_pop32(spec_dec_table_row(aes::spec_inv_sbox(payload[index] ^ guess)))
    }

    fn estimate(&self, payload: &[u8; 16], guess: u8, index: usize) -> (r: u32) {
        pop32(dec_table_row(aes::inv_sbox(payload[index] ^ guess)))
    }
}

impl ConsumptionModelTrait for ConsumptionModelRound1DecTable {
    open spec fn spec_estimate(&self, payload: Seq<u8>, guess: u8, index: int) -> u32 {
        let m = aes::spec_mix_columns_inv(
            aes::spec_sub_bytes_inv(
                aes::spec_shift_rows_inv(aes::spec_add_round_key(payload, self.tk0@)),
            ),
        );
        spec_pop32(spec_dec_table_row(aes::spec_inv_sbox(m[index] ^ guess)))
    }

    fn estimate(&self, payload: &[u8; 16], guess: u8, index: usize) -> (r: u32) {
        let mut st = aes::AesState::new(payload);
        st.add_round_key(&self.tk0);
        st.shift_rows_inv();
        st.sub_bytes_inv();
        st.mix_columns_inv();
        pop32(dec_table_row(aes::inv_sbox(st.data[index] ^ guess)))
    }
}

/// The closed set of leakage models, as a tagged variant for drivers.
pub enum ConsumptionModel {
    Round0(ConsumptionModelRound0),
    Round0DecTable(ConsumptionModelRound0DecTable),
    Round1(ConsumptionModelRound1),
    Round1DecTable(ConsumptionModelRound1DecTable),
}

impl ConsumptionModelTrait for ConsumptionModel {
    open spec fn spec_estimate(&self, payload: Seq<u8>, guess: u8, index: int) -> u32 {
        match self {
            ConsumptionModel::Round0(m) => m.spec_estimate(payload, guess, index),
            ConsumptionModel::Round0DecTable(m) => m.spec_estimate(payload, guess, index),
            ConsumptionModel::Round1(m) => m.spec_estimate(payload, guess, index),
            ConsumptionModel::Round1DecTable(m) => m.spec_estimate(payload, guess, index),
        }
    }

    fn estimate(&self, payload: &[u8; 16], guess: u8, index: usize) -> (r: u32) {
        match self {
            ConsumptionModel::Round0(m) => m.estimate(payload, guess, index),
            ConsumptionModel::Round0DecTable(m) => m.estimate(payload, guess, index),
            ConsumptionModel::Round1(m) => m.estimate(payload, guess, index),
            ConsumptionModel::Round1DecTable(m) => m.estimate(payload, guess, index),
        }
    }
}

/// A leakage model is pure: its estimate is a function of the payload, the
/// guess and the index alone, so equal inputs always give equal outputs.
pub proof fn lemma_estimate_deterministic<M: ConsumptionModelTrait>(
    m: &M,
    payload: Seq<u8>,
    guess: u8,
    index: int,
    r1: u32,
    r2: u32,
)
    requires
        r1 == m.spec_estimate(payload, guess, index),
        r2 == m.spec_estimate(payload, guess, index),
    ensures
        r1 == r2,
{
}

/// The total Hamming weight of a 16-byte state.
pub open spec fn spec_state_hamming_weight(s: Seq<u8>) -> int
    decreases s.len(),
{
    if s.len() == 0 {
        0
    } else {
        spec_state_hamming_weight(s.drop_last()) + spec_pop8(s.last())
    }
}

/// Sums the Hamming weights of all sixteen bytes of a state.
pub fn state_hamming_weight(state: &[u8; 16]) -> (r: u32)
    ensures
        r == spec_state_hamming_weight(state@),
        r <= 128,
{
    let mut acc: u32 = 0;
    proof {
        assert(state@.take(0) =~= Seq::<u8>::empty());
    }
    for i in 0..16usize
        invariant
            acc == spec_state_hamming_weight(state@.take(i as int)),
            acc <= 8 * i,
    {
        proof {
            assert(state@.take(i + 1).drop_last() =~= state@.take(i as int));
        }
        acc = acc + pop8(state[i]);
    }
    proof {
        assert(state@.take(16) =~= state@);
    }
    acc
}

} // verus!
