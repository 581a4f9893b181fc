//! Correlation power analysis against AES-128.
//!
//! The crate has three layers, leaves first:
//! - [`aes`]: the AES-128 primitive kernel (S-boxes, round operations and
//!   their inverses, Galois multipliers, key schedule, intermediate states);
//! - [`power_consumption_models`]: leakage models that map a payload, a
//!   key-byte guess and a byte index to an integer Hamming-weight estimate;
//! - [`correlation_engine`]: a streaming Pearson correlation engine over
//!   fixed-point sample and hypothesis values, with exact integer contracts;
//! - [`solver`]: the attack and assessment drivers that tie the three
//!   together.
//!
//! All real-valued quantities are carried as fixed-point integers so that
//! every arithmetic step is exact and verified; scaling in and out of the
//! fixed-point domain is the caller's concern.
pub mod aes;
pub mod correlation_engine;
pub mod power_consumption_models;
pub mod solver;
