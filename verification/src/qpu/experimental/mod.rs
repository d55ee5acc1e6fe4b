//! Experimental QPU features: per-shot randomization primitives.
pub mod random;
pub mod randomized_measurements;
pub mod unitary_set_zxzxz;
