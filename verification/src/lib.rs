//! Verified core of the Rigetti QCS SDK: pseudo-random sequence reconstruction,
//! execution and translation options, result decoding and instruction set
//! conversion for quilc.
pub mod qpu;
pub mod quil;
pub mod qvm;
pub mod text;
