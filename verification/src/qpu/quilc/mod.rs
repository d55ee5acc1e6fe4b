//! Preparing programs for quilc: the instruction set architecture in the form that quilc reads.
pub mod isa;
