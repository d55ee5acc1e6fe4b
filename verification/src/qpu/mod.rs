//! Functionality for running Quil programs on a real QPU.
pub mod api;
pub mod engagement;
pub mod experimental;
pub mod extern_call;
pub mod quilc;
pub mod readout_data;
pub mod result_data;
pub mod rewrite_arithmetic;
pub mod runner;
pub mod translation;
