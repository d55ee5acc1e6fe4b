//! The readout data returned from the QPU after executing a job: which readout each memory
//! reference maps to, and the readout values.
use crate::qpu::result_data::{
    convert_readouts, copy_mappings, find_key, memory_reference_text, readout_entries,
    reference_text, reported_readouts, text_entries, value_of, ControllerReadoutValues,
};
use crate::quil::MemoryReference;
use vstd::prelude::*;

pub use crate::qpu::result_data::ReadoutValues;

verus! {

/// This struct encapsulates the readout data returned from the QPU after executing a job.
#[derive(Debug, PartialEq)]
pub struct QpuReadout {
    /// Mappings of a memory region (ie. "ro[0]") to it's key name in `readout_values` (ie. "q0")
    pub mappings: Vec<(String, String)>,
    /// Mapping of a readout values identifier (ie. "q0") to a set of [`ReadoutValues`]
    pub readout_values: Vec<(String, ReadoutValues)>,
}

impl QpuReadout {
    /// Creates a new [`QpuReadout`] using data returned from controller service: the mappings
    /// as they are and every readout converted.
    pub fn from_controller_mappings_and_values(
        mappings: &Vec<(String, String)>,
        values: &Vec<(String, Option<ControllerReadoutValues>)>,
    ) -> (readout: Self)
        ensures
            text_entries(readout.mappings@) == text_entries(mappings@),
            readout_entries(readout.readout_values@) == reported_readouts(values@),
    {
        QpuReadout { mappings: copy_mappings(mappings), readout_values: convert_readouts(values) }
    }

    /// Returns the [`ReadoutValues`] for a [`MemoryReference`], or None if a mapping to the
    /// provided memory reference doesn't exist.
    pub fn get_values_for_memory_reference(&self, reference: &MemoryReference) -> (values: Option<
        &ReadoutValues,
    >)
        ensures
            match value_of(self.mappings@, reference_text(reference.name@, reference.index)) {
                Some(key) => match value_of(self.readout_values@, key@) {
                    Some(found) => values == Some(&found),
                    None => values is None,
                },
                None => values is None,
            },
    {
        let text = memory_reference_text(reference);
        match find_key(&self.mappings, &text) {
            Some(i) => match find_key(&self.readout_values, &self.mappings[i].1) {
                Some(j) => Some(&self.readout_values[j].1),
                None => None,
            },
            None => None,
        }
    }
}

} // verus!
