//! The data returned from the QPU after executing a job: which readout each memory reference
//! maps to, the readout values, and the final contents of each memory region.
//!
//! Each of the three tables is a list of entries with distinct keys, as in a map. Real values
//! are carried as the bits of their `f64`, complex values as the bits of the `f32` real and
//! imaginary parts that the controller reports.
use crate::quil::MemoryReference;
use crate::text::decimal;
use vstd::prelude::*;

verus! {

/// A row of readout values from the QPU. Each row contains all the values emitted to a
/// memory reference across all shots.
#[derive(Debug, PartialEq)]
pub enum ReadoutValues {
    /// Integer readout values
    Integer(Vec<i64>),
    /// Real numbered readout values, as the bits of each `f64`.
    Real(Vec<u64>),
    /// Complex readout values, as the bits of the `f32` real and imaginary parts.
    Complex(Vec<(u32, u32)>),
}

/// A row of data containing the contents of each memory region at the end of a job.
#[derive(Debug, PartialEq)]
pub enum MemoryValues {
    /// Values that correspond to a memory region declared with the BIT or OCTET data type.
    Binary(Vec<u8>),
    /// Values that correspond to a memory region declared with the INTEGER data type.
    Integer(Vec<i64>),
    /// Values that correspond to a memory region declared with the REAL data type, as the bits
    /// of each `f64`.
    Real(Vec<u64>),
}

/// The mathematical value of [`ReadoutValues`].
pub enum ReadoutValuesView {
    /// Integers.
    Integer(Seq<i64>),
    /// Bits of reals.
    Real(Seq<u64>),
    /// Bits of complex parts.
    Complex(Seq<(u32, u32)>),
}

/// The mathematical value of [`MemoryValues`].
pub enum MemoryValuesView {
    /// Bytes.
    Binary(Seq<u8>),
    /// Integers.
    Integer(Seq<i64>),
    /// Bits of reals.
    Real(Seq<u64>),
}

impl View for ReadoutValues {
    type V = ReadoutValuesView;

    open spec fn view(&self) -> ReadoutValuesView {
        match self {
            ReadoutValues::Integer(values) => ReadoutValuesView::Integer(values@),
            ReadoutValues::Real(values) => ReadoutValuesView::Real(values@),
            ReadoutValues::Complex(values) => ReadoutValuesView::Complex(values@),
        }
    }
}

impl View for MemoryValues {
    type V = MemoryValuesView;

    open spec fn view(&self) -> MemoryValuesView {
        match self {
            MemoryValues::Binary(values) => MemoryValuesView::Binary(values@),
            MemoryValues::Integer(values) => MemoryValuesView::Integer(values@),
            MemoryValues::Real(values) => MemoryValuesView::Real(values@),
        }
    }
}

impl Clone for ReadoutValues {
    fn clone(&self) -> (copy: Self)
        ensures
            copy@ == self@,
    {
        match self {
            ReadoutValues::Integer(values) => ReadoutValues::Integer(
                vstd::slice::slice_to_vec(values.as_slice()),
            ),
            ReadoutValues::Real(values) => ReadoutValues::Real(
                vstd::slice::slice_to_vec(values.as_slice()),
            ),
            ReadoutValues::Complex(values) => ReadoutValues::Complex(
                vstd::slice::slice_to_vec(values.as_slice()),
            ),
        }
    }
}

/// The readout values of one readout as the controller service reports them.
#[derive(Debug, PartialEq, Eq)]
pub enum ControllerReadoutValues {
    /// Integer values.
    IntegerValues(Vec<i32>),
    /// Complex values, as the bits of the `f32` real and imaginary parts.
    ComplexValues(Vec<(u32, u32)>),
}

/// The final contents of one memory region as the controller service reports them.
#[derive(Debug, PartialEq, Eq)]
pub enum ControllerMemoryValue {
    /// Bytes.
    Binary(Vec<u8>),
    /// Integers.
    Integer(Vec<i64>),
    /// Reals, as the bits of each `f64`.
    Real(Vec<u64>),
}

/// Whether the keys of a list of entries are distinct, as those of a map are.
pub open spec fn distinct_keys<V>(entries: Seq<(String, V)>) -> bool {
    forall|i: int, j: int|
        0 <= i < j < entries.len() ==> (#[trigger] entries[i]).0@ != (#[trigger] entries[j]).0@
}

/// The value of the entry with a key, if there is one.
pub open spec fn value_of<V>(entries: Seq<(String, V)>, key: Seq<char>) -> Option<V>
    decreases entries.len(),
{
    if entries.len() == 0 {
        None
    } else if entries[0].0@ == key {
        Some(entries[0].1)
    } else {
        value_of(entries.drop_first(), key)
    }
}

/// The readout values that a controller's readout gives: integers widened to `i64`, complex
/// values as they are, and no values as an empty list of integers.
pub open spec fn converted_readout(values: Option<ControllerReadoutValues>) -> ReadoutValuesView {
    match values {
        Some(ControllerReadoutValues::IntegerValues(integers)) => ReadoutValuesView::Integer(
            integers@.map_values(|value: i32| value as i64),
        ),
        Some(ControllerReadoutValues::ComplexValues(complexes)) => ReadoutValuesView::Complex(
            complexes@,
        ),
        None => ReadoutValuesView::Integer(Seq::empty()),
    }
}

/// The memory values that a controller's memory value gives.
pub open spec fn converted_memory(value: ControllerMemoryValue) -> MemoryValuesView {
    match value {
        ControllerMemoryValue::Binary(data) => MemoryValuesView::Binary(data@),
        ControllerMemoryValue::Integer(data) => MemoryValuesView::Integer(data@),
        ControllerMemoryValue::Real(data) => MemoryValuesView::Real(data@),
    }
}

/// The memory entries that a controller's report gives: those regions that have a value, in
/// order, each converted.
pub open spec fn reported_memory(entries: Seq<(String, Option<ControllerMemoryValue>)>) -> Seq<
    (Seq<char>, MemoryValuesView),
>
    decreases entries.len(),
{
    if entries.len() == 0 {
        Seq::empty()
    } else {
        let earlier = reported_memory(entries.drop_last());
        match entries.last().1 {
            Some(value) => earlier.push((entries.last().0@, converted_memory(value))),
            None => earlier,
        }
    }
}

/// The views of a list of entries with string values.
pub open spec fn text_entries(entries: Seq<(String, String)>) -> Seq<(Seq<char>, Seq<char>)> {
    entries.map_values(|entry: (String, String)| (entry.0@, entry.1@))
}

/// The views of a list of readout entries.
pub open spec fn readout_entries(entries: Seq<(String, ReadoutValues)>) -> Seq<
    (Seq<char>, ReadoutValuesView),
> {
    entries.map_values(|entry: (String, ReadoutValues)| (entry.0@, entry.1@))
}

/// The views of a list of memory entries.
pub open spec fn memory_entries(entries: Seq<(String, MemoryValues)>) -> Seq<
    (Seq<char>, MemoryValuesView),
> {
    entries.map_values(|entry: (String, MemoryValues)| (entry.0@, entry.1@))
}

/// The text of a memory reference, as Quil writes it: `name[index]`.
pub open spec fn reference_text(name: Seq<char>, index: u64) -> Seq<char> {
    name + seq!['['] + decimal(index as nat) + seq![']']
}

/// Calls `to_string` on quil-rs's `MemoryReference`, whose `Display` writes the name, `[`, the
/// index in decimal and `]`.
#[verifier::external_body]
pub(crate) fn memory_reference_text(reference: &MemoryReference) -> (text: String)
    ensures
        text@ == reference_text(reference.name@, reference.index),
{
    quil_rs::instruction::MemoryReference {
        name: reference.name.clone(),
        index: reference.index,
    }.to_string()
}

/// This struct encapsulates data returned from the QPU after executing a job.
#[derive(Debug, PartialEq)]
pub struct QpuResultData {
    mappings: Vec<(String, String)>,
    readout_values: Vec<(String, ReadoutValues)>,
    memory_values: Vec<(String, MemoryValues)>,
}

impl QpuResultData {
    #[verifier::type_invariant]
    spec fn keys_are_distinct(&self) -> bool {
        &&& distinct_keys(self.mappings@)
        &&& distinct_keys(self.readout_values@)
        &&& distinct_keys(self.memory_values@)
    }

    /// The mappings of memory references (such as `ro[0]`) to readout keys (such as `q0`).
    pub closed spec fn spec_mappings(&self) -> Seq<(String, String)> {
        self.mappings@
    }

    /// The readout values, by readout key.
    pub closed spec fn spec_readout_values(&self) -> Seq<(String, ReadoutValues)> {
        self.readout_values@
    }

    /// The final contents of each memory region, by region name.
    pub closed spec fn spec_memory_values(&self) -> Seq<(String, MemoryValues)> {
        self.memory_values@
    }

    /// Builds a new [`QpuResultData`] from mappings of memory references to readout identifiers
    /// and readout identifiers to [`ReadoutValues`]; each list has distinct keys.
    pub fn from_mappings_and_values(
        mappings: Vec<(String, String)>,
        readout_values: Vec<(String, ReadoutValues)>,
        memory_values: Vec<(String, MemoryValues)>,
    ) -> (data: Self)
        requires
            distinct_keys(mappings@),
            distinct_keys(readout_values@),
            distinct_keys(memory_values@),
        ensures
            data.spec_mappings() == mappings@,
            data.spec_readout_values() == readout_values@,
            data.spec_memory_values() == memory_values@,
    {
        QpuResultData { mappings, readout_values, memory_values }
    }

    /// Get mappings of a memory region (ie. "ro\[0\]") to it's key name in `readout_values`
    /// (ie. "q0")
    pub fn mappings(&self) -> (mappings: &Vec<(String, String)>)
        ensures
            mappings@ == self.spec_mappings(),
            distinct_keys(mappings@),
    {
        proof {
            use_type_invariant(self);
        }
        &self.mappings
    }

    /// Get mapping of a readout values identifier (ie. "q0") to a set of [`ReadoutValues`]
    pub fn readout_values(&self) -> (readout_values: &Vec<(String, ReadoutValues)>)
        ensures
            readout_values@ == self.spec_readout_values(),
            distinct_keys(readout_values@),
    {
        proof {
            use_type_invariant(self);
        }
        &self.readout_values
    }

    /// Get mapping of a memory region (ie. "ro") to the final contents of that memory region.
    pub fn memory_values(&self) -> (memory_values: &Vec<(String, MemoryValues)>)
        ensures
            memory_values@ == self.spec_memory_values(),
            distinct_keys(memory_values@),
    {
        proof {
            use_type_invariant(self);
        }
        &self.memory_values
    }
}

/// The position of the entry with a key, if there is one.
pub fn find_key<V>(entries: &Vec<(String, V)>, key: &String) -> (index: Option<usize>)
    ensures
        match index {
            Some(i) => i < entries@.len() && value_of(entries@, key@) == Some(entries@[i as int].1),
            None => value_of(entries@, key@) is None,
        },
{
    let ghost all = entries@;
    let mut j: usize = 0;
    assert(all.subrange(0, all.len() as int) =~= all);
    while j < entries.len()
        invariant
            all == entries@,
            j <= all.len(),
            value_of(all, key@) == value_of(all.subrange(j as int, all.len() as int), key@),
        decreases all.len() - j,
    {
        let ghost rest = all.subrange(j as int, all.len() as int);
        assert(rest.drop_first() =~= all.subrange(j as int + 1, all.len() as int));
        if entries[j].0.eq(key) {
            return Some(j);
        }
        j = j + 1;
    }
    None
}

fn convert_readout(values: &Option<ControllerReadoutValues>) -> (converted: ReadoutValues)
    ensures
        converted@ == converted_readout(*values),
{
    match values {
        Some(ControllerReadoutValues::IntegerValues(integers)) => {
            let mut widened: Vec<i64> = Vec::new();
            let mut i: usize = 0;
            while i < integers.len()
                invariant
                    i <= integers@.len(),
                    widened@ == integers@.take(i as int).map_values(|value: i32| value as i64),
                decreases integers@.len() - i,
            {
                widened.push(integers[i] as i64);
                assert(integers@.take(i as int + 1).map_values(|value: i32| value as i64)
                    =~= integers@.take(i as int).map_values(|value: i32| value as i64).push(
                    integers@[i as int] as i64,
                ));
                i = i + 1;
            }
            assert(integers@.take(integers@.len() as int) =~= integers@);
            ReadoutValues::Integer(widened)
        },
        Some(ControllerReadoutValues::ComplexValues(complexes)) => ReadoutValues::Complex(
            vstd::slice::slice_to_vec(complexes.as_slice()),
        ),
        None => {
            let empty: Vec<i64> = Vec::new();
            assert(empty@ =~= Seq::<i64>::empty());
            ReadoutValues::Integer(empty)
        },
    }
}

fn convert_memory(value: &ControllerMemoryValue) -> (converted: MemoryValues)
    ensures
        converted@ == converted_memory(*value),
{
    match value {
        ControllerMemoryValue::Binary(data) => MemoryValues::Binary(
            vstd::slice::slice_to_vec(data.as_slice()),
        ),
        ControllerMemoryValue::Integer(data) => MemoryValues::Integer(
            vstd::slice::slice_to_vec(data.as_slice()),
        ),
        ControllerMemoryValue::Real(data) => MemoryValues::Real(
            vstd::slice::slice_to_vec(data.as_slice()),
        ),
    }
}

/// The readout entries that a controller's report gives: every readout, in order, converted.
pub open spec fn reported_readouts(entries: Seq<(String, Option<ControllerReadoutValues>)>) -> Seq<
    (Seq<char>, ReadoutValuesView),
> {
    entries.map_values(
        |entry: (String, Option<ControllerReadoutValues>)| (entry.0@, converted_readout(entry.1)),
    )
}

/// A copy of a list of mappings.
pub(crate) fn copy_mappings(mappings: &Vec<(String, String)>) -> (copied: Vec<(String, String)>)
    ensures
        text_entries(copied@) == text_entries(mappings@),
        distinct_keys(mappings@) ==> distinct_keys(copied@),
{
    let mut copied: Vec<(String, String)> = Vec::new();
    let mut i: usize = 0;
    while i < mappings.len()
        invariant
            i <= mappings@.len(),
            copied@.len() == i,
            forall|k: int| 0 <= k < i ==> #[trigger] copied@[k].0@ == mappings@[k].0@,
            text_entries(copied@) == text_entries(mappings@.take(i as int)),
        decreases mappings@.len() - i,
    {
        let ghost before = copied@;
        let entry = (mappings[i].0.clone(), mappings[i].1.clone());
        copied.push(entry);
        assert(text_entries(copied@) =~= text_entries(before).push((entry.0@, entry.1@)));
        assert(mappings@.take(i as int + 1) =~= mappings@.take(i as int).push(mappings@[i as int]));
        assert(text_entries(copied@) =~= text_entries(mappings@.take(i as int + 1)));
        i = i + 1;
    }
    assert(mappings@.take(mappings@.len() as int) =~= mappings@);
    assert(distinct_keys(mappings@) ==> distinct_keys(copied@)) by {
        if distinct_keys(mappings@) {
            assert forall|a: int, b: int|
                0 <= a < b < copied@.len() implies (#[trigger] copied@[a]).0@
                != (#[trigger] copied@[b]).0@ by {
                assert(mappings@[a].0@ != mappings@[b].0@);
            }
        }
    }
    copied
}

/// The readout values of a controller's report, each converted.
pub(crate) fn convert_readouts(
    readout_values: &Vec<(String, Option<ControllerReadoutValues>)>,
) -> (readouts: Vec<(String, ReadoutValues)>)
    ensures
        readout_entries(readouts@) == reported_readouts(readout_values@),
        distinct_keys(readout_values@) ==> distinct_keys(readouts@),
{
    let mut readouts: Vec<(String, ReadoutValues)> = Vec::new();
    let mut i: usize = 0;
    while i < readout_values.len()
        invariant
            i <= readout_values@.len(),
            readouts@.len() == i,
            forall|k: int| 0 <= k < i ==> #[trigger] readouts@[k].0@ == readout_values@[k].0@,
            readout_entries(readouts@) == reported_readouts(readout_values@.take(i as int)),
        decreases readout_values@.len() - i,
    {
        let ghost before = readouts@;
        let entry = (readout_values[i].0.clone(), convert_readout(&readout_values[i].1));
        readouts.push(entry);
        assert(readout_entries(readouts@) =~= readout_entries(before).push((entry.0@, entry.1@)));
        assert(readout_values@.take(i as int + 1) =~= readout_values@.take(i as int).push(
            readout_values@[i as int],
        ));
        assert(readout_entries(readouts@) =~= reported_readouts(
            readout_values@.take(i as int + 1),
        ));
        i = i + 1;
    }
    assert(readout_values@.take(readout_values@.len() as int) =~= readout_values@);
    assert(distinct_keys(readout_values@) ==> distinct_keys(readouts@)) by {
        if distinct_keys(readout_values@) {
            assert forall|a: int, b: int|
                0 <= a < b < readouts@.len() implies (#[trigger] readouts@[a]).0@
                != (#[trigger] readouts@[b]).0@ by {
                assert(readout_values@[a].0@ != readout_values@[b].0@);
            }
        }
    }
    readouts
}

impl QpuResultData {
    /// Creates a new [`QpuResultData`] using data returned from controller service: the
    /// mappings as they are, every readout converted, and the memory regions that have a value,
    /// converted. Each list of the report has distinct keys.
    pub fn from_controller_mappings_and_values(
        mappings: &Vec<(String, String)>,
        readout_values: &Vec<(String, Option<ControllerReadoutValues>)>,
        memory_values: &Vec<(String, Option<ControllerMemoryValue>)>,
    ) -> (data: Self)
        requires
            distinct_keys(mappings@),
            distinct_keys(readout_values@),
            distinct_keys(memory_values@),
        ensures
            text_entries(data.spec_mappings()) == text_entries(mappings@),
            readout_entries(data.spec_readout_values()) == reported_readouts(readout_values@),
            memory_entries(data.spec_memory_values()) == reported_memory(memory_values@),
    {
        let copied = copy_mappings(mappings);
        let readouts = convert_readouts(readout_values);
        let mut memory: Vec<(String, MemoryValues)> = Vec::new();
        let mut i: usize = 0;
        while i < memory_values.len()
            invariant
                i <= memory_values@.len(),
                distinct_keys(memory_values@),
                distinct_keys(memory@),
                forall|k: int|
                    0 <= k < memory@.len() ==> exists|j: int|
                        0 <= j < i && #[trigger] memory@[k].0@ == (#[trigger] memory_values@[j]).0@,
                memory_entries(memory@) == reported_memory(memory_values@.take(i as int)),
            decreases memory_values@.len() - i,
        {
            assert(memory_values@.take(i as int + 1).drop_last() =~= memory_values@.take(i as int));
            match &memory_values[i].1 {
                Some(value) => {
                    let ghost before = memory@;
                    let entry = (memory_values[i].0.clone(), convert_memory(value));
                    memory.push(entry);
                    assert(memory_entries(memory@) =~= memory_entries(before).push(
                        (entry.0@, entry.1@),
                    ));
                    assert(distinct_keys(memory@)) by {
                        assert forall|a: int, b: int| 0 <= a < b < memory@.len() implies (#[trigger] memory@[a]).0@
                            != (#[trigger] memory@[b]).0@ by {
                            if b == memory@.len() - 1 {
                                let j = choose|j: int|
                                    0 <= j < i && #[trigger] before[a].0@ == (#[trigger] memory_values@[j]).0@;
                                assert(memory_values@[j].0@ != memory_values@[i as int].0@);
                            } else {
                                assert(before[a].0@ != before[b].0@);
                            }
                        }
                    }
                    assert forall|k: int| 0 <= k < memory@.len() implies exists|j: int|
                        0 <= j < i + 1 && #[trigger] memory@[k].0@ == (#[trigger] memory_values@[j]).0@ by {
                        if k == memory@.len() - 1 {
                            assert(memory@[k].0@ == memory_values@[i as int].0@);
                        } else {
                            let j = choose|j: int|
                                0 <= j < i && #[trigger] before[k].0@ == (#[trigger] memory_values@[j]).0@;
                            assert(memory@[k].0@ == memory_values@[j].0@);
                        }
                    }
                },
                None => {},
            }
            i = i + 1;
        }
        assert(memory_values@.take(memory_values@.len() as int) =~= memory_values@);
        QpuResultData { mappings: copied, readout_values: readouts, memory_values: memory }
    }

    /// Returns the [`ReadoutValues`] for a [`MemoryReference`], or `None` if a mapping to the
    /// provided memory reference doesn't exist: the readout that the reference's text, such as
    /// `ro[0]`, maps to.
    pub fn get_values_for_memory_reference(&self, reference: &MemoryReference) -> (values: Option<
        &ReadoutValues,
    >)
        ensures
            match value_of(self.spec_mappings(), reference_text(reference.name@, reference.index)) {
                Some(key) => match value_of(self.spec_readout_values(), key@) {
                    Some(found) => values == Some(&found),
                    None => values is None,
                },
                None => values is None,
            },
    {
        let text = memory_reference_text(reference);
        match find_key(&self.mappings, &text) {
            Some(i) => match find_key(&self.readout_values, &self.mappings[i].1) {
                Some(j) => Some(&self.readout_values[j].1),
                None => None,
            },
            None => None,
        }
    }
}

/// Whether a memory region's values are those a controller reported: of the same kind (binary,
/// integer or real) and the same values in the same order.
pub open spec fn same_memory_values(reported: ControllerMemoryValue, values: MemoryValuesView) -> bool {
    match (reported, values) {
        (ControllerMemoryValue::Binary(data), MemoryValuesView::Binary(kept)) => kept == data@,
        (ControllerMemoryValue::Integer(data), MemoryValuesView::Integer(kept)) => kept == data@,
        (ControllerMemoryValue::Real(data), MemoryValuesView::Real(kept)) => kept == data@,
        _ => false,
    }
}

/// Every memory region that a controller reports with a value is in the job's memory values
/// under its name, with the same kind and the same values.
pub proof fn lemma_reported_memory_is_kept(entries: Seq<(String, Option<ControllerMemoryValue>)>)
    ensures
        forall|i: int|
            0 <= i < entries.len() && (#[trigger] entries[i]).1 is Some ==> exists|k: int|
                0 <= k < reported_memory(entries).len() && (#[trigger] reported_memory(
                    entries,
                )[k]).0 == entries[i].0@ && same_memory_values(
                    entries[i].1->Some_0,
                    reported_memory(entries)[k].1,
                ),
    decreases entries.len(),
{
    if entries.len() > 0 {
        let rest = entries.drop_last();
        let last = entries.last();
        let n = entries.len() - 1;
        lemma_reported_memory_is_kept(rest);
        let earlier = reported_memory(rest);
        assert forall|i: int|
            0 <= i < entries.len() && (#[trigger] entries[i]).1 is Some implies exists|k: int|
                0 <= k < reported_memory(entries).len() && (#[trigger] reported_memory(
                    entries,
                )[k]).0 == entries[i].0@ && same_memory_values(
                    entries[i].1->Some_0,
                    reported_memory(entries)[k].1,
                ) by {
            if i < n {
                assert(entries[i] == rest[i]);
                let k = choose|k: int|
                    0 <= k < earlier.len() && (#[trigger] earlier[k]).0 == rest[i].0@
                        && same_memory_values(rest[i].1->Some_0, earlier[k].1);
                assert(reported_memory(entries)[k] == earlier[k]);
            } else {
                let k = earlier.len() as int;
                assert(reported_memory(entries)[k] == (last.0@, converted_memory(last.1->Some_0)));
            }
        }
    }
}

/// Whether a controller reported a memory region under this name, with a value of the same
/// kind and with the same values.
pub open spec fn was_reported(
    entries: Seq<(String, Option<ControllerMemoryValue>)>,
    name: Seq<char>,
    values: MemoryValuesView,
) -> bool {
    exists|i: int|
        0 <= i < entries.len() && (#[trigger] entries[i]).1 is Some && entries[i].0@ == name
            && same_memory_values(entries[i].1->Some_0, values)
}

/// Every memory region in a job's memory values was reported by the controller with a value,
/// under that name, of the same kind and with the same values.
pub proof fn lemma_memory_values_were_reported(
    entries: Seq<(String, Option<ControllerMemoryValue>)>,
)
    ensures
        forall|k: int|
            0 <= k < reported_memory(entries).len() ==> was_reported(
                entries,
                (#[trigger] reported_memory(entries)[k]).0,
                reported_memory(entries)[k].1,
            ),
    decreases entries.len(),
{
    if entries.len() > 0 {
        let rest = entries.drop_last();
        let last = entries.last();
        let n = entries.len() - 1;
        lemma_memory_values_were_reported(rest);
        let earlier = reported_memory(rest);
        assert forall|k: int| 0 <= k < reported_memory(entries).len() implies was_reported(
            entries,
            (#[trigger] reported_memory(entries)[k]).0,
            reported_memory(entries)[k].1,
        ) by {
            if k < earlier.len() {
                assert(reported_memory(entries)[k] == earlier[k]);
                assert(was_reported(rest, earlier[k].0, earlier[k].1));
                let i = choose|i: int|
                    0 <= i < rest.len() && (#[trigger] rest[i]).1 is Some && rest[i].0@
                        == earlier[k].0 && same_memory_values(rest[i].1->Some_0, earlier[k].1);
                assert(entries[i] == rest[i]);
            } else {
                assert(entries[n] == last);
                assert(reported_memory(entries)[k] == (last.0@, converted_memory(last.1->Some_0)));
            }
        }
    }
}

} // verus!
