use vstd::prelude::*;

verus! {

/// Raw state of one bidirectional DUT port.
///
/// The state is intentionally unresolved: it exposes the externally applied
/// input value, the DUT output-enable mask, and the DUT-proposed output value
/// so that callers implement their own resolution policy. It is a two-state
/// model; four-state or analog behaviour is modelled by the caller.
#[derive(Debug, Clone, Copy, Default, PartialEq, Eq, Hash)]
pub struct InoutState<Value, Enable = Value> {
    /// Externally resolved input currently presented to the DUT.
    pub input: Value,
    /// Per-bit mask indicating which bits the DUT drives.
    pub output_enable: Enable,
    /// Value proposed by the DUT.
    pub output_value: Value,
}

impl<Value, Enable> InoutState<Value, Enable> {
    /// Creates an inout-state snapshot.
    pub fn new(input: Value, output_enable: Enable, output_value: Value) -> (r: Self)
        ensures
            r.input == input,
            r.output_enable == output_enable,
            r.output_value == output_value,
    {
        InoutState { input, output_enable, output_value }
    }

    /// Returns the externally resolved input.
    pub fn input(&self) -> (r: &Value)
        ensures
            *r == self.input,
    {
        &self.input
    }

    /// Returns the DUT output-enable mask.
    pub fn output_enable(&self) -> (r: &Enable)
        ensures
            *r == self.output_enable,
    {
        &self.output_enable
    }

    /// Returns the DUT-proposed output value.
    pub fn output_value(&self) -> (r: &Value)
        ensures
            *r == self.output_value,
    {
        &self.output_value
    }

    /// Consumes the snapshot and returns its components.
    pub fn into_parts(self) -> (r: (Value, Enable, Value))
        ensures
            r == (self.input, self.output_enable, self.output_value),
    {
        (self.input, self.output_enable, self.output_value)
    }
}

} // verus!
