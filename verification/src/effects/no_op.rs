use vstd::prelude::*;
use crate::effects::SampleProcessor;
use crate::sample::Sample;

verus! {

/// The identity effect: every sample leaves as it came in.
pub struct NoOpPassThroughProcessor {}

impl SampleProcessor for NoOpPassThroughProcessor {
    open spec fn yields(&self, input: Sample, output: Sample, next: Self) -> bool {
        output == input && next == *self
    }

    fn name(&self) -> (label: &str)
        ensures
            label@ == "No-Op"@,
    {
        "No-Op"
    }

    fn process_sample(&mut self, input_sample: Sample) -> (output_sample: Sample)
        ensures
            output_sample == input_sample,
    {
        input_sample
    }
}

} // verus!
