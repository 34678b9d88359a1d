use vstd::prelude::*;
use crate::effects::no_op::NoOpPassThroughProcessor;
use crate::effects::SampleProcessor;
use crate::sample::Sample;

verus! {

/// Whether an effect that passes through `states`, one after the other, may
/// turn `inputs` into `outputs`: the output at each index is what the effect
/// returns for the input at that index, in the state that the samples before
/// it left.
pub open spec fn is_run<P: SampleProcessor>(
    states: Seq<P>,
    inputs: Seq<Sample>,
    outputs: Seq<Sample>,
) -> bool {
    &&& states.len() == inputs.len() + 1
    &&& outputs.len() == inputs.len()
    &&& forall|i: int|
        0 <= i < inputs.len() ==> (#[trigger] states[i]).yields(inputs[i], outputs[i], states[i + 1])
}

/// Runs one audio cycle: feeds each input sample through the effect, in order,
/// and writes the result to the output slot of the same index.
pub fn process_cycle<P: SampleProcessor>(
    processor: &mut P,
    input_buffer: &[Sample],
    output_buffer: &mut [Sample],
)
    requires
        input_buffer@.len() == old(output_buffer)@.len(),
    ensures
        final(output_buffer)@.len() == input_buffer@.len(),
        exists|states: Seq<P>|
            {
                &&& #[trigger] is_run(states, input_buffer@, final(output_buffer)@)
                &&& states.first() == *old(processor)
                &&& states.last() == *final(processor)
            },
{
    let count: usize = input_buffer.len();
    let ghost mut states: Seq<P> = seq![*processor];
    let mut index: usize = 0;
    while index < count
        invariant
            count == input_buffer@.len(),
            count == output_buffer@.len(),
            index <= count,
            states.len() == index + 1,
            states.first() == *old(processor),
            states.last() == *processor,
            forall|i: int|
                0 <= i < index ==> (#[trigger] states[i]).yields(
                    input_buffer@[i],
                    output_buffer@[i],
                    states[i + 1],
                ),
        decreases count - index,
    {
        let output_sample = processor.process_sample(input_buffer[index]);
        output_buffer[index] = output_sample;
        proof {
            states = states.push(*processor);
        }
        index += 1;
    }
    proof {
        assert(is_run(states, input_buffer@, output_buffer@));
    }
}

/// The identity effect returns a buffer as it came in: the same samples in
/// the same order.
pub proof fn lemma_identity_run(
    states: Seq<NoOpPassThroughProcessor>,
    inputs: Seq<Sample>,
    outputs: Seq<Sample>,
)
    requires
        is_run(states, inputs, outputs),
    ensures
        outputs == inputs,
{
    assert forall|i: int| 0 <= i < inputs.len() implies outputs[i] == inputs[i] by {
        assert(states[i].yields(inputs[i], outputs[i], states[i + 1]));
    }
    assert(outputs =~= inputs);
}

/// The boundary between two cycles leaves no mark: where the second cycle
/// starts in the state that the first one ended in, the two buffers, one
/// after the other, are one run over their concatenation.
pub proof fn lemma_cycles_compose<P: SampleProcessor>(
    first_states: Seq<P>,
    first_inputs: Seq<Sample>,
    first_outputs: Seq<Sample>,
    second_states: Seq<P>,
    second_inputs: Seq<Sample>,
    second_outputs: Seq<Sample>,
)
    requires
        is_run(first_states, first_inputs, first_outputs),
        is_run(second_states, second_inputs, second_outputs),
        first_states.last() == second_states.first(),
    ensures
        is_run(
            first_states + second_states.drop_first(),
            first_inputs + second_inputs,
            first_outputs + second_outputs,
        ),
{
    let states = first_states + second_states.drop_first();
    let inputs = first_inputs + second_inputs;
    let outputs = first_outputs + second_outputs;
    let split = first_inputs.len() as int;
    assert forall|i: int| 0 <= i < inputs.len() implies (#[trigger] states[i]).yields(
        inputs[i],
        outputs[i],
        states[i + 1],
    ) by {
        if i < split {
            assert(first_states[i].yields(first_inputs[i], first_outputs[i], first_states[i + 1]));
            if i + 1 == split {
                assert(states[i + 1] == first_states.last());
            }
        } else {
            let j = i - split;
            assert(second_states[j].yields(
                second_inputs[j],
                second_outputs[j],
                second_states[j + 1],
            ));
            assert(states[i + 1] == second_states[j + 1]);
            if j == 0 {
                assert(states[i] == first_states.last());
            } else {
                assert(states[i] == second_states[j]);
            }
        }
    }
}

/// Whether an effect of this type returns one sample for an input in a state,
/// and moves on to one next state whatever the input is.
pub open spec fn moves_on_regardless_of_input<P: SampleProcessor>() -> bool {
    forall|state: P, a: Sample, b: Sample, from_a: Sample, from_b: Sample, after_a: P, after_b: P|
        #[trigger] state.yields(a, from_a, after_a) && #[trigger] state.yields(b, from_b, after_b)
            ==> after_a == after_b && (a == b ==> from_a == from_b)
}

/// The output at an index derives from the input at that index alone, for an
/// effect whose state moves on regardless of its input: two effects that
/// start alike and are fed buffers that agree at an index return the same
/// sample there, whatever the buffers hold elsewhere. Two effects that start
/// alike and are fed the same buffer so return the same samples throughout.
pub proof fn lemma_output_derives_from_own_input<P: SampleProcessor>(
    first_states: Seq<P>,
    first_inputs: Seq<Sample>,
    first_outputs: Seq<Sample>,
    second_states: Seq<P>,
    second_inputs: Seq<Sample>,
    second_outputs: Seq<Sample>,
    index: int,
)
    requires
        moves_on_regardless_of_input::<P>(),
        is_run(first_states, first_inputs, first_outputs),
        is_run(second_states, second_inputs, second_outputs),
        first_states.first() == second_states.first(),
        0 <= index < first_inputs.len(),
        index < second_inputs.len(),
        first_inputs[index] == second_inputs[index],
    ensures
        first_outputs[index] == second_outputs[index],
{
    lemma_states_agree(
        first_states,
        first_inputs,
        first_outputs,
        second_states,
        second_inputs,
        second_outputs,
        index,
    );
    assert(first_states[index].yields(
        first_inputs[index],
        first_outputs[index],
        first_states[index + 1],
    ));
    assert(second_states[index].yields(
        second_inputs[index],
        second_outputs[index],
        second_states[index + 1],
    ));
}

proof fn lemma_states_agree<P: SampleProcessor>(
    first_states: Seq<P>,
    first_inputs: Seq<Sample>,
    first_outputs: Seq<Sample>,
    second_states: Seq<P>,
    second_inputs: Seq<Sample>,
    second_outputs: Seq<Sample>,
    count: int,
)
    requires
        moves_on_regardless_of_input::<P>(),
        is_run(first_states, first_inputs, first_outputs),
        is_run(second_states, second_inputs, second_outputs),
        first_states.first() == second_states.first(),
        0 <= count <= first_inputs.len(),
        count <= second_inputs.len(),
    ensures
        first_states[count] == second_states[count],
    decreases count,
{
    if count > 0 {
        let before = count - 1;
        lemma_states_agree(
            first_states,
            first_inputs,
            first_outputs,
            second_states,
            second_inputs,
            second_outputs,
            before,
        );
        assert(first_states[before].yields(
            first_inputs[before],
            first_outputs[before],
            first_states[before + 1],
        ));
        assert(second_states[before].yields(
            second_inputs[before],
            second_outputs[before],
            second_states[before + 1],
        ));
    }
}

} // verus!
