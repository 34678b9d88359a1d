use vstd::prelude::*;
use crate::effects::no_op::NoOpPassThroughProcessor;
use crate::effects::tremolo::{TremoloEffect, TremoloState};
use crate::effects::white_noise::{seeded_state, WhiteNoiseGenerator};
use crate::sample::Sample;
use crate::text::{normalized, same_text};

pub mod no_op;
pub mod tremolo;
pub mod white_noise;

verus! {

/// An effect: a unit with state that turns one input sample into one output
/// sample per call.
pub trait SampleProcessor: Sized {
    /// Whether a call of `process_sample` in this state with `input` may
    /// return `output` and leave the effect in the state `next`. An effect
    /// that does not say what it does may do anything.
    open spec fn yields(&self, input: Sample, output: Sample, next: Self) -> bool {
        true
    }

    /// A fixed, human-readable label, for diagnostics only.
    fn name(&self) -> &str;

    /// Turns one input sample into one output sample.
    fn process_sample(&mut self, input_sample: Sample) -> (output_sample: Sample)
        ensures
            old(self).yields(input_sample, output_sample, *final(self)),
    ;
}

/// The seed of every white noise source.
pub const NOISE_SEED: u64 = 42;

/// The effect that an identifier selected, in its initial state.
pub enum Effect {
    NoOp(NoOpPassThroughProcessor),
    Tremolo(TremoloEffect),
    WhiteNoise(WhiteNoiseGenerator),
}

/// What an `Effect` is, as numbers.
pub enum EffectState {
    NoOp,
    Tremolo(TremoloState),
    WhiteNoise((u64, u64)),
}

impl View for Effect {
    type V = EffectState;

    open spec fn view(&self) -> EffectState {
        match self {
            Effect::NoOp(_) => EffectState::NoOp,
            Effect::Tremolo(effect) => EffectState::Tremolo(effect@),
            Effect::WhiteNoise(generator) => EffectState::WhiteNoise(generator@),
        }
    }
}

/// The effect that stands behind an identifier in its matched form:
/// `tremolo` is the amplitude modulator for the given sample rate, with
/// nothing modulated yet, `whitenoise` the noise source, freshly seeded, and
/// everything else, `noop` and the empty identifier included, the identity.
pub open spec fn selected(sample_rate: usize, identifier: Seq<char>) -> EffectState {
    if identifier == "tremolo"@ {
        EffectState::Tremolo(TremoloState::initial(sample_rate as nat))
    } else if identifier == "whitenoise"@ {
        EffectState::WhiteNoise(seeded_state(NOISE_SEED))
    } else {
        EffectState::NoOp
    }
}

/// Constructs the effect for an identifier that is already in its matched
/// form. An identifier that names no effect selects the identity; that is
/// no error.
pub fn sample_processor_for_identifier(sample_rate: usize, identifier: &str) -> (processor: Effect)
    ensures
        processor@ == selected(sample_rate, identifier@),
{
    if same_text(identifier, "tremolo") {
        Effect::Tremolo(TremoloEffect::new(sample_rate))
    } else if same_text(identifier, "whitenoise") {
        Effect::WhiteNoise(WhiteNoiseGenerator::new(NOISE_SEED))
    } else {
        Effect::NoOp(NoOpPassThroughProcessor {  })
    }
}

/// Constructs the effect that `effect` names, for a stream of `sample_rate`
/// samples per second. The name is matched without regard to case or to the
/// whitespace around it.
pub fn new_sample_processor_by_name(sample_rate: usize, effect: &str) -> (processor: Effect)
    ensures
        processor@ == selected(sample_rate, normalized(effect@)),
{
    let lowered = effect.to_lowercase();
    sample_processor_for_identifier(sample_rate, lowered.as_str().trim())
}

} // verus!
