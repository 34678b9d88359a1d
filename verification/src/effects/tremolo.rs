use vstd::prelude::*;

verus! {

/// The modulation frequency of every tremolo, in hertz.
pub const WARBLE_FREQUENCY_HZ: u32 = 3;

/// What a tremolo is, as numbers: the phase advances by
/// `2π · warble_frequency_hz / sample_rate` per sample, and `time` samples
/// have been modulated so far.
pub struct TremoloState {
    pub warble_frequency_hz: nat,
    pub sample_rate: nat,
    pub time: nat,
}

impl TremoloState {
    /// A tremolo for the given sample rate that has modulated nothing yet.
    pub open spec fn initial(sample_rate: nat) -> TremoloState {
        TremoloState { warble_frequency_hz: WARBLE_FREQUENCY_HZ as nat, sample_rate, time: 0 }
    }

    /// The state after one more sample.
    pub open spec fn step(self) -> TremoloState {
        TremoloState { time: self.time + 1, ..self }
    }

    /// The state after `count` more samples.
    pub open spec fn steps(self, count: nat) -> TremoloState
        decreases count,
    {
        if count == 0 {
            self
        } else {
            self.steps((count - 1) as nat).step()
        }
    }
}

/// The amplitude modulator: it scales each sample by the sine of a phase that
/// advances by a fixed angular step per sample.
///
/// This type keeps the integers that the modulation is made of: the
/// modulation frequency and the sample rate, both fixed at construction, and
/// the count of samples modulated so far, which only `advance` moves and which
/// is never reset.
pub struct TremoloEffect {
    warble_frequency_hz: u32,
    sample_rate: usize,
    time: usize,
}

impl View for TremoloEffect {
    type V = TremoloState;

    closed spec fn view(&self) -> TremoloState {
        TremoloState {
            warble_frequency_hz: self.warble_frequency_hz as nat,
            sample_rate: self.sample_rate as nat,
            time: self.time as nat,
        }
    }
}

impl TremoloEffect {
    /// A tremolo at the fixed modulation frequency for a stream of
    /// `sample_rate` samples per second.
    pub fn new(sample_rate: usize) -> (effect: Self)
        ensures
            effect@ == TremoloState::initial(sample_rate as nat),
    {
        TremoloEffect { warble_frequency_hz: WARBLE_FREQUENCY_HZ, sample_rate, time: 0 }
    }

    /// A fixed, human-readable label, for diagnostics only.
    pub fn name(&self) -> (label: &'static str)
        ensures
            label@ == "Tremolo/Warble"@,
    {
        "Tremolo/Warble"
    }

    /// The modulation frequency, in hertz.
    pub fn warble_frequency_hz(&self) -> (frequency: u32)
        ensures
            frequency == self@.warble_frequency_hz,
    {
        self.warble_frequency_hz
    }

    /// The sample rate that the effect was constructed for.
    pub fn sample_rate(&self) -> (rate: usize)
        ensures
            rate == self@.sample_rate,
    {
        self.sample_rate
    }

    /// The count of samples modulated so far.
    pub fn time(&self) -> (time: usize)
        ensures
            time == self@.time,
    {
        self.time
    }

    /// Takes the next sample's place in the modulation: returns the count of
    /// samples modulated before this one, whose product with the angular step
    /// is the phase for this sample, and counts this sample.
    pub fn advance(&mut self) -> (time: usize)
        requires
            old(self)@.time < usize::MAX,
        ensures
            time == old(self)@.time,
            final(self)@ == old(self)@.step(),
    {
        let time = self.time;
        self.time = time + 1;
        time
    }
}

/// The count of samples that a tremolo has modulated is the number of calls
/// of `advance` since its construction: the call number `count`, counted from
/// zero, is answered with `count`, whatever the sample rate, and the
/// frequency and the sample rate stay as they were constructed.
pub proof fn lemma_tremolo_counts_samples(sample_rate: nat, count: nat)
    ensures
        TremoloState::initial(sample_rate).steps(count) == (TremoloState {
            time: count,
            ..TremoloState::initial(sample_rate)
        }),
    decreases count,
{
    if count > 0 {
        lemma_tremolo_counts_samples(sample_rate, (count - 1) as nat);
    }
}

} // verus!
