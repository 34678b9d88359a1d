use stompbox::effects::tremolo::TremoloEffect;
use stompbox::effects::white_noise::WhiteNoiseGenerator;
use stompbox::effects::{
    new_sample_processor_by_name, sample_processor_for_identifier, Effect, NOISE_SEED,
};
use stompbox::text::same_text;

fn is_fresh_tremolo(effect: &Effect, sample_rate: usize) -> bool {
    match effect {
        Effect::Tremolo(tremolo) => {
            tremolo.time() == 0
                && tremolo.sample_rate() == sample_rate
                && tremolo.warble_frequency_hz() == 3
        }
        _ => false,
    }
}

fn is_fresh_noise(effect: Effect) -> bool {
    match effect {
        Effect::WhiteNoise(mut generator) => {
            let mut reference = WhiteNoiseGenerator::new(42);
            (0..8).all(|_| generator.draw() == reference.draw())
        }
        _ => false,
    }
}

#[test]
fn upper_case_tremolo_selects_the_tremolo() {
    assert!(is_fresh_tremolo(&new_sample_processor_by_name(48000, "TREMOLO"), 48000));
}

#[test]
fn padded_tremolo_selects_the_tremolo() {
    assert!(is_fresh_tremolo(&new_sample_processor_by_name(48000, " tremolo "), 48000));
}

#[test]
fn capitalised_tremolo_selects_the_tremolo() {
    assert!(is_fresh_tremolo(&new_sample_processor_by_name(48000, "Tremolo"), 48000));
}

#[test]
fn tremolo_takes_the_sample_rate_it_is_given() {
    assert!(is_fresh_tremolo(&new_sample_processor_by_name(44100, "tremolo"), 44100));
    assert!(!is_fresh_tremolo(&new_sample_processor_by_name(44100, "tremolo"), 48000));
}

#[test]
fn empty_name_selects_the_identity() {
    assert!(matches!(new_sample_processor_by_name(48000, ""), Effect::NoOp(_)));
}

#[test]
fn unknown_name_selects_the_identity() {
    assert!(matches!(new_sample_processor_by_name(48000, "unknown"), Effect::NoOp(_)));
}

#[test]
fn noop_selects_the_identity() {
    assert!(matches!(new_sample_processor_by_name(48000, "noop"), Effect::NoOp(_)));
    assert!(matches!(new_sample_processor_by_name(48000, "\tNoOp\n"), Effect::NoOp(_)));
}

#[test]
fn whitenoise_selects_the_noise_source_seeded_with_42() {
    assert_eq!(NOISE_SEED, 42);
    assert!(is_fresh_noise(new_sample_processor_by_name(48000, "whitenoise")));
    assert!(is_fresh_noise(new_sample_processor_by_name(48000, "  WhiteNoise\r\n")));
}

#[test]
fn a_name_with_inner_whitespace_selects_the_identity() {
    assert!(matches!(new_sample_processor_by_name(48000, "white noise"), Effect::NoOp(_)));
    assert!(matches!(new_sample_processor_by_name(48000, "tre molo"), Effect::NoOp(_)));
}

#[test]
fn a_longer_or_shorter_name_selects_the_identity() {
    assert!(matches!(new_sample_processor_by_name(48000, "tremolos"), Effect::NoOp(_)));
    assert!(matches!(new_sample_processor_by_name(48000, "tremol"), Effect::NoOp(_)));
}

#[test]
fn unicode_whitespace_around_the_name_is_trimmed() {
    assert!(is_fresh_tremolo(
        &new_sample_processor_by_name(48000, "\u{a0}\u{2003}tremolo\u{3000}"),
        48000
    ));
}

#[test]
fn an_identifier_is_matched_as_it_stands() {
    assert!(is_fresh_tremolo(&sample_processor_for_identifier(48000, "tremolo"), 48000));
    assert!(is_fresh_noise(sample_processor_for_identifier(48000, "whitenoise")));
    assert!(matches!(sample_processor_for_identifier(48000, "noop"), Effect::NoOp(_)));
    assert!(matches!(sample_processor_for_identifier(48000, "TREMOLO"), Effect::NoOp(_)));
    assert!(matches!(sample_processor_for_identifier(48000, " tremolo "), Effect::NoOp(_)));
    assert!(matches!(sample_processor_for_identifier(48000, ""), Effect::NoOp(_)));
}

#[test]
fn same_text_compares_characters() {
    assert!(same_text("", ""));
    assert!(same_text("tremolo", "tremolo"));
    assert!(!same_text("tremolo", "tremola"));
    assert!(!same_text("tremolo", "tremol"));
    assert!(!same_text("", "x"));
    assert!(same_text("naïve \u{1f3b8}", "naïve \u{1f3b8}"));
    assert!(!same_text("naïve", "naive"));
}

#[test]
fn a_fresh_tremolo_from_the_registry_equals_a_constructed_one() {
    let constructed = TremoloEffect::new(96000);
    match new_sample_processor_by_name(96000, "tremolo") {
        Effect::Tremolo(selected) => {
            assert_eq!(selected.time(), constructed.time());
            assert_eq!(selected.sample_rate(), constructed.sample_rate());
            assert_eq!(selected.warble_frequency_hz(), constructed.warble_frequency_hz());
        }
        _ => panic!("the tremolo was not selected"),
    }
}
