use noiser::speaker::Speaker;
use noiser::speaker::ToneCommand;
use noiser::speaker::INITIAL_FREQUENCY;

#[test]
fn speaker_starts_enabled_at_the_initial_frequency() {
    let speaker = Speaker::init();
    assert!(speaker.is_on());
    assert_eq!(speaker.frequency(), 500);
    assert_eq!(INITIAL_FREQUENCY, 500);
}

#[test]
fn stop_silences_and_is_idempotent() {
    let mut speaker = Speaker::init();
    assert_eq!(speaker.stop(), ToneCommand::Silence);
    assert!(!speaker.is_on());
    assert_eq!(speaker.stop(), ToneCommand::Silence);
    assert!(!speaker.is_on());
    assert_eq!(speaker.frequency(), 500);
}

#[test]
fn start_drives_at_the_stored_frequency_and_is_idempotent() {
    let mut speaker = Speaker::init();
    speaker.stop();
    assert_eq!(speaker.start(), ToneCommand::Drive(500));
    assert!(speaker.is_on());
    assert_eq!(speaker.start(), ToneCommand::Drive(500));
    assert!(speaker.is_on());
    assert_eq!(speaker.frequency(), 500);
}

#[test]
fn toggle_flips_between_silence_and_drive() {
    let mut speaker = Speaker::init();
    assert_eq!(speaker.toggle(), ToneCommand::Silence);
    assert!(!speaker.is_on());
    assert_eq!(speaker.toggle(), ToneCommand::Drive(500));
    assert!(speaker.is_on());
}

#[test]
fn even_number_of_toggles_changes_nothing() {
    for start_on in [true, false] {
        for times in [0usize, 2, 4, 10, 64] {
            let mut speaker = Speaker::init();
            speaker.play(880);
            if !start_on {
                speaker.stop();
            }
            for _ in 0..times {
                speaker.toggle();
            }
            assert_eq!(speaker.is_on(), start_on);
            assert_eq!(speaker.frequency(), 880);
        }
    }
}

#[test]
fn odd_number_of_toggles_flips_once() {
    let mut speaker = Speaker::init();
    for _ in 0..7 {
        speaker.toggle();
    }
    assert!(!speaker.is_on());
    assert_eq!(speaker.frequency(), 500);
}

#[test]
fn play_retunes_whether_enabled_or_not() {
    let mut speaker = Speaker::init();
    assert_eq!(speaker.play(440), ToneCommand::Retune(440));
    assert_eq!(speaker.frequency(), 440);
    assert!(speaker.is_on());
    speaker.stop();
    assert_eq!(speaker.play(1), ToneCommand::Retune(1));
    assert_eq!(speaker.frequency(), 1);
    assert!(!speaker.is_on());
    assert_eq!(speaker.play(u32::MAX), ToneCommand::Retune(u32::MAX));
    assert_eq!(speaker.frequency(), u32::MAX);
}

#[test]
fn start_applies_the_frequency_stored_while_stopped() {
    let mut speaker = Speaker::init();
    speaker.stop();
    speaker.play(660);
    assert_eq!(speaker.start(), ToneCommand::Drive(660));
    speaker.stop();
    speaker.play(770);
    assert_eq!(speaker.toggle(), ToneCommand::Drive(770));
}
