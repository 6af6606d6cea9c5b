use noiser::display::Mode;
use noiser::machine::Actions;
use noiser::machine::Machine;
use noiser::machine::TimerCommand;
use noiser::machine::FALLBACK_NOTE;
use noiser::notes::NoteMode;
use noiser::speaker::ToneCommand;

const NOTHING: Actions = Actions { timer: None, tone: None };

fn whole() -> Machine {
    let mut machine = Machine::new();
    machine.init_rand([0; 16]);
    machine.init_display();
    machine.init_notes();
    machine.init_speaker();
    machine
}

fn tone_frequency(machine: &Machine) -> u32 {
    machine.speaker().as_ref().unwrap().frequency()
}

fn note(machine: &Machine) -> u32 {
    machine.notes().as_ref().unwrap().get_note()
}

#[test]
fn nothing_is_there_before_it_is_initialised() {
    let machine = Machine::new();
    assert!(machine.rand().is_none());
    assert!(machine.display().is_none());
    assert!(machine.notes().is_none());
    assert!(machine.speaker().is_none());
    assert!(!machine.pressed());
    assert_eq!(machine.get_note(), None);
    assert!(!machine.tick());
}

#[test]
fn calls_on_absent_components_do_nothing() {
    let mut machine = Machine::new();
    machine.display_idle();
    machine.display_running();
    assert_eq!(machine.speaker_start(), None);
    assert_eq!(machine.speaker_stop(), None);
    assert_eq!(machine.speaker_toggle(), None);
    assert_eq!(machine.speaker_play(440), None);
    assert_eq!(machine.notes_enable(), None);
    assert_eq!(machine.notes_disable(), None);
    machine.notes_mode(NoteMode::LFO);
    machine.notes_toggle();
    machine.notes_retime(Some(30000));
    assert!(machine.frame_timer().is_none());
    assert!(machine.frame_timer_given(Some(3)).is_none());
    assert_eq!(machine.note_timer(), NOTHING);
    assert_eq!(machine.note_timer_given(Some(440)), NOTHING);
    assert!(machine.display().is_none());
    assert!(machine.notes().is_none());
    assert!(machine.speaker().is_none());
}

#[test]
fn buttons_on_an_empty_toy_only_remember_the_press() {
    let mut machine = Machine::new();
    assert_eq!(machine.buttons(true, true), NOTHING);
    assert!(machine.pressed());
    assert_eq!(machine.buttons(false, false), NOTHING);
    assert!(!machine.pressed());
}

#[test]
fn components_start_as_they_do_alone() {
    let mut machine = Machine::new();
    machine.init_rand([1; 16]);
    let picture = machine.init_display();
    assert_eq!(picture.period, 140000);
    assert_eq!(picture.frame[0][0], 9);
    assert_eq!(picture.frame[0][1], 0);
    machine.init_notes();
    assert_eq!(machine.init_speaker(), ToneCommand::Drive(500));
    assert!(machine.rand().is_some());
    assert_eq!(machine.display().as_ref().unwrap().mode(), Mode::Idle);
    assert_eq!(machine.get_note(), Some(500));
    assert!(!machine.notes().as_ref().unwrap().is_enabled());
    assert!(machine.speaker().as_ref().unwrap().is_on());
    assert!(machine.tick());
}

#[test]
fn tick_is_acknowledged_once_the_tone_driver_is_there() {
    let mut machine = Machine::new();
    machine.init_notes();
    assert!(!machine.tick());
    machine.init_speaker();
    assert!(machine.tick());
    machine.speaker_stop();
    assert!(machine.tick());
    assert_eq!(tone_frequency(&machine), 500);
    assert!(!machine.speaker().as_ref().unwrap().is_on());
}

#[test]
fn current_frequency_does_not_depend_on_being_enabled() {
    let mut machine = whole();
    assert_eq!(machine.get_note(), Some(500));
    machine.notes_enable();
    machine.note_timer_given(Some(440));
    assert_eq!(machine.get_note(), Some(440));
    machine.notes_disable();
    assert_eq!(machine.get_note(), Some(440));
}

#[test]
fn speaker_calls_answer_with_commands() {
    let mut machine = whole();
    assert_eq!(machine.speaker_stop(), Some(ToneCommand::Silence));
    assert_eq!(machine.speaker_play(440), Some(ToneCommand::Retune(440)));
    assert_eq!(machine.speaker_start(), Some(ToneCommand::Drive(440)));
    assert_eq!(machine.speaker_toggle(), Some(ToneCommand::Silence));
    assert_eq!(machine.speaker_toggle(), Some(ToneCommand::Drive(440)));
}

#[test]
fn tone_driver_is_never_told_of_frequency_zero() {
    let mut machine = whole();
    machine.speaker_play(440);
    assert_eq!(machine.speaker_play(0), None);
    assert_eq!(tone_frequency(&machine), 440);
    machine.notes_enable();
    let actions = machine.note_timer_given(Some(0));
    assert_eq!(actions.tone, None);
    assert_eq!(actions.timer, Some(TimerCommand::Restart(200000)));
    assert_eq!(note(&machine), 0);
    assert_eq!(tone_frequency(&machine), 440);
}

#[test]
fn notes_calls_answer_with_commands() {
    let mut machine = whole();
    assert_eq!(machine.notes_enable(), Some(TimerCommand::Start(200000)));
    machine.notes_retime(Some(30000));
    assert_eq!(machine.notes_enable(), Some(TimerCommand::Start(30000)));
    assert_eq!(machine.notes_disable(), Some(TimerCommand::Mask));
    machine.notes_mode(NoteMode::LFO);
    assert_eq!(machine.notes().as_ref().unwrap().current_mode(), NoteMode::LFO);
    machine.notes_toggle();
    assert_eq!(machine.notes().as_ref().unwrap().delay(), 30000);
    machine.notes_mode(NoteMode::RandomNote);
    machine.notes_toggle();
    assert_eq!(machine.notes().as_ref().unwrap().delay(), 39303);
}

#[test]
fn enabled_scheduler_hands_its_frequency_to_the_tone_driver() {
    let mut machine = whole();
    machine.notes_enable();
    let actions = machine.note_timer_given(Some(440));
    assert_eq!(actions.timer, Some(TimerCommand::Restart(200000)));
    assert_eq!(actions.tone, Some(ToneCommand::Retune(440)));
    assert_eq!(tone_frequency(&machine), 440);
    let actions = machine.note_timer_given(None);
    assert_eq!(actions.tone, Some(ToneCommand::Retune(440)));
    let actions = machine.note_timer();
    assert_eq!(actions.timer, Some(TimerCommand::Restart(200000)));
    assert_eq!(actions.tone, Some(ToneCommand::Retune(1203)));
    assert_eq!(note(&machine), 1203);
    assert_eq!(tone_frequency(&machine), 1203);
}

#[test]
fn fixed_mode_at_440_stays_at_440_over_five_fires() {
    let mut machine = whole();
    machine.notes_enable();
    machine.note_timer_given(Some(440));
    machine.notes_mode(NoteMode::LFO);
    for _ in 0..5 {
        let actions = machine.note_timer();
        assert_eq!(actions.tone, Some(ToneCommand::Retune(440)));
        assert_eq!(actions.timer, Some(TimerCommand::Restart(200000)));
        assert_eq!(note(&machine), 440);
        assert_eq!(tone_frequency(&machine), 440);
    }
    for draw in [Some(300u32), Some(1399), None, Some(0), Some(441)] {
        machine.note_timer_given(draw);
        assert_eq!(note(&machine), 440);
        assert_eq!(tone_frequency(&machine), 440);
    }
}

#[test]
fn disabled_scheduler_pushes_no_drawn_frequency() {
    let mut machine = whole();
    machine.notes_enable();
    let fired = machine.note_timer();
    let first = note(&machine);
    assert_eq!(first, 1203);
    assert_eq!(fired.tone, Some(ToneCommand::Retune(first)));
    assert_eq!(machine.notes_disable(), Some(TimerCommand::Mask));
    assert_eq!(tone_frequency(&machine), first);
    for _ in 0..5 {
        let actions = machine.note_timer();
        assert_eq!(actions.timer, None);
        assert_eq!(actions.tone, Some(ToneCommand::Retune(FALLBACK_NOTE)));
        assert_eq!(note(&machine), first);
        assert_eq!(tone_frequency(&machine), 500);
    }
    for draw in [Some(301u32), Some(1399), None] {
        let actions = machine.note_timer_given(draw);
        assert_eq!(actions.tone, Some(ToneCommand::Retune(500)));
        assert_eq!(note(&machine), first);
        assert_eq!(tone_frequency(&machine), 500);
    }
    machine.notes_enable();
    assert_eq!(machine.note_timer().tone, Some(ToneCommand::Retune(1005)));
}

#[test]
fn scheduler_without_a_tone_driver_still_runs() {
    let mut machine = Machine::new();
    machine.init_notes();
    machine.notes_enable();
    let actions = machine.note_timer_given(Some(700));
    assert_eq!(actions.timer, Some(TimerCommand::Restart(200000)));
    assert_eq!(actions.tone, None);
    assert_eq!(machine.get_note(), Some(700));
}

#[test]
fn tone_driver_without_a_scheduler_gets_the_fallback() {
    let mut machine = Machine::new();
    machine.init_speaker();
    machine.speaker_play(440);
    let actions = machine.note_timer();
    assert_eq!(actions.timer, None);
    assert_eq!(actions.tone, Some(ToneCommand::Retune(500)));
    assert_eq!(tone_frequency(&machine), 500);
}

#[test]
fn frame_timer_sweeps_while_idle() {
    let mut machine = whole();
    let picture = machine.frame_timer().unwrap();
    assert_eq!(picture.period, 140000);
    assert_eq!(picture.frame[1][0], 9);
    assert_eq!(picture.frame[0][0], 7);
    assert_eq!(machine.display().as_ref().unwrap().head(), (1, 0));
    let picture = machine.frame_timer_given(Some(24)).unwrap();
    assert_eq!(picture.frame[2][0], 9);
    assert_eq!(machine.display().as_ref().unwrap().head(), (2, 0));
}

#[test]
fn frame_timer_jumps_while_running() {
    let mut machine = whole();
    machine.display_running();
    let picture = machine.frame_timer_given(Some(12)).unwrap();
    assert_eq!(picture.period, 80000);
    assert_eq!(picture.frame[2][2], 9);
    let picture = machine.frame_timer().unwrap();
    assert_eq!(machine.display().as_ref().unwrap().head(), (3, 2));
    assert_eq!(picture.frame[3][2], 9);
    assert_eq!(picture.frame[2][2], 7);
    machine.display_idle();
    let picture = machine.frame_timer().unwrap();
    assert_eq!(picture.period, 140000);
    assert_eq!(machine.display().as_ref().unwrap().head(), (4, 2));
}

#[test]
fn frame_timer_without_a_source_fades_while_running() {
    let mut machine = Machine::new();
    machine.init_display();
    machine.display_running();
    machine.frame_timer_given(Some(24));
    let picture = machine.frame_timer().unwrap();
    assert_eq!(
        machine.display().as_ref().unwrap().trail(),
        [(0, 0), (0, 0), (0, 0), (4, 4), (4, 4)]
    );
    assert_eq!(picture.frame[4][4], 9);
    assert_eq!(picture.frame[0][0], 5);
}

#[test]
fn first_button_engages_with_drawn_frequencies() {
    let mut machine = whole();
    machine.speaker_stop();
    let actions = machine.buttons(true, false);
    assert_eq!(actions.timer, Some(TimerCommand::Start(200000)));
    assert_eq!(actions.tone, Some(ToneCommand::Drive(500)));
    assert!(machine.pressed());
    assert_eq!(machine.display().as_ref().unwrap().mode(), Mode::Running);
    assert_eq!(machine.display().as_ref().unwrap().delay(), 80000);
    assert!(machine.notes().as_ref().unwrap().is_enabled());
    assert_eq!(machine.notes().as_ref().unwrap().current_mode(), NoteMode::RandomNote);
    assert!(machine.speaker().as_ref().unwrap().is_on());
    assert_eq!(machine.buttons(true, false), NOTHING);
    assert_eq!(machine.buttons(false, true), NOTHING);
    assert_eq!(machine.notes().as_ref().unwrap().current_mode(), NoteMode::RandomNote);
}

#[test]
fn second_button_alone_engages_with_a_held_frequency() {
    let mut machine = whole();
    machine.speaker_stop();
    let actions = machine.buttons(false, true);
    assert_eq!(actions.timer, Some(TimerCommand::Start(200000)));
    assert_eq!(actions.tone, Some(ToneCommand::Drive(500)));
    assert_eq!(machine.notes().as_ref().unwrap().current_mode(), NoteMode::LFO);
    for _ in 0..3 {
        assert_eq!(machine.note_timer().tone, Some(ToneCommand::Retune(500)));
    }
}

#[test]
fn letting_go_releases_the_toy() {
    let mut machine = whole();
    machine.buttons(true, false);
    let actions = machine.buttons(false, false);
    assert_eq!(actions.timer, Some(TimerCommand::Mask));
    assert_eq!(actions.tone, Some(ToneCommand::Silence));
    assert!(!machine.pressed());
    assert_eq!(machine.display().as_ref().unwrap().mode(), Mode::Idle);
    assert!(!machine.notes().as_ref().unwrap().is_enabled());
    assert!(!machine.speaker().as_ref().unwrap().is_on());
    assert_eq!(machine.buttons(false, false), NOTHING);
    assert_eq!(machine.display().as_ref().unwrap().mode(), Mode::Idle);
}

#[test]
fn both_buttons_draw_a_period_at_every_poll() {
    let mut machine = whole();
    let actions = machine.buttons(true, true);
    assert_eq!(actions.timer, Some(TimerCommand::Start(200000)));
    assert_eq!(machine.notes().as_ref().unwrap().delay(), 39303);
    assert_eq!(machine.buttons(true, true), NOTHING);
    assert_eq!(machine.notes().as_ref().unwrap().delay(), 93305);
    assert_eq!(machine.buttons_given(true, true, Some(30000)), NOTHING);
    assert_eq!(machine.notes().as_ref().unwrap().delay(), 30000);
    assert_eq!(machine.buttons_given(true, false, Some(40000)), NOTHING);
    assert_eq!(machine.notes().as_ref().unwrap().delay(), 30000);
    let fired = machine.note_timer_given(Some(440));
    assert_eq!(fired.timer, Some(TimerCommand::Restart(30000)));
}

#[test]
fn both_buttons_do_not_draw_for_a_held_frequency() {
    let mut machine = whole();
    machine.buttons(false, true);
    machine.buttons(true, true);
    assert_eq!(machine.notes().as_ref().unwrap().current_mode(), NoteMode::LFO);
    assert_eq!(machine.notes().as_ref().unwrap().delay(), 200000);
    machine.buttons_given(true, true, Some(30000));
    assert_eq!(machine.notes().as_ref().unwrap().delay(), 200000);
    machine.notes_mode(NoteMode::RandomNote);
    machine.buttons(true, true);
    assert_eq!(machine.notes().as_ref().unwrap().delay(), 39303);
}

#[test]
fn reseeding_replaces_the_source() {
    let mut machine = whole();
    machine.notes_toggle();
    machine.notes_toggle();
    machine.init_rand([0; 16]);
    machine.notes_toggle();
    assert_eq!(machine.notes().as_ref().unwrap().delay(), 39303);
}
