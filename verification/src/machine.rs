//! The toy as a whole: its four components, each absent until it is
//! initialised, the interrupts that drive them and the two buttons.
//!
//! A call on a component that is not there yet does nothing.

use crate::display::Display;
use crate::display::DisplayView;
use crate::display::Frame;
use crate::display::Mode;
use crate::display::lemma_shown_single_cell;
use crate::display::shows;
use crate::display::CELLS;
use crate::display::IDLE_DELAY;
use crate::notes::NoteMode;
use crate::notes::Notes;
use crate::notes::NotesView;
use crate::notes::INITIAL_NOTE;
use crate::notes::INITIAL_PERIOD;
use crate::notes::NOTE_HIGH;
use crate::notes::PERIOD_HIGH;
use crate::rand::drew_once;
use crate::rand::Rand;
use crate::rand::RandView;
use crate::speaker::Speaker;
use crate::speaker::SpeakerView;
use crate::speaker::ToneCommand;
use crate::speaker::INITIAL_FREQUENCY;
use vstd::prelude::*;

verus! {

/// Frequency, in hertz, that the tone driver is handed where the scheduler
/// yields none.
pub const FALLBACK_NOTE: u32 = 500;

/// What the timer of the scheduler is to be told after a call.
#[derive(Clone, Copy, PartialEq, Eq, Structural, Debug)]
pub enum TimerCommand {
    /// Enable the interrupt and start the timer with this period.
    Start(u32),
    /// Acknowledge the event and start the timer again with this period.
    Restart(u32),
    /// Disable the interrupt.
    Mask,
}

/// What the hardware of the sound is to be told after a call.
#[derive(Clone, Copy, PartialEq, Eq, Structural, Debug)]
pub struct Actions {
    /// For the timer of the scheduler.
    pub timer: Option<TimerCommand>,
    /// For the waveform generator.
    pub tone: Option<ToneCommand>,
}

/// What the hardware of the display is to be told after a frame: the
/// picture to show and the period to start the frame timer with, its event
/// acknowledged.
#[derive(Clone, Copy, Debug)]
pub struct Picture {
    pub frame: Frame,
    pub period: u32,
}

/// A component that may not be there yet, after a change to it.
pub open spec fn changed<V>(slot: Option<V>, change: spec_fn(V) -> V) -> Option<V> {
    match slot {
        Some(v) => Some(change(v)),
        None => None,
    }
}

/// What can be seen of a component that may not be there yet.
pub open spec fn seen<T: View>(slot: Option<T>) -> Option<T::V> {
    match slot {
        Some(t) => Some(t@),
        None => None,
    }
}

/// What can be seen of the toy: each component, if it is there, and whether
/// a button was down when the buttons were last read. The entropy source
/// stands here as it is, generator and all, so that a call that leaves the
/// view as it was has not touched the generator.
pub struct MachineView {
    pub rand: Option<Rand>,
    pub display: Option<DisplayView>,
    pub notes: Option<NotesView>,
    pub speaker: Option<SpeakerView>,
    pub pressed: bool,
}

impl MachineView {
    /// Whether a fire of the scheduler's timer draws a new frequency.
    pub open spec fn redraws(self) -> bool {
        self.notes matches Some(n) && n.redraws()
    }

    /// Whether a frame draws a new head.
    pub open spec fn jumps(self) -> bool {
        self.display matches Some(d) && d.mode == Mode::Running
    }

    /// The frequency that a fire of the scheduler's timer hands to the tone
    /// driver: what the scheduler yields, and [`FALLBACK_NOTE`] where it
    /// yields nothing or is not there.
    pub open spec fn handed(self, drawn: Option<u32>) -> u32 {
        match self.notes {
            Some(n) => match n.note(drawn) {
                Some(freq) => freq,
                None => FALLBACK_NOTE,
            },
            None => FALLBACK_NOTE,
        }
    }

    /// The toy after a fire of the scheduler's timer, given what was drawn
    /// for it. The tone driver plays what it is handed, but for a frequency
    /// of 0, which it is not told of.
    pub open spec fn note_fired(self, drawn: Option<u32>) -> MachineView {
        let freq = self.handed(drawn);
        MachineView {
            notes: changed(self.notes, |n: NotesView| n.updated(drawn)),
            speaker: if freq >= 1 {
                changed(self.speaker, |s: SpeakerView| s.played(freq))
            } else {
                self.speaker
            },
            ..self
        }
    }

    /// What the hardware is told after a fire of the scheduler's timer.
    pub open spec fn note_actions(self, drawn: Option<u32>) -> Actions {
        Actions {
            timer: match self.notes {
                Some(n) if n.enabled => Some(TimerCommand::Restart(n.delay)),
                _ => None,
            },
            tone: if self.speaker is Some && self.handed(drawn) >= 1 {
                Some(ToneCommand::Retune(self.handed(drawn)))
            } else {
                None
            },
        }
    }

    /// The toy after a fire of the frame timer, given what was drawn for
    /// it.
    pub open spec fn frame_fired(self, cell: Option<u8>) -> MachineView {
        MachineView { display: changed(self.display, |d: DisplayView| d.advanced(cell)), ..self }
    }

    /// The toy after one fire of the scheduler's timer for each draw of
    /// `drawn`, in turn.
    pub open spec fn note_fired_all(self, drawn: Seq<Option<u32>>) -> MachineView
        decreases drawn.len(),
    {
        if drawn.len() == 0 {
            self
        } else {
            self.note_fired_all(drawn.drop_last()).note_fired(drawn.last())
        }
    }

    /// The toy after the buttons were let go: the display idles, the
    /// scheduler is disabled and the tone driver stopped.
    pub open spec fn released(self) -> MachineView {
        MachineView {
            display: changed(self.display, |d: DisplayView| d.in_mode(Mode::Idle)),
            notes: changed(self.notes, |n: NotesView| n.switched(false)),
            speaker: changed(self.speaker, |s: SpeakerView| s.stopped()),
            pressed: false,
            ..self
        }
    }

    /// The toy after a button went down: the display runs, the tone driver
    /// is started and the scheduler enabled. With the first button down the
    /// scheduler draws its frequencies, with the second alone it holds
    /// them.
    pub open spec fn engaged(self, a: bool) -> MachineView {
        let mode = if a {
            NoteMode::RandomNote
        } else {
            NoteMode::LFO
        };
        MachineView {
            display: changed(self.display, |d: DisplayView| d.in_mode(Mode::Running)),
            notes: changed(self.notes, |n: NotesView| n.switched(true).in_mode(mode)),
            speaker: changed(self.speaker, |s: SpeakerView| s.started()),
            pressed: true,
            ..self
        }
    }

    /// The toy after the buttons were read, before any draw: it is engaged
    /// when a button is first found down, released when both are first
    /// found up, and left alone otherwise.
    pub open spec fn settled(self, a: bool, b: bool) -> MachineView {
        if a || b {
            if self.pressed {
                self
            } else {
                self.engaged(a)
            }
        } else {
            if self.pressed {
                self.released()
            } else {
                self
            }
        }
    }

    /// Whether the scheduler draws a new period when it is asked to.
    pub open spec fn draws_period(self) -> bool {
        self.notes matches Some(n) && n.mode == NoteMode::RandomNote
    }

    /// The toy after the period of the scheduler was put to the draw, given
    /// what was drawn.
    pub open spec fn retimed(self, drawn: Option<u32>) -> MachineView {
        MachineView { notes: changed(self.notes, |n: NotesView| n.retimed(drawn)), ..self }
    }

    /// The toy after the buttons were read, given what was drawn: with both
    /// buttons down the period of the scheduler is put to the draw.
    pub open spec fn polled(self, a: bool, b: bool, drawn: Option<u32>) -> MachineView {
        if a && b {
            self.settled(a, b).retimed(drawn)
        } else {
            self.settled(a, b)
        }
    }

    /// Whether reading the buttons draws a new period.
    pub open spec fn retimes(self, a: bool, b: bool) -> bool {
        a && b && self.settled(a, b).draws_period()
    }

    /// What the hardware is told after the buttons were read.
    pub open spec fn poll_actions(self, a: bool, b: bool) -> Actions {
        if self.pressed == (a || b) {
            Actions { timer: None, tone: None }
        } else if self.pressed {
            Actions {
                timer: if self.notes is Some {
                    Some(TimerCommand::Mask)
                } else {
                    None
                },
                tone: if self.speaker is Some {
                    Some(ToneCommand::Silence)
                } else {
                    None
                },
            }
        } else {
            Actions {
                timer: match self.notes {
                    Some(n) => Some(TimerCommand::Start(n.delay)),
                    None => None,
                },
                tone: match self.speaker {
                    Some(s) => Some(ToneCommand::Drive(s.frequency)),
                    None => None,
                },
            }
        }
    }
}

/// The toy.
pub struct Machine {
    rand: Option<Rand>,
    display: Option<Display>,
    notes: Option<Notes>,
    speaker: Option<Speaker>,
    pressed: bool,
}

impl View for Machine {
    type V = MachineView;

    closed spec fn view(&self) -> MachineView {
        MachineView {
            rand: self.rand,
            display: seen(self.display),
            notes: seen(self.notes),
            speaker: seen(self.speaker),
            pressed: self.pressed,
        }
    }
}

impl Machine {
    /// The toy before anything is initialised: no component is there and
    /// no button is held.
    pub fn new() -> (machine: Machine)
        ensures
            machine@ == (MachineView {
                rand: None,
                display: None,
                notes: None,
                speaker: None,
                pressed: false,
            }),
    {
        Machine { rand: None, display: None, notes: None, speaker: None, pressed: false }
    }

    /// Makes the entropy source from 16 bytes of seed material. A source
    /// that was there is replaced.
    pub fn init_rand(&mut self, seed: [u8; 16])
        ensures
            final(self)@.rand matches Some(r) && r@ == (RandView { seed: seed@, drawn: 0 }),
            final(self)@ == (MachineView { rand: final(self)@.rand, ..old(self)@ }),
    {
        self.rand = Some(Rand::init(seed));
    }

    /// Makes the display and returns the first picture, to be shown before
    /// the frame timer is started with the period given.
    pub fn init_display(&mut self) -> (picture: Picture)
        ensures
            final(self)@ == (MachineView {
                display: Some(
                    DisplayView {
                        mode: Mode::Idle,
                        trail: Seq::new(5, |i: int| (0u8, 0u8)),
                        delay: IDLE_DELAY,
                    },
                ),
                ..old(self)@
            }),
            forall|x: int, y: int|
                0 <= x < 5 && 0 <= y < 5 ==> (#[trigger] picture.frame[x][y]) == if x == 0 && y
                    == 0 {
                    9u8
                } else {
                    0u8
                },
            picture.period == IDLE_DELAY,
    {
        let display = Display::init();
        let picture = Picture { frame: display.frame(), period: display.delay() };
        proof {
            lemma_shown_single_cell(picture.frame, display@.trail);
        }
        self.display = Some(display);
        picture
    }

    /// Makes the scheduler, which is not enabled yet.
    pub fn init_notes(&mut self)
        ensures
            final(self)@ == (MachineView {
                notes: Some(
                    NotesView {
                        mode: NoteMode::RandomNote,
                        freq: INITIAL_NOTE,
                        delay: INITIAL_PERIOD,
                        enabled: false,
                    },
                ),
                ..old(self)@
            }),
    {
        self.notes = Some(Notes::init());
    }

    /// Makes the tone driver, which starts enabled. Returns what the
    /// waveform generator is to be told once it is configured.
    pub fn init_speaker(&mut self) -> (command: ToneCommand)
        ensures
            final(self)@ == (MachineView {
                speaker: Some(SpeakerView { frequency: INITIAL_FREQUENCY, enabled: true }),
                ..old(self)@
            }),
            command == ToneCommand::Drive(INITIAL_FREQUENCY),
    {
        let speaker = Speaker::init();
        let command = ToneCommand::Drive(speaker.frequency());
        self.speaker = Some(speaker);
        command
    }

    /// The entropy source, if it is there.
    pub fn rand(&self) -> (rand: &Option<Rand>)
        ensures
            *rand == self@.rand,
    {
        &self.rand
    }

    /// The display, if it is there.
    pub fn display(&self) -> (display: &Option<Display>)
        ensures
            seen(*display) == self@.display,
    {
        &self.display
    }

    /// The scheduler, if it is there.
    pub fn notes(&self) -> (notes: &Option<Notes>)
        ensures
            seen(*notes) == self@.notes,
    {
        &self.notes
    }

    /// The tone driver, if it is there.
    pub fn speaker(&self) -> (speaker: &Option<Speaker>)
        ensures
            seen(*speaker) == self@.speaker,
    {
        &self.speaker
    }

    /// Whether a button was down when the buttons were last read.
    pub fn pressed(&self) -> (pressed: bool)
        ensures
            pressed == self@.pressed,
    {
        self.pressed
    }

    /// The last frequency of the scheduler, if the scheduler is there,
    /// whether it is enabled or not.
    pub fn get_note(&self) -> (note: Option<u32>)
        ensures
            note == match self@.notes {
                Some(n) => Some(n.freq),
                None => None,
            },
    {
        match &self.notes {
            Some(n) => Some(n.get_note()),
            None => None,
        }
    }

    /// Sets the display into its idle mode.
    pub fn display_idle(&mut self)
        ensures
            final(self)@ == (MachineView {
                display: changed(old(self)@.display, |d: DisplayView| d.in_mode(Mode::Idle)),
                ..old(self)@
            }),
    {
        match &mut self.display {
            Some(d) => d.idle(),
            None => (),
        }
    }

    /// Sets the display into its running mode.
    pub fn display_running(&mut self)
        ensures
            final(self)@ == (MachineView {
                display: changed(old(self)@.display, |d: DisplayView| d.in_mode(Mode::Running)),
                ..old(self)@
            }),
    {
        match &mut self.display {
            Some(d) => d.running(),
            None => (),
        }
    }

    /// Drives the tone at the stored frequency.
    pub fn speaker_start(&mut self) -> (command: Option<ToneCommand>)
        ensures
            final(self)@ == (MachineView {
                speaker: changed(old(self)@.speaker, |s: SpeakerView| s.started()),
                ..old(self)@
            }),
            command == match old(self)@.speaker {
                Some(s) => Some(ToneCommand::Drive(s.frequency)),
                None => None,
            },
    {
        match &mut self.speaker {
            Some(s) => Some(s.start()),
            None => None,
        }
    }

    /// Stops the tone.
    pub fn speaker_stop(&mut self) -> (command: Option<ToneCommand>)
        ensures
            final(self)@ == (MachineView {
                speaker: changed(old(self)@.speaker, |s: SpeakerView| s.stopped()),
                ..old(self)@
            }),
            command == match old(self)@.speaker {
                Some(s) => Some(ToneCommand::Silence),
                None => None,
            },
    {
        match &mut self.speaker {
            Some(s) => Some(s.stop()),
            None => None,
        }
    }

    /// Stops the tone if it is driven and drives it if it is not.
    pub fn speaker_toggle(&mut self) -> (command: Option<ToneCommand>)
        ensures
            final(self)@ == (MachineView {
                speaker: changed(old(self)@.speaker, |s: SpeakerView| s.toggled()),
                ..old(self)@
            }),
            command == match old(self)@.speaker {
                Some(s) => Some(s.toggled().switch()),
                None => None,
            },
    {
        match &mut self.speaker {
            Some(s) => Some(s.toggle()),
            None => None,
        }
    }

    /// Retunes the tone to a frequency, which the tone driver stores. A
    /// frequency of 0 is none: the tone driver is not told of it.
    pub fn speaker_play(&mut self, freq: u32) -> (command: Option<ToneCommand>)
        ensures
            final(self)@ == (MachineView {
                speaker: if freq >= 1 {
                    changed(old(self)@.speaker, |s: SpeakerView| s.played(freq))
                } else {
                    old(self)@.speaker
                },
                ..old(self)@
            }),
            command == if old(self)@.speaker is Some && freq >= 1 {
                Some(ToneCommand::Retune(freq))
            } else {
                None
            },
    {
        match &mut self.speaker {
            Some(s) => if freq >= 1 {
                Some(s.play(freq))
            } else {
                None
            },
            None => None,
        }
    }

    /// Enables the scheduler.
    pub fn notes_enable(&mut self) -> (command: Option<TimerCommand>)
        ensures
            final(self)@ == (MachineView {
                notes: changed(old(self)@.notes, |n: NotesView| n.switched(true)),
                ..old(self)@
            }),
            command == match old(self)@.notes {
                Some(n) => Some(TimerCommand::Start(n.delay)),
                None => None,
            },
    {
        match &mut self.notes {
            Some(n) => Some(TimerCommand::Start(n.enable())),
            None => None,
        }
    }

    /// Disables the scheduler.
    pub fn notes_disable(&mut self) -> (command: Option<TimerCommand>)
        ensures
            final(self)@ == (MachineView {
                notes: changed(old(self)@.notes, |n: NotesView| n.switched(false)),
                ..old(self)@
            }),
            command == match old(self)@.notes {
                Some(n) => Some(TimerCommand::Mask),
                None => None,
            },
    {
        match &mut self.notes {
            Some(n) => {
                n.disable();
                Some(TimerCommand::Mask)
            },
            None => None,
        }
    }

    /// Sets how the scheduler comes by its frequency.
    pub fn notes_mode(&mut self, mode: NoteMode)
        ensures
            final(self)@ == (MachineView {
                notes: changed(old(self)@.notes, |n: NotesView| n.in_mode(mode)),
                ..old(self)@
            }),
    {
        match &mut self.notes {
            Some(n) => n.mode(mode),
            None => (),
        }
    }

    /// Puts the period of the scheduler to the draw, given what was drawn.
    pub fn notes_retime(&mut self, drawn: Option<u32>)
        ensures
            final(self)@ == old(self)@.retimed(drawn),
    {
        match &mut self.notes {
            Some(n) => n.retime(drawn),
            None => (),
        }
    }

    /// Draws a new period for the scheduler, below [`PERIOD_HIGH`], while
    /// it draws its frequencies.
    ///
    /// The entropy source is drawn from once where the scheduler is there
    /// and draws its frequencies, and not at all otherwise.
    pub fn notes_toggle(&mut self)
        ensures
            !old(self)@.draws_period() || old(self)@.rand is None ==> final(self)@ == old(self)@,
            old(self)@.draws_period() && old(self)@.rand is Some ==> {
                &&& drew_once(old(self)@.rand, final(self)@.rand)
                &&& exists|period: u32|
                    period < PERIOD_HIGH && final(self)@ == (MachineView {
                        rand: final(self)@.rand,
                        ..#[trigger] old(self)@.retimed(Some(period))
                    })
            },
    {
        let ghost before = self@;
        match &mut self.notes {
            Some(n) => n.toggle(&mut self.rand),
            None => (),
        }
        proof {
            if before.draws_period() && before.rand is Some {
                let period = self@.notes->0.delay;
                assert(self@ == (MachineView {
                    rand: self@.rand,
                    ..before.retimed(Some(period))
                }));
            }
        }
    }

    /// Handles a fire of the frame timer, given what was drawn from the
    /// entropy source for it: a cell index, or nothing where there is no
    /// source or none is asked. Returns what the display hardware is to be
    /// told, and nothing where there is no display.
    pub fn frame_timer_given(&mut self, cell: Option<u8>) -> (picture: Option<Picture>)
        requires
            cell matches Some(c) ==> c < CELLS,
        ensures
            final(self)@ == old(self)@.frame_fired(cell),
            match final(self)@.display {
                Some(d) => picture matches Some(p) && shows(p.frame, d.trail) && p.period
                    == d.delay,
                None => picture is None,
            },
    {
        match &mut self.display {
            Some(d) => {
                let frame = d.step(cell);
                Some(Picture { frame, period: d.delay() })
            },
            None => None,
        }
    }

    /// Handles a fire of the frame timer. Returns what the display hardware
    /// is to be told, and nothing where there is no display.
    ///
    /// The entropy source is drawn from once where the display is there and
    /// running, and not at all otherwise.
    pub fn frame_timer(&mut self) -> (picture: Option<Picture>)
        ensures
            !old(self)@.jumps() || old(self)@.rand is None ==> final(self)@ == old(
                self,
            )@.frame_fired(None),
            old(self)@.jumps() && old(self)@.rand is Some ==> {
                &&& drew_once(old(self)@.rand, final(self)@.rand)
                &&& exists|c: u8|
                    c < CELLS && final(self)@ == (MachineView {
                        rand: final(self)@.rand,
                        ..#[trigger] old(self)@.frame_fired(Some(c))
                    })
            },
            match final(self)@.display {
                Some(d) => picture matches Some(p) && shows(p.frame, d.trail) && p.period
                    == d.delay,
                None => picture is None,
            },
    {
        let ghost before = self@;
        let ghost mut cell: u8 = 0;
        let picture = match &mut self.display {
            Some(d) => {
                let ghost shown = d@;
                let frame = d.next(&mut self.rand);
                proof {
                    if shown.mode == Mode::Running && before.rand is Some {
                        cell = choose|c: u8| c < CELLS && d@ == #[trigger] shown.advanced(Some(c));
                    }
                }
                Some(Picture { frame, period: d.delay() })
            },
            None => None,
        };
        proof {
            if before.jumps() && before.rand is Some {
                assert(self@ == (MachineView {
                    rand: self@.rand,
                    ..before.frame_fired(Some(cell))
                }));
            }
        }
        picture
    }

    /// Hands the tone driver what the scheduler yielded at a fire of its
    /// timer.
    fn hand_over(&mut self, note: Option<u32>) -> (tone: Option<ToneCommand>)
        ensures
            final(self)@ == (MachineView {
                speaker: if note.unwrap_or(FALLBACK_NOTE) >= 1 {
                    changed(
                        old(self)@.speaker,
                        |s: SpeakerView| s.played(note.unwrap_or(FALLBACK_NOTE)),
                    )
                } else {
                    old(self)@.speaker
                },
                ..old(self)@
            }),
            tone == if old(self)@.speaker is Some && note.unwrap_or(FALLBACK_NOTE) >= 1 {
                Some(ToneCommand::Retune(note.unwrap_or(FALLBACK_NOTE)))
            } else {
                None
            },
    {
        self.speaker_play(note.unwrap_or(FALLBACK_NOTE))
    }

    /// Handles a fire of the scheduler's timer, given what was drawn from
    /// the entropy source for it: a frequency, or nothing where there is no
    /// source or none is asked. The scheduler settles its frequency, and
    /// the tone driver is handed it, or [`FALLBACK_NOTE`] where the
    /// scheduler yields none.
    pub fn note_timer_given(&mut self, drawn: Option<u32>) -> (actions: Actions)
        ensures
            final(self)@ == old(self)@.note_fired(drawn),
            actions == old(self)@.note_actions(drawn),
    {
        let (note, timer) = match &mut self.notes {
            Some(n) => {
                let note = n.step(drawn);
                let timer = if note.is_some() {
                    Some(TimerCommand::Restart(n.delay()))
                } else {
                    None
                };
                (note, timer)
            },
            None => (None, None),
        };
        let tone = self.hand_over(note);
        Actions { timer, tone }
    }

    /// Handles a fire of the scheduler's timer. The scheduler settles its
    /// frequency, drawing a new one below [`NOTE_HIGH`] where it redraws,
    /// and the tone driver is handed it, or [`FALLBACK_NOTE`] where the
    /// scheduler yields none.
    ///
    /// The entropy source is drawn from once where the scheduler is there
    /// and redraws, and not at all otherwise.
    pub fn note_timer(&mut self) -> (actions: Actions)
        ensures
            !old(self)@.redraws() || old(self)@.rand is None ==> {
                &&& final(self)@ == old(self)@.note_fired(None)
                &&& actions == old(self)@.note_actions(None)
            },
            old(self)@.redraws() && old(self)@.rand is Some ==> {
                &&& drew_once(old(self)@.rand, final(self)@.rand)
                &&& exists|freq: u32|
                    freq < NOTE_HIGH && final(self)@ == (MachineView {
                        rand: final(self)@.rand,
                        ..#[trigger] old(self)@.note_fired(Some(freq))
                    }) && actions == old(self)@.note_actions(Some(freq))
            },
    {
        let ghost before = self@;
        let (note, timer) = match &mut self.notes {
            Some(n) => {
                let note = n.update(&mut self.rand);
                let timer = if note.is_some() {
                    Some(TimerCommand::Restart(n.delay()))
                } else {
                    None
                };
                (note, timer)
            },
            None => (None, None),
        };
        let tone = self.hand_over(note);
        let actions = Actions { timer, tone };
        proof {
            if before.redraws() && before.rand is Some {
                let freq = self@.notes->0.freq;
                assert(self@ == (MachineView {
                    rand: self@.rand,
                    ..before.note_fired(Some(freq))
                }));
                assert(actions == before.note_actions(Some(freq)));
            }
        }
        actions
    }

    /// Handles a tick of the real-time counter. Returns whether the event
    /// is to be acknowledged, which it is where the tone driver is there.
    /// Nothing else comes of a tick.
    pub fn tick(&self) -> (acknowledge: bool)
        ensures
            acknowledge == (self@.speaker is Some),
    {
        self.speaker.is_some()
    }

    /// Takes in the state of the two buttons, before any draw.
    fn settle(&mut self, a: bool, b: bool) -> (actions: Actions)
        ensures
            final(self)@ == old(self)@.settled(a, b),
            actions == old(self)@.poll_actions(a, b),
    {
        if a || b {
            if !self.pressed {
                self.display_running();
                let tone = self.speaker_start();
                let timer = self.notes_enable();
                self.pressed = true;
                if a {
                    self.notes_mode(NoteMode::RandomNote);
                } else {
                    self.notes_mode(NoteMode::LFO);
                }
                Actions { timer, tone }
            } else {
                Actions { timer: None, tone: None }
            }
        } else {
            if self.pressed {
                self.display_idle();
                let timer = self.notes_disable();
                let tone = self.speaker_stop();
                self.pressed = false;
                Actions { timer, tone }
            } else {
                Actions { timer: None, tone: None }
            }
        }
    }

    /// Takes in the state of the two buttons, given what was drawn from the
    /// entropy source: a period, or nothing where there is no source or
    /// none is asked.
    pub fn buttons_given(&mut self, a: bool, b: bool, drawn: Option<u32>) -> (actions: Actions)
        ensures
            final(self)@ == old(self)@.polled(a, b, drawn),
            actions == old(self)@.poll_actions(a, b),
    {
        let actions = self.settle(a, b);
        if a && b {
            self.notes_retime(drawn);
        }
        actions
    }

    /// Takes in the state of the two buttons. The toy is engaged when a
    /// button is first found down and released when both are first found
    /// up; while both are down a new period is drawn for the scheduler
    /// each time.
    ///
    /// The entropy source is drawn from once where both buttons are down
    /// and the scheduler is there and draws its frequencies, and not at all
    /// otherwise.
    pub fn buttons(&mut self, a: bool, b: bool) -> (actions: Actions)
        ensures
            !old(self)@.retimes(a, b) || old(self)@.rand is None ==> final(self)@ == old(
                self,
            )@.polled(a, b, None),
            old(self)@.retimes(a, b) && old(self)@.rand is Some ==> {
                &&& drew_once(old(self)@.rand, final(self)@.rand)
                &&& exists|period: u32|
                    period < PERIOD_HIGH && final(self)@ == (MachineView {
                        rand: final(self)@.rand,
                        ..#[trigger] old(self)@.polled(a, b, Some(period))
                    })
            },
            actions == old(self)@.poll_actions(a, b),
    {
        let ghost before = self@;
        let actions = self.settle(a, b);
        if a && b {
            let ghost settled = self@;
            self.notes_toggle();
            proof {
                if settled.draws_period() && settled.rand is Some {
                    let period = choose|period: u32|
                        period < PERIOD_HIGH && self@ == (MachineView {
                            rand: self@.rand,
                            ..#[trigger] settled.retimed(Some(period))
                        });
                    assert(settled.retimed(Some(period)) == before.polled(a, b, Some(period)));
                }
            }
        }
        actions
    }
}

/// A fire of the scheduler's timer touches nothing but the frequency of the
/// scheduler and that of the tone driver: modes, periods and what is enabled
/// stay, and so do the display, the entropy source as far as it is not drawn
/// from, and the buttons. A tone driver that is well formed stays so.
pub proof fn lemma_note_fired_keeps(m: MachineView, drawn: Option<u32>)
    ensures
        m.note_fired(drawn) == (MachineView {
            notes: m.note_fired(drawn).notes,
            speaker: m.note_fired(drawn).speaker,
            ..m
        }),
        m.notes is Some <==> m.note_fired(drawn).notes is Some,
        m.speaker is Some <==> m.note_fired(drawn).speaker is Some,
        m.notes matches Some(n) ==> m.note_fired(drawn).notes->0 == (NotesView {
            freq: m.note_fired(drawn).notes->0.freq,
            ..n
        }),
        m.speaker matches Some(s) ==> m.note_fired(drawn).speaker->0.enabled == s.enabled && (
        s.wf() ==> m.note_fired(drawn).speaker->0.wf()),
{
}

/// While the scheduler is disabled, or not there, no fire of its timer
/// changes it, whatever is drawn, and the tone driver is handed
/// [`FALLBACK_NOTE`] each time: it never comes to play a frequency that was
/// drawn.
pub proof fn lemma_disabled_scheduler_stays(m: MachineView, drawn: Seq<Option<u32>>)
    requires
        m.notes matches Some(n) ==> !n.enabled,
    ensures
        forall|d: Option<u32>| #[trigger] m.handed(d) == FALLBACK_NOTE,
        forall|d: Option<u32>| (#[trigger] m.note_actions(d)).timer is None,
        m.note_fired_all(drawn) == (MachineView {
            speaker: if drawn.len() == 0 {
                m.speaker
            } else {
                changed(m.speaker, |s: SpeakerView| s.played(FALLBACK_NOTE))
            },
            ..m
        }),
    decreases drawn.len(),
{
    if drawn.len() > 0 {
        lemma_disabled_scheduler_stays(m, drawn.drop_last());
    }
}

/// While the scheduler is enabled and holds its frequency, no fire of its
/// timer changes it, whatever is drawn, and the tone driver is handed that
/// frequency each time: from the first fire on it plays it, unless the
/// frequency is 0, of which it is never told.
pub proof fn lemma_held_frequency_stays(m: MachineView, drawn: Seq<Option<u32>>)
    requires
        m.notes matches Some(n) && n.enabled && n.mode == NoteMode::LFO,
    ensures
        forall|d: Option<u32>| #[trigger] m.handed(d) == m.notes->0.freq,
        m.note_fired_all(drawn) == (MachineView {
            speaker: if drawn.len() == 0 || m.notes->0.freq == 0 {
                m.speaker
            } else {
                changed(m.speaker, |s: SpeakerView| s.played(m.notes->0.freq))
            },
            ..m
        }),
    decreases drawn.len(),
{
    if drawn.len() > 0 {
        lemma_held_frequency_stays(m, drawn.drop_last());
    }
}

} // verus!
