//! The frequency scheduler: on each fire of its timer it settles the next
//! tone frequency, held or drawn afresh.

use crate::rand::drew_once;
use crate::rand::Rand;
use vstd::prelude::*;

verus! {

/// Frequency, in hertz, that the scheduler starts with.
pub const INITIAL_NOTE: u32 = 500;

/// Timer period that the scheduler starts with.
pub const INITIAL_PERIOD: u32 = 200000;

/// Offset of a frequency draw.
pub const NOTE_LOW: u32 = 300;

/// Bound that every drawn frequency lies below.
pub const NOTE_HIGH: u32 = 1400;

/// Offset of a period draw.
pub const PERIOD_LOW: u32 = 25000;

/// Bound that every drawn period lies below.
pub const PERIOD_HIGH: u32 = 100000;

/// How the scheduler comes by its frequency.
#[derive(Clone, Copy, PartialEq, Eq, Structural, Debug)]
pub enum NoteMode {
    /// The frequency is held; nothing is drawn.
    LFO,
    /// The frequency is drawn afresh on every fire.
    RandomNote,
}

/// What can be seen of a scheduler.
pub struct NotesView {
    pub mode: NoteMode,
    pub freq: u32,
    pub delay: u32,
    pub enabled: bool,
}

impl NotesView {
    /// The scheduler set to come by its frequency in another way.
    pub open spec fn in_mode(self, mode: NoteMode) -> NotesView {
        NotesView { mode, ..self }
    }

    /// The scheduler enabled or disabled.
    pub open spec fn switched(self, enabled: bool) -> NotesView {
        NotesView { enabled, ..self }
    }

    /// Whether a fire of the timer draws a new frequency.
    pub open spec fn redraws(self) -> bool {
        self.enabled && self.mode == NoteMode::RandomNote
    }

    /// The scheduler after a fire of its timer, given what was drawn for
    /// it: the draw becomes the frequency where the scheduler redraws and
    /// something was drawn, and nothing changes otherwise.
    pub open spec fn updated(self, drawn: Option<u32>) -> NotesView {
        match drawn {
            Some(freq) if self.redraws() => NotesView { freq, ..self },
            _ => self,
        }
    }

    /// The frequency that a fire of the timer yields: that of the scheduler
    /// after the fire while it is enabled, and none while it is not.
    pub open spec fn note(self, drawn: Option<u32>) -> Option<u32> {
        if self.enabled {
            Some(self.updated(drawn).freq)
        } else {
            None
        }
    }

    /// The scheduler after its period was put to the draw: the draw becomes
    /// the period where frequencies are drawn too and something was drawn,
    /// and nothing changes otherwise.
    pub open spec fn retimed(self, drawn: Option<u32>) -> NotesView {
        match drawn {
            Some(delay) if self.mode == NoteMode::RandomNote => NotesView { delay, ..self },
            _ => self,
        }
    }
}

/// The frequency scheduler.
pub struct Notes {
    mode: NoteMode,
    freq: u32,
    delay: u32,
    enabled: bool,
}

impl View for Notes {
    type V = NotesView;

    closed spec fn view(&self) -> NotesView {
        NotesView { mode: self.mode, freq: self.freq, delay: self.delay, enabled: self.enabled }
    }
}

impl Notes {
    /// Makes the scheduler: it draws its frequencies, holds
    /// [`INITIAL_NOTE`] and [`INITIAL_PERIOD`], and is not enabled.
    pub fn init() -> (notes: Notes)
        ensures
            notes@ == (NotesView {
                mode: NoteMode::RandomNote,
                freq: INITIAL_NOTE,
                delay: INITIAL_PERIOD,
                enabled: false,
            }),
    {
        Notes {
            mode: NoteMode::RandomNote,
            freq: INITIAL_NOTE,
            delay: INITIAL_PERIOD,
            enabled: false,
        }
    }

    /// The last frequency, whether the scheduler is enabled or not.
    pub fn get_note(&self) -> (freq: u32)
        ensures
            freq == self@.freq,
    {
        self.freq
    }

    /// The period that the timer is armed with.
    pub fn delay(&self) -> (delay: u32)
        ensures
            delay == self@.delay,
    {
        self.delay
    }

    /// Whether the scheduler is enabled.
    pub fn is_enabled(&self) -> (enabled: bool)
        ensures
            enabled == self@.enabled,
    {
        self.enabled
    }

    /// How the scheduler comes by its frequency.
    pub fn current_mode(&self) -> (mode: NoteMode)
        ensures
            mode == self@.mode,
    {
        self.mode
    }

    /// Sets how the scheduler comes by its frequency.
    pub fn mode(&mut self, new_mode: NoteMode)
        ensures
            final(self)@ == old(self)@.in_mode(new_mode),
    {
        self.mode = new_mode;
    }

    /// Enables the scheduler. Returns the period that the timer is to be
    /// armed with, its interrupt enabled.
    pub fn enable(&mut self) -> (period: u32)
        ensures
            final(self)@ == old(self)@.switched(true),
            period == old(self)@.delay,
    {
        self.enabled = true;
        self.delay
    }

    /// Disables the scheduler. The interrupt of its timer is to be
    /// disabled.
    pub fn disable(&mut self)
        ensures
            final(self)@ == old(self)@.switched(false),
    {
        self.enabled = false;
    }

    /// Handles a fire of the timer, given what was drawn from the entropy
    /// source for it: a frequency, or nothing where there is no source or
    /// none is asked.
    ///
    /// Where a frequency is returned the timer is to be armed again with
    /// [`Notes::delay`].
    pub fn step(&mut self, drawn: Option<u32>) -> (note: Option<u32>)
        ensures
            final(self)@ == old(self)@.updated(drawn),
            note == old(self)@.note(drawn),
    {
        if self.enabled {
            match self.mode {
                NoteMode::LFO => (),
                NoteMode::RandomNote => {
                    if let Some(freq) = drawn {
                        self.freq = freq;
                    }
                },
            }
            Some(self.freq)
        } else {
            None
        }
    }

    /// Handles a fire of the timer. While the scheduler is enabled and
    /// draws its frequencies, a new one is drawn below [`NOTE_HIGH`]; it is
    /// kept where there is no entropy source.
    ///
    /// The source is drawn from once where the scheduler redraws and not at
    /// all where it does not. Where a frequency is returned the timer is to
    /// be armed again with [`Notes::delay`].
    pub fn update(&mut self, rand: &mut Option<Rand>) -> (note: Option<u32>)
        ensures
            !old(self)@.redraws() || *old(rand) is None ==> {
                &&& final(self)@ == old(self)@
                &&& *final(rand) == *old(rand)
            },
            old(self)@.redraws() && *old(rand) is Some ==> {
                &&& drew_once(*old(rand), *final(rand))
                &&& final(self)@.freq < NOTE_HIGH
                &&& final(self)@ == old(self)@.updated(Some(final(self)@.freq))
            },
            note == if old(self)@.enabled {
                Some(final(self)@.freq)
            } else {
                None
            },
    {
        let drawn: Option<u32> = if self.enabled {
            match self.mode {
                NoteMode::LFO => None,
                NoteMode::RandomNote => match rand {
                    Some(source) => Some(source.rand_u32(NOTE_LOW, NOTE_HIGH)),
                    None => None,
                },
            }
        } else {
            None
        };
        self.step(drawn)
    }

    /// Puts the period to the draw, given what was drawn from the entropy
    /// source: a period, or nothing where there is no source or none is
    /// asked. A scheduler that holds its frequency holds its period too.
    pub fn retime(&mut self, drawn: Option<u32>)
        ensures
            final(self)@ == old(self)@.retimed(drawn),
    {
        match self.mode {
            NoteMode::LFO => (),
            NoteMode::RandomNote => {
                if let Some(delay) = drawn {
                    self.delay = delay;
                }
            },
        }
    }

    /// Draws a new period below [`PERIOD_HIGH`] while the scheduler draws
    /// its frequencies; the period is kept where it holds them, or where
    /// there is no entropy source. The timer takes the new period when it
    /// is next armed.
    ///
    /// The source is drawn from once where the scheduler draws its
    /// frequencies and not at all where it holds them.
    pub fn toggle(&mut self, rand: &mut Option<Rand>)
        ensures
            old(self)@.mode == NoteMode::LFO || *old(rand) is None ==> {
                &&& final(self)@ == old(self)@
                &&& *final(rand) == *old(rand)
            },
            old(self)@.mode == NoteMode::RandomNote && *old(rand) is Some ==> {
                &&& drew_once(*old(rand), *final(rand))
                &&& final(self)@.delay < PERIOD_HIGH
                &&& final(self)@ == old(self)@.retimed(Some(final(self)@.delay))
            },
    {
        let drawn: Option<u32> = match self.mode {
            NoteMode::LFO => None,
            NoteMode::RandomNote => match rand {
                Some(source) => Some(source.rand_u32(PERIOD_LOW, PERIOD_HIGH)),
                None => None,
            },
        };
        self.retime(drawn)
    }
}

} // verus!
