//! The tone driver: a square wave of one frequency that is switched on and
//! off and retuned.

use vstd::prelude::*;

verus! {

/// Frequency, in hertz, that the driver starts with.
pub const INITIAL_FREQUENCY: u32 = 500;

/// What the waveform generator is to be told after a call.
#[derive(Clone, Copy, PartialEq, Eq, Structural, Debug)]
pub enum ToneCommand {
    /// Stop the output.
    Silence,
    /// Set the period for this frequency and enable the output.
    Drive(u32),
    /// Set the period for this frequency and leave the output as it is.
    Retune(u32),
}

/// What can be seen of a tone driver.
pub struct SpeakerView {
    pub frequency: u32,
    pub enabled: bool,
}

impl SpeakerView {
    /// The frequency is one that a period can be computed for.
    pub open spec fn wf(self) -> bool {
        self.frequency >= 1
    }

    /// The driver after `start`.
    pub open spec fn started(self) -> SpeakerView {
        SpeakerView { enabled: true, ..self }
    }

    /// The driver after `stop`.
    pub open spec fn stopped(self) -> SpeakerView {
        SpeakerView { enabled: false, ..self }
    }

    /// The driver after `toggle`.
    pub open spec fn toggled(self) -> SpeakerView {
        SpeakerView { enabled: !self.enabled, ..self }
    }

    /// The driver after `play`.
    pub open spec fn played(self, frequency: u32) -> SpeakerView {
        SpeakerView { frequency, ..self }
    }

    /// The driver after `n` times `toggle`.
    pub open spec fn toggled_times(self, n: nat) -> SpeakerView
        decreases n,
    {
        if n == 0 {
            self
        } else {
            self.toggled_times((n - 1) as nat).toggled()
        }
    }

    /// What the generator is told by a call that leaves the driver enabled
    /// or not: to drive at the stored frequency, or to be silent.
    pub open spec fn switch(self) -> ToneCommand {
        if self.enabled {
            ToneCommand::Drive(self.frequency)
        } else {
            ToneCommand::Silence
        }
    }
}

/// The tone driver.
pub struct Speaker {
    fq: u32,
    is_on: bool,
}

impl View for Speaker {
    type V = SpeakerView;

    closed spec fn view(&self) -> SpeakerView {
        SpeakerView { frequency: self.fq, enabled: self.is_on }
    }
}

impl Speaker {
    #[verifier::type_invariant]
    spec fn inv(&self) -> bool {
        self@.wf()
    }

    /// Starts the driver: enabled, at [`INITIAL_FREQUENCY`].
    pub fn init() -> (speaker: Speaker)
        ensures
            speaker@ == (SpeakerView { frequency: INITIAL_FREQUENCY, enabled: true }),
            speaker@.wf(),
    {
        Speaker { fq: INITIAL_FREQUENCY, is_on: true }
    }

    /// The stored frequency, which is never 0.
    pub fn frequency(&self) -> (frequency: u32)
        ensures
            frequency == self@.frequency,
            frequency >= 1,
    {
        proof {
            use_type_invariant(self);
        }
        self.fq
    }

    /// Whether the output is driven.
    pub fn is_on(&self) -> (on: bool)
        ensures
            on == self@.enabled,
    {
        self.is_on
    }

    /// Stops the output if it is driven and drives it, at the stored
    /// frequency, if it is not.
    pub fn toggle(&mut self) -> (command: ToneCommand)
        ensures
            final(self)@ == old(self)@.toggled(),
            final(self)@.wf(),
            command == final(self)@.switch(),
    {
        proof {
            use_type_invariant(&*self);
        }
        self.is_on = !self.is_on;
        if self.is_on {
            ToneCommand::Drive(self.fq)
        } else {
            ToneCommand::Silence
        }
    }

    /// Stops the output.
    pub fn stop(&mut self) -> (command: ToneCommand)
        ensures
            final(self)@ == old(self)@.stopped(),
            final(self)@.wf(),
            command == ToneCommand::Silence,
    {
        proof {
            use_type_invariant(&*self);
        }
        self.is_on = false;
        ToneCommand::Silence
    }

    /// Drives the output at the stored frequency.
    pub fn start(&mut self) -> (command: ToneCommand)
        ensures
            final(self)@ == old(self)@.started(),
            final(self)@.wf(),
            command == ToneCommand::Drive(old(self)@.frequency),
    {
        proof {
            use_type_invariant(&*self);
        }
        self.is_on = true;
        ToneCommand::Drive(self.fq)
    }

    /// Stores a frequency and retunes the generator to it at once, whether
    /// the output is driven or not.
    pub fn play(&mut self, freq: u32) -> (command: ToneCommand)
        requires
            freq >= 1,
        ensures
            final(self)@ == old(self)@.played(freq),
            final(self)@.wf(),
            command == ToneCommand::Retune(freq),
    {
        self.fq = freq;
        ToneCommand::Retune(freq)
    }
}

/// Toggling twice changes nothing, so neither does toggling any even number
/// of times: the driver is enabled as before and holds the frequency it
/// held.
pub proof fn lemma_toggle_even(s: SpeakerView, n: nat)
    ensures
        s.toggled().toggled() == s,
        s.toggled_times(2 * n) == s,
        s.toggled_times(2 * n + 1) == s.toggled(),
    decreases n,
{
    if n > 0 {
        lemma_toggle_even(s, (n - 1) as nat);
        assert(s.toggled_times(2 * n) == s.toggled_times((2 * n - 1) as nat).toggled());
        assert(s.toggled_times((2 * n - 1) as nat) == s.toggled_times((2 * n - 2) as nat).toggled());
    } else {
        assert(s.toggled_times(1) == s.toggled_times(0).toggled());
    }
}

/// `toggle` is `stop` on a driver that is enabled and `start` on one that is
/// not, and `start` and `stop` done twice are as done once.
pub proof fn lemma_start_stop(s: SpeakerView)
    ensures
        s.toggled() == if s.enabled {
            s.stopped()
        } else {
            s.started()
        },
        s.started().started() == s.started(),
        s.stopped().stopped() == s.stopped(),
        s.started().switch() == ToneCommand::Drive(s.frequency),
        s.stopped().switch() == ToneCommand::Silence,
{
}

} // verus!
