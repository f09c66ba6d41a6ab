//! What the tuner shows and what the player has chosen: the last reading,
//! the target note and the reference pitch, with how the choices move and
//! how a deviation is graded.
//!
//! Frequencies and deviations are single-precision bit patterns (see
//! [`crate::binary32`]).

use vstd::prelude::*;
use crate::binary32::{abs, less, lt, magnitude};
use crate::note::{name_index, note_index, note_name, note_names, NOTE_COUNT};

verus! {

/// Pattern of 440 Hz, the reference pitch of A4 that a new state starts with.
pub const CONCERT_PITCH: u32 = 0x43DC_0000;

/// Pattern of 5 cents: a smaller deviation counts as in tune.
pub const PERFECT_WITHIN: u32 = 0x40A0_0000;

/// Pattern of 20 cents: a smaller deviation counts as close.
pub const CLOSE_WITHIN: u32 = 0x41A0_0000;

/// The lowest octave the target can be stepped down to.
pub const LOWEST_OCTAVE: i32 = 0;

/// The highest octave the target can be stepped up to.
pub const HIGHEST_OCTAVE: i32 = 8;

/// How far the detected pitch is from the target.
#[derive(Clone, Copy, Debug, PartialEq, Eq)]
pub enum TuningStatus {
    Perfect,
    Close,
    Far,
    NoSignal,
}

/// The last reading together with the player's choices.
pub struct UiState {
    /// Detected frequency in hertz.
    pub current_freq: Option<u32>,
    /// Name of the note nearest to the detected frequency.
    pub current_note: Option<String>,
    /// Octave of that note.
    pub current_octave: Option<i32>,
    /// Deviation of the detected frequency from the target, in cents.
    pub deviation_cents: Option<u32>,
    /// Name of the target note.
    pub target_note: String,
    /// Octave of the target note.
    pub target_octave: i32,
    /// Reference pitch of A4 in hertz.
    pub a4_freq: u32,
}

/// The grade of a deviation: by its absolute value against the two bounds,
/// and `NoSignal` where there is no deviation to grade. A NaN is below
/// neither bound and so grades as `Far`.
pub open spec fn status_of(deviation: Option<u32>) -> TuningStatus {
    match deviation {
        Some(cents) => if less(magnitude(cents), PERFECT_WITHIN) {
            TuningStatus::Perfect
        } else if less(magnitude(cents), CLOSE_WITHIN) {
            TuningStatus::Close
        } else {
            TuningStatus::Far
        },
        None => TuningStatus::NoSignal,
    }
}

/// The octave one step up, stopping at the highest.
pub open spec fn octave_above(octave: int) -> int {
    if octave + 1 < HIGHEST_OCTAVE {
        octave + 1
    } else {
        HIGHEST_OCTAVE as int
    }
}

/// The octave one step down, stopping at the lowest.
pub open spec fn octave_below(octave: int) -> int {
    if octave - 1 > LOWEST_OCTAVE {
        octave - 1
    } else {
        LOWEST_OCTAVE as int
    }
}

impl UiState {
    /// Whether the player's choices are the same in both states.
    pub open spec fn same_choices(&self, other: &UiState) -> bool {
        &&& self.target_note@ == other.target_note@
        &&& self.target_octave == other.target_octave
        &&& self.a4_freq == other.a4_freq
    }

    /// Whether the reading is the same in both states.
    pub open spec fn same_reading(&self, other: &UiState) -> bool {
        &&& self.current_freq == other.current_freq
        &&& self.current_note == other.current_note
        &&& self.current_octave == other.current_octave
        &&& self.deviation_cents == other.deviation_cents
    }

    /// No reading yet, and the target at A4 with A4 at concert pitch.
    pub fn new() -> (state: Self)
        ensures
            state.current_freq is None,
            state.current_note is None,
            state.current_octave is None,
            state.deviation_cents is None,
            state.target_note@ == note_names()[0],
            state.target_octave == 4,
            state.a4_freq == CONCERT_PITCH,
    {
        UiState {
            current_freq: None,
            current_note: None,
            current_octave: None,
            deviation_cents: None,
            target_note: note_name(0).to_owned(),
            target_octave: 4,
            a4_freq: CONCERT_PITCH,
        }
    }

    /// Grades the deviation of the last reading.
    pub fn get_tuning_status(&self) -> (status: TuningStatus)
        ensures
            status == status_of(self.deviation_cents),
    {
        match self.deviation_cents {
            Some(cents) => {
                let size: u32 = abs(cents);
                if lt(size, PERFECT_WITHIN) {
                    TuningStatus::Perfect
                } else if lt(size, CLOSE_WITHIN) {
                    TuningStatus::Close
                } else {
                    TuningStatus::Far
                }
            },
            None => TuningStatus::NoSignal,
        }
    }

    /// Takes over the outcome of a detection pass that found a pitch.
    pub fn show_reading(&mut self, frequency: u32, note: String, octave: i32, deviation: u32)
        ensures
            final(self).current_freq == Some(frequency),
            final(self).current_note == Some(note),
            final(self).current_octave == Some(octave),
            final(self).deviation_cents == Some(deviation),
            final(self).same_choices(old(self)),
    {
        self.current_freq = Some(frequency);
        self.current_note = Some(note);
        self.current_octave = Some(octave);
        self.deviation_cents = Some(deviation);
    }

    /// Takes over the outcome of a detection pass that found no pitch: the
    /// last reading is gone.
    pub fn clear_reading(&mut self)
        ensures
            final(self).current_freq is None,
            final(self).current_note is None,
            final(self).current_octave is None,
            final(self).deviation_cents is None,
            final(self).same_choices(old(self)),
    {
        self.current_freq = None;
        self.current_note = None;
        self.current_octave = None;
        self.deviation_cents = None;
    }

    /// Sets the target note. Neither the name nor the octave is checked: a
    /// name outside the chromatic sequence is kept and later counts as its
    /// first note.
    pub fn set_target_note(&mut self, name: &str, octave: i32)
        ensures
            final(self).target_note@ == name@,
            final(self).target_octave == octave,
            final(self).a4_freq == old(self).a4_freq,
            final(self).same_reading(old(self)),
    {
        self.target_note = name.to_owned();
        self.target_octave = octave;
    }

    /// Sets the reference pitch of A4. The value is not checked.
    pub fn set_reference_frequency(&mut self, hertz: u32)
        ensures
            final(self).a4_freq == hertz,
            final(self).target_note@ == old(self).target_note@,
            final(self).target_octave == old(self).target_octave,
            final(self).same_reading(old(self)),
    {
        self.a4_freq = hertz;
    }

    /// Moves the target to the next note of the chromatic sequence, from
    /// the last one round to the first.
    pub fn select_next_note(&mut self)
        ensures
            final(self).target_note@ == note_names()[(name_index(old(self).target_note@) + 1) % 12],
            final(self).target_octave == old(self).target_octave,
            final(self).a4_freq == old(self).a4_freq,
            final(self).same_reading(old(self)),
    {
        let place: usize = note_index(self.target_note.as_str());
        self.target_note = note_name((place + 1) % NOTE_COUNT).to_owned();
    }

    /// Moves the target to the previous note of the chromatic sequence,
    /// from the first one round to the last.
    pub fn select_previous_note(&mut self)
        ensures
            final(self).target_note@ == note_names()[(name_index(old(self).target_note@) + 11)
                % 12],
            final(self).target_octave == old(self).target_octave,
            final(self).a4_freq == old(self).a4_freq,
            final(self).same_reading(old(self)),
    {
        let place: usize = note_index(self.target_note.as_str());
        self.target_note = note_name((place + 11) % NOTE_COUNT).to_owned();
    }

    /// Moves the target one octave up, but not above the highest octave.
    pub fn raise_octave(&mut self)
        ensures
            final(self).target_octave == octave_above(old(self).target_octave as int),
            final(self).target_note@ == old(self).target_note@,
            final(self).a4_freq == old(self).a4_freq,
            final(self).same_reading(old(self)),
    {
        if self.target_octave < HIGHEST_OCTAVE - 1 {
            self.target_octave = self.target_octave + 1;
        } else {
            self.target_octave = HIGHEST_OCTAVE;
        }
    }

    /// Moves the target one octave down, but not below the lowest octave.
    pub fn lower_octave(&mut self)
        ensures
            final(self).target_octave == octave_below(old(self).target_octave as int),
            final(self).target_note@ == old(self).target_note@,
            final(self).a4_freq == old(self).a4_freq,
            final(self).same_reading(old(self)),
    {
        if self.target_octave > LOWEST_OCTAVE + 1 {
            self.target_octave = self.target_octave - 1;
        } else {
            self.target_octave = LOWEST_OCTAVE;
        }
    }
}

} // verus!
