//! Effect commands: the tagged decoding of a note's 12-bit effect word.

use vstd::prelude::*;

verus! {

/// Represents an effect.
///
/// The command nibble selects the variant; the argument byte rides along.
/// For a volume slide the argument is re-read as a signed magnitude: a
/// nonzero high nibble slides up, otherwise the low nibble slides down.
#[derive(Debug, Copy, Clone, Eq, PartialEq, Structural)]
pub enum Effect {
    /// Arpeggio
    Arpeggio(u8),
    /// Slide up
    SlideUp(u8),
    /// Slide down
    SlideDown(u8),
    /// Slide to note
    SlideToNote(u8),
    /// Vibrato
    Vibrato(u8),
    /// Slide to note and volume slide
    SlideNoteVolume(u8),
    /// Vibrato and volume slide
    VibratoSlide(u8),
    /// Tremolo
    Tremelo(u8),
    /// Set sample offset
    SampleOffset(u8),
    /// Volume slide
    VolumeSlide(i8),
    /// Position jump
    PositionJump(u8),
    /// Set volume
    SetVolume(u8),
    /// Pattern break
    PatternBreak(u8),
    /// Set speed
    SetSpeed(u8),
}

/// What a 16-bit effect word decodes to: the zero word and unrecognised
/// command nibbles mean "no effect".
pub open spec fn spec_effect(value: u16) -> Option<Effect> {
    if value == 0 {
        None
    } else {
        let arg = (value % 256) as u8;
        let cmd = value / 256;
        if cmd == 0 {
            Some(Effect::Arpeggio(arg))
        } else if cmd == 1 {
            Some(Effect::SlideUp(arg))
        } else if cmd == 2 {
            Some(Effect::SlideDown(arg))
        } else if cmd == 3 {
            Some(Effect::SlideToNote(arg))
        } else if cmd == 4 {
            Some(Effect::Vibrato(arg))
        } else if cmd == 5 {
            Some(Effect::SlideNoteVolume(arg))
        } else if cmd == 6 {
            Some(Effect::VibratoSlide(arg))
        } else if cmd == 7 {
            Some(Effect::Tremelo(arg))
        } else if cmd == 9 {
            Some(Effect::SampleOffset(arg))
        } else if cmd == 10 {
            Some(
                Effect::VolumeSlide(
                    if arg >= 16 {
                        (arg / 16) as i8
                    } else {
                        (0 - arg) as i8
                    },
                ),
            )
        } else if cmd == 11 {
            Some(Effect::PositionJump(arg))
        } else if cmd == 12 {
            Some(Effect::SetVolume(arg))
        } else if cmd == 13 {
            Some(Effect::PatternBreak(arg))
        } else if cmd == 15 {
            Some(Effect::SetSpeed(arg))
        } else {
            None
        }
    }
}

impl Effect {
    /// Try and parse a 16-bit effect value.
    pub fn try_from(value: u16) -> (r: Option<Effect>)
        ensures
            r == spec_effect(value),
    {
        if value == 0 {
            return None;
        }
        let arg = (value & 0xFF) as u8;
        let cmd = value >> 8u16;
        proof {
            lemma_effect_split(value);
        }
        if cmd == 0 {
            Some(Effect::Arpeggio(arg))
        } else if cmd == 1 {
            Some(Effect::SlideUp(arg))
        } else if cmd == 2 {
            Some(Effect::SlideDown(arg))
        } else if cmd == 3 {
            Some(Effect::SlideToNote(arg))
        } else if cmd == 4 {
            Some(Effect::Vibrato(arg))
        } else if cmd == 5 {
            Some(Effect::SlideNoteVolume(arg))
        } else if cmd == 6 {
            Some(Effect::VibratoSlide(arg))
        } else if cmd == 7 {
            Some(Effect::Tremelo(arg))
        } else if cmd == 9 {
            Some(Effect::SampleOffset(arg))
        } else if cmd == 10 {
            Some(
                if arg >= 0x10 {
                    proof {
                        lemma_high_nibble(arg);
                    }
                    Effect::VolumeSlide((arg >> 4u8) as i8)
                } else {
                    Effect::VolumeSlide(-(arg as i8))
                },
            )
        } else if cmd == 11 {
            Some(Effect::PositionJump(arg))
        } else if cmd == 12 {
            Some(Effect::SetVolume(arg))
        } else if cmd == 13 {
            Some(Effect::PatternBreak(arg))
        } else if cmd == 15 {
            Some(Effect::SetSpeed(arg))
        } else {
            None
        }
    }
}

proof fn lemma_effect_split(value: u16)
    ensures
        (value & 0xFF) as u8 == value % 256,
        value >> 8u16 == value / 256,
{
    assert((value & 0xFF) == value % 256) by (bit_vector);
    assert(value >> 8u16 == value / 256) by (bit_vector);
}

proof fn lemma_high_nibble(arg: u8)
    ensures
        arg >> 4u8 == arg / 16,
{
    assert(arg >> 4u8 == arg / 16) by (bit_vector);
}

/// Law: effect decoding is total over the 12-bit effect space. The zero
/// word decodes to "no effect"; any other word decodes to an effect exactly
/// when its command nibble is recognised (every nibble but 8 and 14).
pub proof fn lemma_effect_decode_total(value: u16)
    requires
        value < 0x1000,
    ensures
        spec_effect(0) is None,
        spec_effect(value) is Some <==> (value != 0 && value / 256 != 8 && value / 256 != 14),
{
}

} // verus!
