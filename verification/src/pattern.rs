//! Patterns: 64 rows of 4 channels, each channel a 4-byte packed note.

use vstd::prelude::*;

use crate::effect::{spec_effect, Effect};
use crate::module::ProTrackerModule;
use crate::notes::{note_name_at, period_index, spec_note_name, spec_period_index};

verus! {

/// Byte offset of channel `ch` of row `row` of pattern `p`.
pub open spec fn note_base(p: int, row: int, ch: int) -> int {
    1084 + 1024 * p + 16 * row + 4 * ch
}

/// The byte at offset `i`, with anything past end-of-file read as zero.
pub open spec fn byte_or0(d: Seq<u8>, i: int) -> u8 {
    if 0 <= i < d.len() {
        d[i]
    } else {
        0
    }
}

/// `n` holds the four bytes found at `base`.
pub open spec fn note_matches(n: Note, d: Seq<u8>, base: int) -> bool {
    &&& n.data[0] == byte_or0(d, base)
    &&& n.data[1] == byte_or0(d, base + 1)
    &&& n.data[2] == byte_or0(d, base + 2)
    &&& n.data[3] == byte_or0(d, base + 3)
}

/// `l` holds the four notes of row `row` of pattern `p`.
pub open spec fn line_matches(l: Line<4>, d: Seq<u8>, p: int, row: int) -> bool {
    &&& note_matches(l.channel[0], d, note_base(p, row, 0))
    &&& note_matches(l.channel[1], d, note_base(p, row, 1))
    &&& note_matches(l.channel[2], d, note_base(p, row, 2))
    &&& note_matches(l.channel[3], d, note_base(p, row, 3))
}

/// Represents a pattern.
///
/// A pattern is 1024 bytes, comprised of 64 rows, with 4 channels per row
/// and 4 bytes per channel.
pub struct Pattern<'a> {
    /// Which pattern of the file this is.
    pub pattern_no: u8,
    /// The MOD file itself.
    pub parent: &'a ProTrackerModule<'a>,
}

impl<'a> Pattern<'a> {
    /// The pattern index is one the position table mentions.
    pub open spec fn wf(self) -> bool {
        &&& self.parent.wf()
        &&& self.pattern_no < crate::module::spec_num_patterns(self.parent.data@)
    }

    /// Grab one specific row from a pattern.
    pub fn line(&'a self, index: u8) -> (r: Option<Line<4>>)
        requires
            self.wf(),
        ensures
            index < 64 ==> {
                &&& r matches Some(l)
                &&& line_matches(l, self.parent.data@, self.pattern_no as int, index as int)
            },
            index >= 64 ==> r is None,
    {
        let mut iter = LineIter { note: index, parent: self };
        iter.next()
    }

    /// Iterate through all the rows in a pattern.
    pub fn lines(&'a self) -> (r: LineIter<'a>)
        requires
            self.wf(),
        ensures
            r.wf(),
            r.parent == self,
            r.note == 0,
    {
        LineIter { note: 0, parent: self }
    }
}

/// Lets you iterate through the rows in a pattern.
pub struct LineIter<'a> {
    /// The next row to hand out.
    pub note: u8,
    /// The pattern being walked.
    pub parent: &'a Pattern<'a>,
}

impl<'a> LineIter<'a> {
    /// The pattern behind the cursor is a valid one.
    pub open spec fn wf(self) -> bool {
        (*self.parent).wf()
    }

    /// Hand out the next row, if any.
    pub fn next(&mut self) -> (r: Option<Line<4>>)
        requires
            old(self).wf(),
        ensures
            final(self).wf(),
            final(self).parent == old(self).parent,
            old(self).note >= 64 ==> r is None && final(self).note == old(self).note,
            old(self).note < 64 ==> {
                &&& r matches Some(l)
                &&& line_matches(
                    l,
                    old(self).parent.parent.data@,
                    old(self).parent.pattern_no as int,
                    old(self).note as int,
                )
                &&& final(self).note == old(self).note + 1
            },
    {
        if self.note >= 64 {
            return None;
        }
        let data: &[u8] = self.parent.parent.data;
        let offset: usize = 1084 + self.parent.pattern_no as usize * 1024 + self.note as usize
            * 16;
        self.note = self.note + 1;
        Some(
            Line {
                channel: [
                    Note {
                        data: [
                            byte_or_zero(data, offset),
                            byte_or_zero(data, offset + 1),
                            byte_or_zero(data, offset + 2),
                            byte_or_zero(data, offset + 3),
                        ],
                    },
                    Note {
                        data: [
                            byte_or_zero(data, offset + 4),
                            byte_or_zero(data, offset + 5),
                            byte_or_zero(data, offset + 6),
                            byte_or_zero(data, offset + 7),
                        ],
                    },
                    Note {
                        data: [
                            byte_or_zero(data, offset + 8),
                            byte_or_zero(data, offset + 9),
                            byte_or_zero(data, offset + 10),
                            byte_or_zero(data, offset + 11),
                        ],
                    },
                    Note {
                        data: [
                            byte_or_zero(data, offset + 12),
                            byte_or_zero(data, offset + 13),
                            byte_or_zero(data, offset + 14),
                            byte_or_zero(data, offset + 15),
                        ],
                    },
                ],
            },
        )
    }
}

/// Read a byte, treating anything past end-of-file as zero: a pattern the
/// position table mentions but the file does not fully hold decodes as
/// empty notes rather than a crash.
fn byte_or_zero(data: &[u8], idx: usize) -> (r: u8)
    ensures
        r == byte_or0(data@, idx as int),
{
    if idx < data.len() {
        data[idx]
    } else {
        0
    }
}

/// A set of notes, one per channel, for a row in a pattern.
pub struct Line<const NUM_CHANNELS: usize> {
    /// An array of channels.
    pub channel: [Note; NUM_CHANNELS],
}

/// A note that can be played on a given channel.
#[derive(Debug, Copy, Clone)]
pub struct Note {
    /// The four packed bytes of the note.
    pub data: [u8; 4],
}

/// Which sample a note asks for: the high nibbles of bytes 0 and 2.
pub open spec fn spec_sample_no(n: Note) -> u8 {
    (n.data[0] & 0xF0) | ((n.data[2] & 0xF0) >> 4)
}

/// A note's period: the low nibble of byte 0 over byte 1; always below
/// 4096, with zero meaning "no pitch change".
pub open spec fn spec_period(n: Note) -> u16 {
    (256 * ((n.data[0] & 0x0F) as int) + n.data[1]) as u16
}

/// A note's 16-bit effect word: the low nibble of byte 2 over byte 3.
pub open spec fn spec_effect_u16(n: Note) -> u16 {
    (256 * ((n.data[2] & 0x0F) as int) + n.data[3]) as u16
}

/// A note is empty when sample, period and effect are all zero.
pub open spec fn spec_is_empty(n: Note) -> bool {
    spec_effect_u16(n) == 0 && spec_period(n) == 0 && spec_sample_no(n) == 0
}

impl Note {
    /// Get which sample should be played.
    pub fn sample_no(&self) -> (r: u8)
        ensures
            r == spec_sample_no(*self),
    {
        self.data[0] & 0xF0 | (self.data[2] & 0xF0) >> 4u8
    }

    /// Get the sample period (i.e. pitch).
    ///
    /// In the range 0..4096.
    pub fn period(&self) -> (r: u16)
        ensures
            r == spec_period(*self),
            r < 4096,
    {
        let b0 = self.data[0];
        let b1 = self.data[1];
        proof {
            crate::sample::lemma_be16(b0 & 0x0F, b1);
            assert(b0 & 0x0F < 16) by (bit_vector);
        }
        ((b0 & 0x0F) as u16) << 8u16 | (b1 as u16)
    }

    /// The musical note, if any, this note matches.
    pub fn musical_note(&self) -> (r: Option<&'static str>)
        ensures
            r is Some <==> spec_period_index(spec_period(*self)) >= 0,
            r matches Some(name) ==> name@ == spec_note_name(
                spec_period_index(spec_period(*self)),
            )@,
    {
        let period = self.period();
        match period_index(period) {
            Some(position) => Some(note_name_at(position)),
            None => None,
        }
    }

    /// Get the effect command.
    pub fn effect(&self) -> (r: Option<Effect>)
        ensures
            r == spec_effect(spec_effect_u16(*self)),
    {
        Effect::try_from(self.effect_u16())
    }

    /// Get the effect command.
    ///
    /// In the format 0x0NMM where N is the command and MM is the argument.
    pub fn effect_u16(&self) -> (r: u16)
        ensures
            r == spec_effect_u16(*self),
            r < 0x1000,
    {
        let b2 = self.data[2];
        let b3 = self.data[3];
        proof {
            crate::sample::lemma_be16(b2 & 0x0F, b3);
            assert(b2 & 0x0F < 16) by (bit_vector);
        }
        ((b2 & 0x0F) as u16) << 8u16 | (b3 as u16)
    }

    /// Does this note do nothing?
    pub fn is_empty(&self) -> (r: bool)
        ensures
            r == spec_is_empty(*self),
    {
        self.effect_u16() == 0 && self.period() == 0 && self.sample_no() == 0
    }
}

/// The sample number of the note stored at byte offset `base`.
pub open spec fn spec_sample_no_at(d: Seq<u8>, base: int) -> u8 {
    (byte_or0(d, base) & 0xF0) | ((byte_or0(d, base + 2) & 0xF0) >> 4)
}

/// The period of the note stored at byte offset `base`.
pub open spec fn spec_period_at(d: Seq<u8>, base: int) -> u16 {
    (256 * ((byte_or0(d, base) & 0x0F) as int) + byte_or0(d, base + 1)) as u16
}

/// The effect word of the note stored at byte offset `base`.
pub open spec fn spec_effect_word_at(d: Seq<u8>, base: int) -> u16 {
    (256 * ((byte_or0(d, base + 2) & 0x0F) as int) + byte_or0(d, base + 3)) as u16
}

/// Whether the note stored at byte offset `base` is empty.
pub open spec fn spec_empty_at(d: Seq<u8>, base: int) -> bool {
    spec_effect_word_at(d, base) == 0 && spec_period_at(d, base) == 0 && spec_sample_no_at(d, base)
        == 0
}

/// A note that holds the bytes at `base` decodes to the same fields as the
/// bytes themselves.
pub proof fn lemma_note_fields_at(n: Note, d: Seq<u8>, base: int)
    requires
        note_matches(n, d, base),
    ensures
        spec_sample_no(n) == spec_sample_no_at(d, base),
        spec_period(n) == spec_period_at(d, base),
        spec_effect_u16(n) == spec_effect_word_at(d, base),
        spec_is_empty(n) == spec_empty_at(d, base),
{
}

/// Law: note decoding is pure — two notes over the same four bytes decode
/// to the same sample number, period and effect word.
pub proof fn lemma_note_decode_pure(a: Note, b: Note)
    requires
        a.data@ == b.data@,
    ensures
        spec_sample_no(a) == spec_sample_no(b),
        spec_period(a) == spec_period(b),
        spec_effect_u16(a) == spec_effect_u16(b),
{
    assert(a.data[0] == a.data@[0] && b.data[0] == b.data@[0]);
    assert(a.data[1] == a.data@[1] && b.data[1] == b.data@[1]);
    assert(a.data[2] == a.data@[2] && b.data[2] == b.data@[2]);
    assert(a.data[3] == a.data@[3] && b.data[3] == b.data@[3]);
}

} // verus!
