//! The module header: validation, song positions and the pattern count.

use vstd::prelude::*;

use crate::pattern::Pattern;
use crate::sample::{spec_sample_file_offset, Sample, SampleIter};

verus! {

/// Shortest buffer that can hold a module: the 1084-byte header plus one
/// 1024-byte pattern.
pub const MINIMUM_LENGTH: usize = 2108;

/// Byte offset of the song length field.
pub const SONG_LENGTH_OFFSET: usize = 950;

/// Byte offset of the 128-entry song position table.
pub const SONG_POSITIONS_OFFSET: usize = 952;

/// Byte offset of the four magic bytes `M.K.`.
pub const MAGIC_OFFSET: usize = 1080;

/// A buffer is a recognisable module when it is long enough and carries the
/// `M.K.` tag at its fixed offset.
pub open spec fn valid_module(d: Seq<u8>) -> bool {
    &&& d.len() >= MINIMUM_LENGTH
    &&& d[1080] == 0x4du8
    &&& d[1081] == 0x2eu8
    &&& d[1082] == 0x4bu8
    &&& d[1083] == 0x2eu8
}

/// The stored song length byte.
pub open spec fn spec_song_length(d: Seq<u8>) -> u8 {
    d[950]
}

/// How many entries of the position table are in use: the stored song
/// length, cut down to the 128 entries that physically exist.
pub open spec fn spec_used_positions(d: Seq<u8>) -> int {
    if spec_song_length(d) <= 128 {
        spec_song_length(d) as int
    } else {
        128
    }
}

/// The pattern index stored at slot `i` of the position table.
pub open spec fn spec_position(d: Seq<u8>, i: int) -> u8 {
    d[952 + i]
}

/// Largest pattern index among the first `n` slots of the position table.
pub open spec fn max_position_upto(d: Seq<u8>, n: int) -> u8
    decreases n,
{
    if n <= 0 {
        0u8
    } else if spec_position(d, n - 1) > max_position_upto(d, n - 1) {
        spec_position(d, n - 1)
    } else {
        max_position_upto(d, n - 1)
    }
}

/// Largest pattern index anywhere in the 128-slot position table.
pub open spec fn spec_max_position(d: Seq<u8>) -> u8 {
    max_position_upto(d, 128)
}

/// The number of patterns stored in the file: one more than the largest
/// index the position table mentions.
pub open spec fn spec_num_patterns(d: Seq<u8>) -> int {
    spec_max_position(d) + 1
}

/// Byte offset of the raw sample data, immediately after the pattern table.
pub open spec fn spec_sample_data_offset(d: Seq<u8>) -> int {
    1084 + 1024 * spec_num_patterns(d)
}

/// Every slot of the position table is bounded by the running maximum.
proof fn lemma_max_position_upto(d: Seq<u8>, i: int, n: int)
    requires
        0 <= i < n,
    ensures
        spec_position(d, i) <= max_position_upto(d, n),
    decreases n,
{
    if i < n - 1 {
        lemma_max_position_upto(d, i, n - 1);
    }
}

/// Every pattern index in the position table is below the pattern count.
pub proof fn lemma_position_below_num_patterns(d: Seq<u8>, i: int)
    requires
        0 <= i < 128,
    ensures
        spec_position(d, i) < spec_num_patterns(d),
{
    lemma_max_position_upto(d, i, 128);
}

/// The ways in which parsing can fail.
#[derive(Debug, Copy, Clone, PartialEq, Eq, Structural)]
pub enum Error {
    /// The file was not large enough to contain a module header.
    FileTooSmall,
    /// The file did not contain a recognised magic value.
    WrongMagicValue,
}

/// Represents a Pro Tracker module.
///
/// Stores no data — just holds a `&[u8]` with the raw file contents.
#[derive(Debug)]
pub struct ProTrackerModule<'a> {
    /// The raw file contents.
    pub data: &'a [u8],
}

impl<'a> ProTrackerModule<'a> {
    /// The buffer this view was validated over.
    pub open spec fn wf(self) -> bool {
        valid_module(self.data@)
    }

    /// Create a wrapper around a MOD file already in memory.
    ///
    /// Does some basic checks to ensure it looks like a MOD file.
    pub fn new(data: &'a [u8]) -> (r: Result<ProTrackerModule<'a>, Error>)
        ensures
            data@.len() < MINIMUM_LENGTH <==> r == Err::<ProTrackerModule<'a>, Error>(
                Error::FileTooSmall,
            ),
            data@.len() >= MINIMUM_LENGTH && !valid_module(data@) <==> r == Err::<
                ProTrackerModule<'a>,
                Error,
            >(Error::WrongMagicValue),
            valid_module(data@) <==> r is Ok,
            r matches Ok(m) ==> m.data@ == data@ && m.wf(),
    {
        if data.len() < MINIMUM_LENGTH {
            return Err(Error::FileTooSmall);
        }
        if !(data[1080] == 0x4du8 && data[1081] == 0x2eu8 && data[1082] == 0x4bu8 && data[1083]
            == 0x2eu8) {
            return Err(Error::WrongMagicValue);
        }
        Ok(ProTrackerModule { data })
    }

    /// Number of song positions that make up the song.
    pub fn song_length(&self) -> (r: u8)
        requires
            self.wf(),
        ensures
            r == spec_song_length(self.data@),
    {
        self.data[950]
    }

    /// Get the list of all the patterns in the song.
    ///
    /// The stored song length is cut down to the 128 slots the table has.
    pub fn song_positions(&self) -> (r: &[u8])
        requires
            self.wf(),
        ensures
            r@.len() == spec_used_positions(self.data@),
            forall|i: int|
                0 <= i < r@.len() ==> r@[i] == spec_position(self.data@, i),
    {
        let length = self.song_length();
        let used: usize = if length <= 128 {
            length as usize
        } else {
            128
        };
        let r = vstd::slice::slice_subrange(self.data, 952, 952 + used);
        assert forall|i: int| 0 <= i < r@.len() implies r@[i] == spec_position(self.data@, i) by {
            assert(r@[i] == self.data@.subrange(952, 952 + used as int)[i]);
        }
        r
    }

    /// Which pattern should be played at this song position.
    ///
    /// The `idx` argument should be in the range `0..=127`.
    pub fn song_position(&self, idx: u8) -> (r: Option<u8>)
        requires
            self.wf(),
        ensures
            idx < spec_used_positions(self.data@) ==> r == Some(
                spec_position(self.data@, idx as int),
            ),
            idx >= spec_used_positions(self.data@) ==> r is None,
    {
        let positions = self.song_positions();
        if (idx as usize) < positions.len() {
            Some(*vstd::slice::slice_index_get(positions, idx as usize))
        } else {
            None
        }
    }

    /// Return the number of patterns in the file.
    ///
    /// Derived as one more than the largest index in the position table, so
    /// a pattern slot that only a trailing, unused position mentions still
    /// counts.
    pub fn num_patterns(&self) -> (r: u8)
        requires
            self.wf(),
            spec_max_position(self.data@) < 255,
        ensures
            r == spec_num_patterns(self.data@),
            forall|i: int| 0 <= i < 128 ==> spec_position(self.data@, i) < r,
    {
        let mut max: u8 = 0;
        let mut i: usize = 0;
        while i < 128
            invariant
                self.wf(),
                0 <= i <= 128,
                max == max_position_upto(self.data@, i as int),
            decreases 128 - i,
        {
            let b = self.data[952 + i];
            if b > max {
                max = b;
            }
            i = i + 1;
        }
        proof {
            assert forall|i: int| 0 <= i < 128 implies spec_position(self.data@, i) < max + 1 by {
                lemma_max_position_upto(self.data@, i, 128);
            }
        }
        max + 1
    }

    /// Largest pattern index anywhere in the position table.
    fn max_position(&self) -> (r: u8)
        requires
            self.wf(),
        ensures
            r == spec_max_position(self.data@),
    {
        let mut max: u8 = 0;
        let mut i: usize = 0;
        while i < 128
            invariant
                self.wf(),
                0 <= i <= 128,
                max == max_position_upto(self.data@, i as int),
            decreases 128 - i,
        {
            let b = self.data[952 + i];
            if b > max {
                max = b;
            }
            i = i + 1;
        }
        max
    }

    /// Get info on a specific pattern.
    pub fn pattern(&'a self, pattern_no: u8) -> (r: Option<Pattern<'a>>)
        requires
            self.wf(),
        ensures
            pattern_no < spec_num_patterns(self.data@) ==> {
                &&& r matches Some(p)
                &&& p.wf()
                &&& p.pattern_no == pattern_no
                &&& p.parent == self
            },
            pattern_no >= spec_num_patterns(self.data@) ==> r is None,
    {
        if (pattern_no as usize) < self.max_position() as usize + 1 {
            Some(Pattern { pattern_no, parent: self })
        } else {
            None
        }
    }

    /// Where in the file do the samples start?
    pub(crate) fn sample_offset(&self) -> (r: usize)
        requires
            self.wf(),
        ensures
            r == spec_sample_data_offset(self.data@),
    {
        1084 + (self.max_position() as usize + 1) * 1024
    }

    /// Iterate through all the samples.
    pub fn samples(&'a self) -> (r: SampleIter<'a>)
        requires
            self.wf(),
        ensures
            r.wf(),
            r.parent == self,
            r.sample_no == 1,
    {
        SampleIter { parent: self, sample_no: 1, file_offset: self.sample_offset() }
    }

    /// Get info on a specific sample.
    ///
    /// The value is 1-indexed.
    ///
    /// Requires a walk through all the samples so we can get the start of
    /// the sample data.
    pub fn sample(&'a self, sample_no: u8) -> (r: Option<Sample<'a>>)
        requires
            self.wf(),
        ensures
            1 <= sample_no <= 31 ==> {
                &&& r matches Some(s)
                &&& s.wf()
                &&& s.parent == self
                &&& s.sample_no == sample_no
                &&& s.file_offset == spec_sample_file_offset(self.data@, sample_no as int)
            },
            sample_no == 0 || sample_no > 31 ==> r is None,
    {
        if sample_no == 0 {
            return None;
        }
        let mut iter = self.samples();
        let mut i: u8 = 1;
        while i < sample_no
            invariant
                self.wf(),
                iter.wf(),
                iter.parent == self,
                1 <= i <= sample_no,
                iter.sample_no == if i <= 32 {
                    i as int
                } else {
                    32
                },
            decreases sample_no - i,
        {
            let _ = iter.next();
            i = i + 1;
        }
        iter.next()
    }

    /// Get metadata for a specific sample.
    ///
    /// Can do a direct access, but it won't return correct sample data:
    /// the offset handed to the view is the start of the sample data block,
    /// not the start of this sample's bytes.
    pub fn sample_info(&'a self, sample_no: u8) -> (r: Option<Sample<'a>>)
        requires
            self.wf(),
        ensures
            1 <= sample_no <= 31 ==> {
                &&& r matches Some(s)
                &&& s.wf()
                &&& s.parent == self
                &&& s.sample_no == sample_no
                &&& s.file_offset == spec_sample_data_offset(self.data@)
            },
            sample_no == 0 || sample_no > 31 ==> r is None,
    {
        if 1 <= sample_no && sample_no <= 31 {
            // this value is wrong, but we did warn them it would be
            Some(Sample::new(sample_no, self.sample_offset(), self))
        } else {
            None
        }
    }
}

} // verus!
