//! The 31-slot sample table: metadata, raw PCM slices and sample iteration.

use vstd::prelude::*;

use crate::module::{spec_sample_data_offset, ProTrackerModule};

verus! {

/// Byte offset of the metadata block for sample `n` (samples are 1-indexed;
/// each block is 30 bytes, starting at offset 20).
pub open spec fn meta_base(n: int) -> int {
    20 + (n - 1) * 30
}

/// A big-endian 16-bit field at byte offset `off`.
pub open spec fn spec_be16(d: Seq<u8>, off: int) -> int {
    256 * d[off] + d[off + 1]
}

/// Length of sample `n` in 16-bit words.
pub open spec fn spec_sample_length(d: Seq<u8>, n: int) -> int {
    spec_be16(d, meta_base(n) + 22)
}

/// The finetune of sample `n`: only the low nibble of the stored byte is
/// meaningful, so the high nibble is masked off.
pub open spec fn spec_finetune(d: Seq<u8>, n: int) -> u8 {
    d[meta_base(n) + 24] & 0x0F
}

/// The default volume byte of sample `n`.
pub open spec fn spec_volume(d: Seq<u8>, n: int) -> u8 {
    d[meta_base(n) + 25]
}

/// The repeat point of sample `n`, in 16-bit words.
pub open spec fn spec_repeat_point(d: Seq<u8>, n: int) -> int {
    spec_be16(d, meta_base(n) + 26)
}

/// The repeat length of sample `n`, in 16-bit words.
pub open spec fn spec_repeat_length(d: Seq<u8>, n: int) -> int {
    spec_be16(d, meta_base(n) + 28)
}

/// Where the raw bytes of sample `n` start: the samples lie back to back
/// after the pattern table, in sample-table order.
pub open spec fn spec_sample_file_offset(d: Seq<u8>, n: int) -> int
    decreases n,
{
    if n <= 1 {
        spec_sample_data_offset(d)
    } else {
        spec_sample_file_offset(d, n - 1) + 2 * spec_sample_length(d, n - 1)
    }
}

/// Sample data offsets stay comfortably inside the address space.
pub proof fn lemma_sample_offset_bound(d: Seq<u8>, n: int)
    requires
        1 <= n <= 32,
    ensures
        spec_sample_data_offset(d) <= spec_sample_file_offset(d, n),
        spec_sample_file_offset(d, n) <= spec_sample_data_offset(d) + (n - 1) * 131070,
    decreases n,
{
    if n > 1 {
        lemma_sample_offset_bound(d, n - 1);
    }
}

/// `s` with every trailing zero byte removed.
pub open spec fn trim_zeros(s: Seq<u8>) -> Seq<u8>
    decreases s.len(),
{
    if s.len() > 0 && s[s.len() - 1] == 0 {
        trim_zeros(s.drop_last())
    } else {
        s
    }
}

/// The raw PCM slice of a sample with the given cached metadata: empty for
/// a zero-length or zero-volume sample, and cut down to the bytes the file
/// actually holds when the declared length runs past end-of-file.
pub open spec fn spec_sample_slice(d: Seq<u8>, fo: int, len_words: int, vol: u8) -> Seq<u8> {
    if len_words == 0 || vol == 0 {
        Seq::<u8>::empty()
    } else if fo + 2 * len_words <= d.len() {
        d.subrange(fo, fo + 2 * len_words)
    } else if fo <= d.len() {
        d.subrange(fo, d.len() as int)
    } else {
        Seq::<u8>::empty()
    }
}

/// Represents a sample.
#[derive(Debug)]
pub struct Sample<'a> {
    /// A one-based index into the sample table.
    pub sample_no: u8,
    /// The default volume byte.
    pub volume: u8,
    /// The finetune, the low nibble of the stored byte.
    pub finetune: u8,
    /// Where in the MOD file the sample starts.
    pub file_offset: usize,
    /// The repeat length, in words.
    pub repeat_length: u16,
    /// The repeat point, in words.
    pub repeat_point: u16,
    /// The sample length, in words.
    pub sample_length: u16,
    /// The MOD file itself.
    pub parent: &'a ProTrackerModule<'a>,
}

impl<'a> Sample<'a> {
    /// The cached metadata agrees with the sample table of the parent
    /// module, and the start offset is small enough for safe arithmetic.
    pub open spec fn wf(self) -> bool {
        &&& self.parent.wf()
        &&& 1 <= self.sample_no <= 31
        &&& self.volume == spec_volume(self.parent.data@, self.sample_no as int)
        &&& self.finetune == spec_finetune(self.parent.data@, self.sample_no as int)
        &&& self.sample_length == spec_sample_length(self.parent.data@, self.sample_no as int)
        &&& self.repeat_point == spec_repeat_point(self.parent.data@, self.sample_no as int)
        &&& self.repeat_length == spec_repeat_length(self.parent.data@, self.sample_no as int)
        &&& self.file_offset <= 0x1000_0000
    }

    /// Create a new sample view, caching the metadata fields.
    ///
    /// The `sample_no` must be `1..=31`.
    pub(crate) fn new(sample_no: u8, file_offset: usize, parent: &'a ProTrackerModule<'a>) -> (s:
        Sample<'a>)
        requires
            parent.wf(),
            1 <= sample_no <= 31,
            file_offset <= 0x1000_0000,
        ensures
            s.wf(),
            s.sample_no == sample_no,
            s.file_offset == file_offset,
            s.parent == parent,
    {
        let start: usize = 20 + (sample_no as usize - 1) * 30;
        let sample_length = be16(parent.data, start + 22);
        let finetune = parent.data[start + 24] & 0x0F;
        let volume = parent.data[start + 25];
        let repeat_point = be16(parent.data, start + 26);
        let repeat_length = be16(parent.data, start + 28);
        Sample {
            sample_no,
            file_offset,
            parent,
            volume,
            finetune,
            repeat_length,
            repeat_point,
            sample_length,
        }
    }

    /// The name of the sample, as a byte slice with the trailing zero
    /// padding removed.
    ///
    /// Is probably not UTF-8 encoded.
    pub fn name(&self) -> (r: &[u8])
        requires
            self.wf(),
        ensures
            r@ == trim_zeros(
                self.parent.data@.subrange(
                    meta_base(self.sample_no as int),
                    meta_base(self.sample_no as int) + 22,
                ),
            ),
    {
        let start: usize = 20 + (self.sample_no as usize - 1) * 30;
        let ghost full = self.parent.data@.subrange(start as int, start as int + 22);
        let mut end: usize = 22;
        proof {
            assert(full.subrange(0, 22) =~= full);
        }
        while end > 0 && self.parent.data[start + end - 1] == 0
            invariant
                self.wf(),
                start == 20 + (self.sample_no - 1) * 30,
                full == self.parent.data@.subrange(start as int, start as int + 22),
                0 <= end <= 22,
                trim_zeros(full) == trim_zeros(full.subrange(0, end as int)),
            decreases end,
        {
            proof {
                assert(full.subrange(0, end as int).drop_last() =~= full.subrange(
                    0,
                    end as int - 1,
                ));
            }
            end = end - 1;
        }
        proof {
            if end > 0 {
                assert(trim_zeros(full.subrange(0, end as int)) == full.subrange(0, end as int));
            } else {
                assert(full.subrange(0, 0) =~= Seq::<u8>::empty());
            }
            assert(full.subrange(0, end as int) =~= self.parent.data@.subrange(
                start as int,
                start as int + end,
            ));
        }
        vstd::slice::slice_subrange(self.parent.data, start, start + end)
    }

    /// Length of the sample, in 16-bit units.
    pub fn sample_length(&self) -> (r: u16)
        requires
            self.wf(),
        ensures
            r == spec_sample_length(self.parent.data@, self.sample_no as int),
    {
        self.sample_length
    }

    /// Length of the sample in bytes.
    pub fn sample_length_bytes(&self) -> (r: usize)
        requires
            self.wf(),
        ensures
            r == 2 * spec_sample_length(self.parent.data@, self.sample_no as int),
    {
        self.sample_length as usize * 2
    }

    /// The finetune value for the sample.
    pub fn finetune(&self) -> (r: u8)
        requires
            self.wf(),
        ensures
            r == spec_finetune(self.parent.data@, self.sample_no as int),
    {
        self.finetune
    }

    /// The default volume of the sample.
    pub fn volume(&self) -> (r: u8)
        requires
            self.wf(),
        ensures
            r == spec_volume(self.parent.data@, self.sample_no as int),
    {
        self.volume
    }

    /// Does this sample repeat?
    ///
    /// A repeat length of exactly one word is the format's sentinel for "no
    /// loop"; any other value marks a genuine loop.
    pub fn loops(&self) -> (r: bool)
        requires
            self.wf(),
        ensures
            r == (spec_repeat_length(self.parent.data@, self.sample_no as int) != 1),
    {
        self.repeat_length != 1
    }

    /// Where the sample should loop back to when repeating, in 16-bit units.
    pub fn repeat_point(&self) -> (r: u16)
        requires
            self.wf(),
        ensures
            r == spec_repeat_point(self.parent.data@, self.sample_no as int),
    {
        self.repeat_point
    }

    /// Where the sample should loop back to when repeating, as a byte offset.
    pub fn repeat_point_bytes(&self) -> (r: usize)
        requires
            self.wf(),
        ensures
            r == 2 * spec_repeat_point(self.parent.data@, self.sample_no as int),
    {
        self.repeat_point as usize * 2
    }

    /// The length of the repeating portion, in 16-bit units.
    pub fn repeat_length(&self) -> (r: u16)
        requires
            self.wf(),
        ensures
            r == spec_repeat_length(self.parent.data@, self.sample_no as int),
    {
        self.repeat_length
    }

    /// The length of the repeating portion, in bytes.
    pub fn repeat_length_bytes(&self) -> (r: usize)
        requires
            self.wf(),
        ensures
            r == 2 * spec_repeat_length(self.parent.data@, self.sample_no as int),
    {
        self.repeat_length as usize * 2
    }

    /// The sample as 8-bit data.
    ///
    /// A declared length that runs past end-of-file yields as many bytes as
    /// the file still holds, never an out-of-bounds read.
    pub fn raw_sample_bytes(&self) -> (r: &[u8])
        requires
            self.wf(),
        ensures
            r@ == spec_sample_slice(
                self.parent.data@,
                self.file_offset as int,
                spec_sample_length(self.parent.data@, self.sample_no as int),
                self.volume,
            ),
    {
        // short-cut if sample is empty
        if self.sample_length == 0 || self.volume == 0 {
            let r = vstd::slice::slice_subrange(self.parent.data, 0, 0);
            proof {
                assert(r@ =~= Seq::<u8>::empty());
            }
            return r;
        }
        let len = self.parent.data.len();
        let lb = self.sample_length as usize * 2;
        if self.file_offset + lb <= len {
            vstd::slice::slice_subrange(self.parent.data, self.file_offset, self.file_offset + lb)
        } else if self.file_offset <= len {
            // This sample goes off the end of the file. Give them as much
            // as we can instead.
            vstd::slice::slice_subrange(self.parent.data, self.file_offset, len)
        } else {
            let r = vstd::slice::slice_subrange(self.parent.data, 0, 0);
            proof {
                assert(r@ =~= Seq::<u8>::empty());
            }
            r
        }
    }

    /// Create an iterator that will hand out sample bytes, handling
    /// looping/repeating as required.
    pub fn sample_bytes_iter(&'a self) -> (r: SampleBytesIter<'a>)
        requires
            self.wf(),
        ensures
            r.data@ == spec_sample_slice(
                self.parent.data@,
                self.file_offset as int,
                spec_sample_length(self.parent.data@, self.sample_no as int),
                self.volume,
            ),
            r.repeat_point == spec_repeat_point(self.parent.data@, self.sample_no as int),
            r.repeat_length == spec_repeat_length(self.parent.data@, self.sample_no as int),
            r.position == 0,
    {
        SampleBytesIter {
            data: self.raw_sample_bytes(),
            repeat_length: self.repeat_length(),
            repeat_point: self.repeat_point(),
            position: 0,
        }
    }
}

/// Generates the 1-byte PCM samples contained within a sample.
///
/// This is infinite if the sample loops.
pub struct SampleBytesIter<'a> {
    /// Our sample, as bytes.
    pub data: &'a [u8],
    /// The repeat point, in words.
    pub repeat_point: u16,
    /// The repeat length, in words.
    pub repeat_length: u16,
    /// Our current position, in bytes.
    pub position: usize,
}

impl<'a> SampleBytesIter<'a> {
    /// Hand out the byte under the cursor and advance it, wrapping back to
    /// the repeat point when a looping sample reaches the end of its repeat
    /// region. A repeat length of one word never wraps.
    pub fn next(&mut self) -> (r: Option<u8>)
        ensures
            r == (if old(self).position < old(self).data@.len() {
                Some(old(self).data@[old(self).position as int])
            } else {
                None::<u8>
            }),
            final(self).data == old(self).data,
            final(self).repeat_point == old(self).repeat_point,
            final(self).repeat_length == old(self).repeat_length,
            ({
                let p1: int = if old(self).position < usize::MAX {
                    old(self).position + 1
                } else {
                    old(self).position as int
                };
                final(self).position == if old(self).repeat_length != 1 && p1 >= 2 * (
                old(self).repeat_point + old(self).repeat_length) {
                    2 * old(self).repeat_point
                } else {
                    p1
                }
            }),
    {
        let sample = if self.position < self.data.len() {
            Some(self.data[self.position])
        } else {
            None
        };
        if self.position < usize::MAX {
            self.position = self.position + 1;
        }
        if self.repeat_length != 1 {
            // this sample repeats
            if self.position >= (self.repeat_point as usize + self.repeat_length as usize) * 2 {
                self.position = self.repeat_point as usize * 2;
            }
        }
        sample
    }
}

/// Iterates through all the samples in a module.
///
/// Generated by [`ProTrackerModule::samples()`].
pub struct SampleIter<'a> {
    /// The MOD file itself.
    pub parent: &'a ProTrackerModule<'a>,
    /// The next sample to hand out, 1-indexed.
    pub sample_no: u8,
    /// Where that sample's raw bytes start in the file.
    pub file_offset: usize,
}

impl<'a> SampleIter<'a> {
    /// The cursor walks the sample table in order, carrying the running
    /// byte offset of the next sample's data.
    pub open spec fn wf(self) -> bool {
        &&& self.parent.wf()
        &&& 1 <= self.sample_no <= 32
        &&& self.file_offset == spec_sample_file_offset(self.parent.data@, self.sample_no as int)
    }

    /// Hand out the next sample, if any, advancing the running offset by
    /// the sample's byte length.
    pub fn next(&mut self) -> (r: Option<Sample<'a>>)
        requires
            old(self).wf(),
        ensures
            final(self).wf(),
            final(self).parent == old(self).parent,
            old(self).sample_no <= 31 ==> {
                &&& r matches Some(s)
                &&& s.wf()
                &&& s.parent == old(self).parent
                &&& s.sample_no == old(self).sample_no
                &&& s.file_offset == old(self).file_offset
                &&& final(self).sample_no == old(self).sample_no + 1
            },
            old(self).sample_no > 31 ==> r is None && *final(self) == *old(self),
    {
        if self.sample_no <= 31 {
            proof {
                lemma_sample_offset_bound(self.parent.data@, self.sample_no as int);
                lemma_sample_offset_bound(self.parent.data@, self.sample_no as int + 1);
            }
            let sample = Sample::new(self.sample_no, self.file_offset, self.parent);
            self.sample_no = self.sample_no + 1;
            self.file_offset = self.file_offset + sample.sample_length_bytes();
            Some(sample)
        } else {
            None
        }
    }
}

/// Read a big-endian 16-bit field from the buffer.
fn be16(data: &[u8], off: usize) -> (r: u16)
    requires
        off + 1 < data@.len(),
    ensures
        r == spec_be16(data@, off as int),
{
    let hi = data[off];
    let lo = data[off + 1];
    proof {
        lemma_be16(hi, lo);
    }
    (hi as u16) << 8u16 | (lo as u16)
}

pub(crate) proof fn lemma_be16(a: u8, b: u8)
    ensures
        (a as u16) << 8u16 | (b as u16) == 256 * (a as u16) + (b as u16),
{
    assert((a as u16) << 8u16 | (b as u16) == 256 * (a as u16) + (b as u16)) by (bit_vector);
}

} // verus!
