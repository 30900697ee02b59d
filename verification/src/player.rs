//! The playback sequencer: a tick-driven state machine that walks the song
//! and mixes the four channels into one stereo frame per call.

use vstd::prelude::*;

use crate::effect::{spec_effect, Effect};
use crate::fraction::{spec_sat_add, Fractional};
use crate::module::{
    lemma_position_below_num_patterns, spec_position, spec_used_positions, valid_module, Error,
    ProTrackerModule, MINIMUM_LENGTH,
};
use crate::notes::{shift_period, spec_shift_period};
use crate::pattern::{
    lemma_note_fields_at, line_matches, note_base, note_matches, spec_effect_word_at,
    spec_empty_at, spec_period_at, spec_sample_no_at, Line, Note,
};
use crate::sample::{
    spec_repeat_length, spec_repeat_point, spec_sample_file_offset, spec_sample_length,
    spec_sample_slice, spec_volume,
};

verus! {

/// The playback state of one of the four channels.
#[derive(Debug, Copy, Clone)]
pub struct Channel {
    /// The sample bound to the channel; zero means none.
    pub sample_num: u8,
    /// The channel's current volume.
    pub volume: u8,
    /// The channel's current period; zero means the channel is inactive.
    pub note_period: u16,
    /// The fixed-point read position into the sample's bytes.
    pub sample_position: Fractional,
    /// A continuous effect carried across the ticks of the current row.
    pub effect: Option<Effect>,
}

/// A channel with nothing bound and nothing playing.
pub open spec fn initial_channel() -> Channel {
    Channel {
        sample_num: 0,
        volume: 0,
        note_period: 0,
        sample_position: Fractional { inner: 0 },
        effect: None,
    }
}

impl Default for Channel {
    /// A channel with nothing bound and nothing playing.
    fn default() -> (r: Channel)
        ensures
            r == initial_channel(),
    {
        Channel {
            sample_num: 0,
            volume: 0,
            note_period: 0,
            sample_position: Fractional { inner: 0 },
            effect: None,
        }
    }
}

/// The sequencer state, apart from the module bytes it plays.
#[verifier::ext_equal]
pub struct PState {
    /// How many samples are left in this tick.
    pub samples_left: u32,
    /// How many ticks are left in this row.
    pub ticks_left: u32,
    /// Ticks per row; six unless a speed effect changed it.
    pub ticks_per_line: u32,
    /// Device samples per tick, fixed by the device sample rate.
    pub samples_per_tick: u32,
    /// Amiga clock ticks per device sample, fixed-point.
    pub clock: Fractional,
    /// The song position being played.
    pub position: u8,
    /// The row being played.
    pub line: u8,
    /// Whether the song has run off the end of the position table.
    pub finished: bool,
    /// A queued pattern break: jump to this row at the next row boundary.
    pub pattern_break: Option<u8>,
    /// The four channels.
    pub channels: Seq<Channel>,
}

/// The state a fresh player starts in.
pub open spec fn initial_state(sample_rate: u32) -> PState {
    PState {
        samples_left: 0,
        ticks_left: 0,
        ticks_per_line: 6,
        samples_per_tick: (sample_rate / 50) as u32,
        clock: Fractional { inner: (908_005_120 as int / sample_rate as int) as u32 },
        position: 0,
        line: 0,
        finished: false,
        pattern_break: None,
        channels: Seq::new(4, |i: int| initial_channel()),
    }
}

/// Every channel's bound sample is one of the 31 slots.
pub open spec fn channels_ok(chs: Seq<Channel>) -> bool {
    forall|i: int| 0 <= i < chs.len() ==> (#[trigger] chs[i]).sample_num <= 31
}

/// What the sequencer maintains between frames.
pub open spec fn state_ok(s: PState) -> bool {
    &&& s.samples_per_tick >= 1
    &&& s.position <= 128
    &&& (s.pattern_break is Some ==> s.position <= 127)
    &&& s.channels.len() == 4
    &&& channels_ok(s.channels)
}

/// Song position `i` lies within the used part of the position table.
pub open spec fn spec_has_position(d: Seq<u8>, i: int) -> bool {
    0 <= i < spec_used_positions(d)
}

/// A queued pattern break jumps to its target row of the next pattern.
pub open spec fn spec_apply_break(s: PState) -> PState {
    match s.pattern_break {
        Some(target) => PState {
            pattern_break: None,
            position: (s.position + 1) as u8,
            line: target,
            ..s
        },
        None => s,
    }
}

/// Find the row to play at a row boundary: the current row of the current
/// pattern, or row zero of the next pattern when the current pattern has
/// no such row; `None` with the finished flag set when the song position
/// table is exhausted. The row returned is always
/// `(spec_position(d, position), line)` of the returned state.
pub open spec fn spec_find_row(d: Seq<u8>, s0: PState) -> (PState, Option<(u8, u8)>) {
    let s = spec_apply_break(s0);
    if !spec_has_position(d, s.position as int) {
        (PState { finished: true, ..s }, None)
    } else if s.line < 64 {
        (s, Some((spec_position(d, s.position as int), s.line)))
    } else {
        let s2 = PState { line: 0, position: (s.position + 1) as u8, ..s };
        if !spec_has_position(d, s2.position as int) {
            (PState { finished: true, ..s2 }, None)
        } else {
            (s2, Some((spec_position(d, s2.position as int), 0)))
        }
    }
}

/// A volume the sequencer takes up is cut down to the 0..=64 range the
/// mixer scales by; the decoder hands volumes through unclamped.
pub open spec fn spec_clamp_volume(v: u8) -> u8 {
    if v > 64 {
        64u8
    } else {
        v
    }
}

/// Load one channel from the note at byte offset `base`: bind the sample
/// and period when the note names one, then classify the effect.
pub open spec fn spec_load_channel(d: Seq<u8>, s: PState, i: int, base: int) -> PState {
    let ch = s.channels[i];
    let ch1 = if spec_empty_at(d, base) {
        ch
    } else {
        let no = spec_sample_no_at(d, base);
        if 1 <= no <= 31 {
            Channel {
                sample_num: no,
                volume: spec_clamp_volume(spec_volume(d, no as int)),
                note_period: if spec_period_at(d, base) != 0 {
                    spec_period_at(d, base)
                } else {
                    ch.note_period
                },
                sample_position: Fractional { inner: 0 },
                effect: ch.effect,
            }
        } else {
            ch
        }
    };
    let ch2 = Channel { effect: None, ..ch1 };
    let eff = spec_effect(spec_effect_word_at(d, base));
    match eff {
        Some(Effect::Arpeggio(_)) => PState {
            channels: s.channels.update(i, Channel { effect: eff, ..ch2 }),
            ..s
        },
        Some(Effect::SlideUp(_)) => PState {
            channels: s.channels.update(i, Channel { effect: eff, ..ch2 }),
            ..s
        },
        Some(Effect::SlideDown(_)) => PState {
            channels: s.channels.update(i, Channel { effect: eff, ..ch2 }),
            ..s
        },
        Some(Effect::VolumeSlide(_)) => PState {
            channels: s.channels.update(i, Channel { effect: eff, ..ch2 }),
            ..s
        },
        Some(Effect::SetVolume(value)) => PState {
            channels: s.channels.update(i, Channel { volume: spec_clamp_volume(value), ..ch2 }),
            ..s
        },
        Some(Effect::SetSpeed(value)) => if value <= 31 {
            PState {
                ticks_per_line: value as u32,
                channels: s.channels.update(i, ch2),
                ..s
            }
        } else {
            // They are trying to set speed in beats per minute.
            PState { channels: s.channels.update(i, ch2), ..s }
        },
        Some(Effect::SampleOffset(n)) => PState {
            channels: s.channels.update(
                i,
                Channel { sample_position: Fractional { inner: (65536 * (n as int)) as u32 }, ..ch2 },
            ),
            ..s
        },
        Some(Effect::PatternBreak(target)) => PState {
            pattern_break: Some(target),
            channels: s.channels.update(i, ch2),
            ..s
        },
        _ => PState { channels: s.channels.update(i, ch2), ..s },
    }
}

/// Load the first `n` channels of row `row` of pattern `pat`, in order.
pub open spec fn spec_row_channels(d: Seq<u8>, s: PState, pat: int, row: int, n: int) -> PState
    decreases n,
{
    if n <= 0 {
        s
    } else {
        spec_load_channel(
            d,
            spec_row_channels(d, s, pat, row, n - 1),
            n - 1,
            note_base(pat, row, n - 1),
        )
    }
}

/// After a row's channels are loaded: step to the next row and rearm the
/// sample and tick counters from the (possibly just changed) speed.
pub open spec fn spec_row_epilogue(s1: PState, row: u8) -> PState {
    PState {
        line: (row + 1) as u8,
        samples_left: (s1.samples_per_tick - 1) as u32,
        ticks_left: if s1.ticks_per_line >= 1 {
            (s1.ticks_per_line - 1) as u32
        } else {
            0
        },
        ..s1
    }
}

/// One row boundary: apply a queued break, find the row to play, load the
/// four channels from it, then rearm the tick and sample counters.
pub open spec fn spec_row_step(d: Seq<u8>, s0: PState) -> PState {
    let (s, found) = spec_find_row(d, s0);
    match found {
        None => s,
        Some((pat, row)) => spec_row_epilogue(
            spec_row_channels(d, s, pat as int, row as int, 4),
            row,
        ),
    }
}

/// A volume slide adds its signed delta and clamps the result to
/// `0..=63`. The stored volume byte is re-read as a signed value first,
/// as the original hardware did.
pub open spec fn spec_slide_volume(vol: u8, delta: i8) -> u8 {
    let sv: int = if vol < 128 {
        vol as int
    } else {
        vol - 256
    };
    let nv = sv + delta;
    if nv < 0 {
        0u8
    } else if nv > 63 {
        63u8
    } else {
        nv as u8
    }
}

/// What one tick does to one channel, given the ticks left in the row
/// after the tick and the row's tick count.
pub open spec fn spec_tick_channel(ticks_left: u32, ticks_per_line: u32, ch: Channel) -> Channel {
    let lower_third = ticks_per_line / 3;
    let upper_third = 2 * (ticks_per_line / 3);
    match ch.effect {
        Some(Effect::Arpeggio(n)) => if ticks_left == upper_third {
            match spec_shift_period(ch.note_period, (n / 16) as u8) {
                Some(p) => Channel { note_period: p, ..ch },
                None => ch,
            }
        } else if ticks_left == lower_third {
            let first = n / 16;
            let second = n % 16;
            let half_steps: u8 = if second >= first {
                (second - first) as u8
            } else {
                (second - first + 256) as u8
            };
            match spec_shift_period(ch.note_period, half_steps) {
                Some(p) => Channel { note_period: p, ..ch },
                None => ch,
            }
        } else {
            ch
        },
        Some(Effect::SlideUp(n)) => Channel {
            note_period: if ch.note_period >= n {
                (ch.note_period - n) as u16
            } else {
                0
            },
            ..ch
        },
        Some(Effect::SlideDown(n)) => Channel {
            note_period: if ch.note_period + n <= 65535 {
                (ch.note_period + n) as u16
            } else {
                65535
            },
            ..ch
        },
        Some(Effect::VolumeSlide(n)) => Channel { volume: spec_slide_volume(ch.volume, n), ..ch },
        _ => ch,
    }
}

/// One tick boundary: rearm the sample counter, count the tick down, and
/// apply every channel's pending continuous effect.
pub open spec fn spec_tick_step(s: PState) -> PState {
    let tl = (s.ticks_left - 1) as u32;
    PState {
        samples_left: (s.samples_per_tick - 1) as u32,
        ticks_left: tl,
        channels: Seq::new(4, |i: int| spec_tick_channel(tl, s.ticks_per_line, s.channels[i])),
        ..s
    }
}

/// What mixing one frame does to one channel, and what the channel
/// contributes to the frame: the signed sample byte under the cursor,
/// scaled to 16 bits and by volume over 64. The cursor advances by the
/// clock-to-period ratio; a looping sample wraps back to its repeat point
/// at the end of the repeat region, while a sample that reaches its end
/// without looping deactivates the channel.
pub open spec fn spec_mix_channel(d: Seq<u8>, clock: Fractional, ch: Channel) -> (Channel, int) {
    if ch.sample_num == 0 || ch.note_period == 0 {
        (ch, 0)
    } else {
        let num = ch.sample_num as int;
        let slice = spec_sample_slice(
            d,
            spec_sample_file_offset(d, num),
            spec_sample_length(d, num),
            spec_volume(d, num),
        );
        if slice.len() == 0 {
            (ch, 0)
        } else {
            let idx = ch.sample_position.inner as int / 256;
            let byte: u8 = if idx < slice.len() {
                slice[idx]
            } else {
                0
            };
            let sv: int = if byte < 128 {
                byte as int
            } else {
                byte - 256
            };
            let sample_value = sv * ch.volume * 4;
            let newpos = Fractional {
                inner: spec_sat_add(
                    ch.sample_position.inner,
                    (clock.inner as int / ch.note_period as int) as u32,
                ),
            };
            let rp2 = 2 * spec_repeat_point(d, num);
            let rl2 = 2 * spec_repeat_length(d, num);
            if spec_repeat_length(d, num) != 1 {
                if newpos.inner as int / 256 >= rp2 + rl2 {
                    (
                        Channel {
                            sample_position: Fractional { inner: (256 * rp2) as u32 },
                            ..ch
                        },
                        sample_value,
                    )
                } else {
                    (Channel { sample_position: newpos, ..ch }, sample_value)
                }
            } else if newpos.inner as int / 256 >= 2 * spec_sample_length(d, num) {
                (Channel { note_period: 0, sample_position: newpos, ..ch }, sample_value)
            } else {
                (Channel { sample_position: newpos, ..ch }, sample_value)
            }
        }
    }
}

/// Mix the first `n` channels: the updated channels and the running left
/// and right sums. Channels 0 and 3 pan left; channels 1 and 2 pan right.
pub open spec fn spec_mix_upto(d: Seq<u8>, clock: Fractional, chs: Seq<Channel>, n: int) -> (
    Seq<Channel>,
    int,
    int,
)
    decreases n,
{
    if n <= 0 {
        (chs, 0, 0)
    } else {
        let (prev, l, r) = spec_mix_upto(d, clock, chs, n - 1);
        let (ch2, v) = spec_mix_channel(d, clock, prev[n - 1]);
        (
            prev.update(n - 1, ch2),
            l + if n - 1 == 0 || n - 1 == 3 {
                v
            } else {
                0
            },
            r + if n - 1 == 1 || n - 1 == 2 {
                v
            } else {
                0
            },
        )
    }
}

/// Clamp a mixed sum to the signed 16-bit range.
pub open spec fn spec_clamp16(x: int) -> i16 {
    if x < -32768 {
        -32768i16
    } else if x > 32767 {
        32767i16
    } else {
        x as i16
    }
}

/// Mix one stereo frame from the four channels.
pub open spec fn spec_mix_frame(d: Seq<u8>, s: PState) -> (PState, i16, i16) {
    let (chs, l, r) = spec_mix_upto(d, s.clock, s.channels, 4);
    (PState { channels: chs, ..s }, spec_clamp16(l), spec_clamp16(r))
}

/// One frame of the sequencer: cross a row or tick boundary if one is due,
/// then mix. A song that has run off the end of the position table mixes
/// nothing and yields silence.
pub open spec fn spec_next_sample(d: Seq<u8>, s: PState) -> (PState, i16, i16) {
    if s.ticks_left == 0 && s.samples_left == 0 {
        if spec_find_row(d, s).1 is None {
            (spec_row_step(d, s), 0, 0)
        } else {
            spec_mix_frame(d, spec_row_step(d, s))
        }
    } else if s.samples_left == 0 {
        spec_mix_frame(d, spec_tick_step(s))
    } else {
        spec_mix_frame(d, PState { samples_left: (s.samples_left - 1) as u32, ..s })
    }
}

/// Plays a module, one stereo frame per call.
pub struct Player {
    /// The module bytes.
    pub data: Vec<u8>,
    /// How many samples are left in this tick.
    pub samples_left: u32,
    /// How many ticks are left in this row.
    pub ticks_left: u32,
    /// Ticks per row.
    pub ticks_per_line: u32,
    /// Device samples per tick.
    pub samples_per_tick: u32,
    /// Amiga clock ticks per device sample.
    pub clock_ticks_per_device_sample: Fractional,
    /// The song position being played.
    pub position: u8,
    /// The row being played.
    pub line: u8,
    /// Whether the song has run off the end of the position table.
    pub finished: bool,
    /// This is set when we get a pattern-break effect. It causes us to
    /// jump to a specific row in the next pattern.
    pub pattern_break: Option<u8>,
    /// The four channels.
    pub channels: [Channel; 4],
}

impl View for Player {
    type V = PState;

    open spec fn view(&self) -> PState {
        PState {
            samples_left: self.samples_left,
            ticks_left: self.ticks_left,
            ticks_per_line: self.ticks_per_line,
            samples_per_tick: self.samples_per_tick,
            clock: self.clock_ticks_per_device_sample,
            position: self.position,
            line: self.line,
            finished: self.finished,
            pattern_break: self.pattern_break,
            channels: self.channels@,
        }
    }
}

impl Player {
    /// The module bytes were validated and the state is one the sequencer
    /// can reach.
    pub open spec fn wf(self) -> bool {
        &&& valid_module(self.data@)
        &&& state_ok(self@)
    }

    /// Make a new player over a module file already in memory, at the
    /// given sample rate.
    pub fn new(data: Vec<u8>, sample_rate: u32) -> (r: Result<Player, Error>)
        requires
            sample_rate >= 50,
        ensures
            data@.len() < MINIMUM_LENGTH <==> r == Err::<Player, Error>(Error::FileTooSmall),
            data@.len() >= MINIMUM_LENGTH && !valid_module(data@) <==> r == Err::<Player, Error>(
                Error::WrongMagicValue,
            ),
            valid_module(data@) <==> r is Ok,
            r matches Ok(p) ==> p.wf() && p.data@ == data@ && p@ =~= initial_state(sample_rate),
    {
        match ProTrackerModule::new(data.as_slice()) {
            Err(e) => Err(e),
            Ok(_) => {
                let p = Player {
                    data,
                    samples_left: 0,
                    ticks_left: 0,
                    ticks_per_line: 6,
                    samples_per_tick: sample_rate / 50,
                    position: 0,
                    line: 0,
                    finished: false,
                    clock_ticks_per_device_sample: Fractional::new_from_sample_rate(sample_rate),
                    pattern_break: None,
                    channels: [
                        Channel::default(),
                        Channel::default(),
                        Channel::default(),
                        Channel::default(),
                    ],
                };
                proof {
                    assert(p@.channels =~= initial_state(sample_rate).channels);
                    assert(p@ =~= initial_state(sample_rate));
                }
                Ok(p)
            },
        }
    }

    /// Load one channel from one note of the row being entered: bind the
    /// note's sample and period if it names one, then classify its effect.
    fn row_channel(&mut self, note: Note, i: usize, Ghost(base): Ghost<int>)
        requires
            old(self).wf(),
            i < 4,
            old(self).position <= 127,
            note_matches(note, old(self).data@, base),
        ensures
            final(self).wf(),
            final(self).data == old(self).data,
            final(self).position == old(self).position,
            final(self).line == old(self).line,
            final(self).finished == old(self).finished,
            final(self).samples_left == old(self).samples_left,
            final(self).ticks_left == old(self).ticks_left,
            final(self).samples_per_tick == old(self).samples_per_tick,
            final(self)@ =~= spec_load_channel(old(self).data@, old(self)@, i as int, base),
    {
        proof {
            lemma_note_fields_at(note, self.data@, base);
        }
        let mut ch = self.channels[i];
        // Do we have a new sample to play?
        if !note.is_empty() {
            let m = ProTrackerModule { data: self.data.as_slice() };
            if let Some(sample) = m.sample_info(note.sample_no()) {
                if note.period() != 0 {
                    ch.note_period = note.period();
                }
                ch.volume = clamp_volume(sample.volume());
                ch.sample_num = note.sample_no();
                ch.sample_position = Fractional::default();
            }
        }
        ch.effect = None;
        let eff = note.effect();
        match eff {
            Some(Effect::Arpeggio(_)) => {
                // we'll need this for later
                ch.effect = eff;
            },
            Some(Effect::SlideUp(_)) => {
                ch.effect = eff;
            },
            Some(Effect::SlideDown(_)) => {
                ch.effect = eff;
            },
            Some(Effect::VolumeSlide(_)) => {
                ch.effect = eff;
            },
            Some(Effect::SetVolume(value)) => {
                ch.volume = clamp_volume(value);
            },
            Some(Effect::SetSpeed(value)) => {
                if value <= 31 {
                    self.ticks_per_line = value as u32;
                } else {
                    // They are trying to set speed in beats per minute
                }
            },
            Some(Effect::SampleOffset(n)) => {
                let offset = n as u32 * 256;
                ch.sample_position = Fractional::new(offset);
            },
            Some(Effect::PatternBreak(target)) => {
                // Start the next pattern early, at the given row
                self.pattern_break = Some(target);
            },
            Some(_) => {},
            None => {},
        }
        self.channels[i] = ch;
    }

    /// Cross a row boundary: apply a queued pattern break, find the row to
    /// play, and load the four channels from it. Returns true when the
    /// song position table is exhausted instead.
    fn row_step(&mut self) -> (done: bool)
        requires
            old(self).wf(),
        ensures
            final(self).wf(),
            final(self).data == old(self).data,
            final(self)@ =~= spec_row_step(old(self).data@, old(self)@),
            done == (spec_find_row(old(self).data@, old(self)@).1 is None),
    {
        let ghost d = self.data@;
        let ghost s_start = self@;
        // Did we have a pattern break? Jump straight there.
        if let Some(target) = self.pattern_break {
            self.pattern_break = None;
            self.position = self.position + 1;
            self.line = target;
        }
        proof {
            assert(self@ =~= spec_apply_break(s_start));
        }
        // Find which row we play next. It might be the current row in this
        // pattern, or it might be the first row in the next pattern.
        let line: Line<4>;
        {
            let m = ProTrackerModule { data: self.data.as_slice() };
            match m.song_position(self.position) {
                None => {
                    self.finished = true;
                    proof {
                        assert(self@ =~= spec_find_row(d, s_start).0);
                    }
                    return true;
                },
                Some(pattern_idx) => {
                    proof {
                        lemma_position_below_num_patterns(d, self.position as int);
                    }
                    let pattern = m.pattern(pattern_idx).unwrap();
                    match pattern.line(self.line) {
                        Some(l) => {
                            line = l;
                        },
                        None => {
                            // Go to start of next pattern
                            self.line = 0;
                            self.position = self.position + 1;
                            match m.song_position(self.position) {
                                None => {
                                    self.finished = true;
                                    proof {
                                        assert(self@ =~= spec_find_row(d, s_start).0);
                                    }
                                    return true;
                                },
                                Some(pattern_idx2) => {
                                    proof {
                                        lemma_position_below_num_patterns(
                                            d,
                                            self.position as int,
                                        );
                                    }
                                    let pattern2 = m.pattern(pattern_idx2).unwrap();
                                    line = pattern2.line(self.line).unwrap();
                                },
                            }
                        },
                    }
                },
            }
        }
        let ghost pat: u8 = spec_position(d, self@.position as int);
        let ghost row: u8 = self@.line;
        let ghost s_f = self@;
        proof {
            assert(spec_find_row(d, s_start) == (s_f, Some((pat, row))));
            assert(line_matches(line, d, pat as int, row as int));
            assert(row < 64);
            assert(self.position <= 127);
        }
        // Load four channels with new row data
        proof {
            assert(spec_row_channels(d, s_f, pat as int, row as int, 0) == s_f);
        }
        self.row_channel(line.channel[0], 0, Ghost(note_base(pat as int, row as int, 0)));
        proof {
            assert(self@ =~= spec_row_channels(d, s_f, pat as int, row as int, 1));
        }
        self.row_channel(line.channel[1], 1, Ghost(note_base(pat as int, row as int, 1)));
        proof {
            assert(self@ =~= spec_row_channels(d, s_f, pat as int, row as int, 2));
        }
        self.row_channel(line.channel[2], 2, Ghost(note_base(pat as int, row as int, 2)));
        proof {
            assert(self@ =~= spec_row_channels(d, s_f, pat as int, row as int, 3));
        }
        self.row_channel(line.channel[3], 3, Ghost(note_base(pat as int, row as int, 3)));
        proof {
            assert(self@ =~= spec_row_channels(d, s_f, pat as int, row as int, 4));
        }
        self.line = self.line + 1;
        self.samples_left = self.samples_per_tick - 1;
        self.ticks_left = if self.ticks_per_line >= 1 {
            self.ticks_per_line - 1
        } else {
            0
        };
        proof {
            assert(self@ =~= spec_row_step(d, s_start));
        }
        false
    }

    /// Cross a tick boundary: rearm the sample counter, count the tick
    /// down, and apply every channel's pending continuous effect.
    fn tick_step(&mut self)
        requires
            old(self).wf(),
            old(self).ticks_left >= 1,
        ensures
            final(self).wf(),
            final(self).data == old(self).data,
            final(self)@ =~= spec_tick_step(old(self)@),
    {
        let ghost s0 = self@;
        self.samples_left = self.samples_per_tick - 1;
        self.ticks_left = self.ticks_left - 1;
        self.channels[0] = tick_channel(self.channels[0], self.ticks_left, self.ticks_per_line);
        self.channels[1] = tick_channel(self.channels[1], self.ticks_left, self.ticks_per_line);
        self.channels[2] = tick_channel(self.channels[2], self.ticks_left, self.ticks_per_line);
        self.channels[3] = tick_channel(self.channels[3], self.ticks_left, self.ticks_per_line);
        proof {
            let tl = (s0.ticks_left - 1) as u32;
            assert(self@.channels =~= Seq::new(
                4,
                |i: int| spec_tick_channel(tl, s0.ticks_per_line, s0.channels[i]),
            ));
            assert(self@ =~= spec_tick_step(s0));
        }
    }

    /// Mix the four channels into one stereo frame, advancing each active
    /// channel's cursor. Channels 0 and 3 pan left; 1 and 2 pan right.
    fn mix_frame(&mut self) -> (r: (i16, i16))
        requires
            old(self).wf(),
        ensures
            final(self).wf(),
            final(self).data == old(self).data,
            ({
                let (s2, l, rr) = spec_mix_frame(old(self).data@, old(self)@);
                final(self)@ =~= s2 && r.0 == l && r.1 == rr
            }),
    {
        let ghost d = self.data@;
        let ghost s0 = self@;
        let clock = self.clock_ticks_per_device_sample;
        // Pump existing channels
        let mut left_sample: i32 = 0;
        let mut right_sample: i32 = 0;
        proof {
            assert(spec_mix_upto(d, clock, s0.channels, 0) == (s0.channels, 0int, 0int));
        }
        let (c0, v0) = mix_channel(self.data.as_slice(), clock, self.channels[0]);
        self.channels[0] = c0;
        left_sample = left_sample + v0;
        proof {
            assert(self@.channels =~= spec_mix_upto(d, clock, s0.channels, 1).0);
            assert(left_sample == spec_mix_upto(d, clock, s0.channels, 1).1);
            assert(right_sample == spec_mix_upto(d, clock, s0.channels, 1).2);
        }
        let (c1, v1) = mix_channel(self.data.as_slice(), clock, self.channels[1]);
        self.channels[1] = c1;
        right_sample = right_sample + v1;
        proof {
            assert(self@.channels =~= spec_mix_upto(d, clock, s0.channels, 2).0);
            assert(left_sample == spec_mix_upto(d, clock, s0.channels, 2).1);
            assert(right_sample == spec_mix_upto(d, clock, s0.channels, 2).2);
        }
        let (c2, v2) = mix_channel(self.data.as_slice(), clock, self.channels[2]);
        self.channels[2] = c2;
        right_sample = right_sample + v2;
        proof {
            assert(self@.channels =~= spec_mix_upto(d, clock, s0.channels, 3).0);
            assert(left_sample == spec_mix_upto(d, clock, s0.channels, 3).1);
            assert(right_sample == spec_mix_upto(d, clock, s0.channels, 3).2);
        }
        let (c3, v3) = mix_channel(self.data.as_slice(), clock, self.channels[3]);
        self.channels[3] = c3;
        left_sample = left_sample + v3;
        proof {
            assert(self@.channels =~= spec_mix_upto(d, clock, s0.channels, 4).0);
            assert(left_sample == spec_mix_upto(d, clock, s0.channels, 4).1);
            assert(right_sample == spec_mix_upto(d, clock, s0.channels, 4).2);
        }
        let left: i16 = if left_sample < -32768 {
            -32768
        } else if left_sample > 32767 {
            32767
        } else {
            left_sample as i16
        };
        let right: i16 = if right_sample < -32768 {
            -32768
        } else if right_sample > 32767 {
            32767
        } else {
            right_sample as i16
        };
        (left, right)
    }

    /// Return a stereo sample pair, advancing the sequencer by one frame.
    ///
    /// Once the song position table is exhausted, the finished flag is set
    /// and this and every later call yield silence.
    pub fn next_sample(&mut self) -> (r: (i16, i16))
        requires
            old(self).wf(),
        ensures
            final(self).wf(),
            final(self).data == old(self).data,
            ({
                let (s2, l, rr) = spec_next_sample(old(self).data@, old(self)@);
                final(self)@ =~= s2 && r.0 == l && r.1 == rr
            }),
    {
        if self.ticks_left == 0 && self.samples_left == 0 {
            // It is time for a new row
            let done = self.row_step();
            if done {
                return (0, 0);
            }
            self.mix_frame()
        } else if self.samples_left == 0 {
            // end of a tick
            self.tick_step();
            self.mix_frame()
        } else {
            // just another sample
            self.samples_left = self.samples_left - 1;
            self.mix_frame()
        }
    }
}

/// The first `n` frames the sequencer yields from state `s`.
pub open spec fn spec_frames(d: Seq<u8>, s: PState, n: int) -> Seq<(i16, i16)>
    decreases n,
{
    if n <= 0 {
        Seq::empty()
    } else {
        let (s1, l, r) = spec_next_sample(d, s);
        seq![(l, r)] + spec_frames(d, s1, n - 1)
    }
}

/// Law: sequencing is deterministic. Over the same module bytes, equal
/// states step to the same frame and the same successor state, so
/// replaying a module from a fresh player — in particular from two
/// players built over the same buffer and sample rate — yields
/// byte-identical frame sequences on every run.
pub proof fn lemma_replay_deterministic(d: Seq<u8>, s1: PState, s2: PState, n: int)
    requires
        s1 =~= s2,
    ensures
        spec_next_sample(d, s1) == spec_next_sample(d, s2),
        spec_frames(d, s1, n) == spec_frames(d, s2, n),
{
    assert(s1 == s2);
}

/// Law: the end of the song is absorbing. At a row boundary with no
/// queued break and the song position off the end of the table, the frame
/// is silent, the finished flag is set, and the successor state satisfies
/// the same premise — so every later frame is silent too.
pub proof fn lemma_song_end_is_absorbing(d: Seq<u8>, s: PState)
    requires
        s.ticks_left == 0,
        s.samples_left == 0,
        s.pattern_break is None,
        !spec_has_position(d, s.position as int),
    ensures
        ({
            let (s1, l, r) = spec_next_sample(d, s);
            &&& s1.finished
            &&& l == 0
            &&& r == 0
            &&& s1.ticks_left == 0
            &&& s1.samples_left == 0
            &&& s1.pattern_break is None
            &&& !spec_has_position(d, s1.position as int)
        }),
{
}

/// Law: a speed effect applies to the row it appears on. Loading any
/// channel whose note carries SetSpeed `v` with `v <= 31` sets
/// ticks-per-row to `v` at once, and the row epilogue then rearms the
/// tick counter from that value — so the row the effect stands on is
/// itself played with `v` ticks, and the speed stays `v` for later rows.
pub proof fn lemma_set_speed_applies_to_its_row(
    d: Seq<u8>,
    s: PState,
    i: int,
    base: int,
    row: u8,
    v: u8,
)
    requires
        spec_effect(spec_effect_word_at(d, base)) == Some(Effect::SetSpeed(v)),
        1 <= v <= 31,
    ensures
        spec_load_channel(d, s, i, base).ticks_per_line == v,
        spec_row_epilogue(spec_load_channel(d, s, i, base), row).ticks_per_line == v,
        spec_row_epilogue(spec_load_channel(d, s, i, base), row).ticks_left == v - 1,
{
}

/// Law: nothing but a speed effect touches the speed — loading a channel
/// whose note carries anything else leaves ticks-per-row as it was.
pub proof fn lemma_speed_persists(d: Seq<u8>, s: PState, i: int, base: int)
    requires
        !(spec_effect(spec_effect_word_at(d, base)) matches Some(Effect::SetSpeed(_))),
    ensures
        spec_load_channel(d, s, i, base).ticks_per_line == s.ticks_per_line,
{
}

/// Law: a volume slide never pushes a channel's volume outside `0..=63`,
/// whatever the slide's magnitude and however many ticks apply it: a
/// tick whose sum leaves the range clamps to the nearer boundary.
pub proof fn lemma_volume_slide_bounded(vol: u8, delta: i8)
    ensures
        spec_slide_volume(vol, delta) <= 63,
        vol + delta > 63 && vol <= 127 ==> spec_slide_volume(vol, delta) == 63,
        vol < 128 && vol + delta < 0 ==> spec_slide_volume(vol, delta) == 0,
        vol <= 63 && 0 <= vol + delta <= 63 ==> spec_slide_volume(vol, delta) == vol + delta,
{
}

/// Law: the loop sentinel. In one mixing step of an active channel whose
/// sample has bytes to play, the one-word repeat length means "no loop":
/// the cursor only ever advances, and the channel is deactivated exactly
/// when the cursor passes the end of the sample. Any other repeat length
/// loops: the channel stays active and the cursor wraps back to the
/// repeat point exactly when it reaches the end of the repeat region.
pub proof fn lemma_repeat_sentinel(d: Seq<u8>, clock: Fractional, ch: Channel)
    requires
        ch.sample_num != 0,
        ch.note_period != 0,
        spec_sample_slice(
            d,
            spec_sample_file_offset(d, ch.sample_num as int),
            spec_sample_length(d, ch.sample_num as int),
            spec_volume(d, ch.sample_num as int),
        ).len() != 0,
    ensures
        ({
            let num = ch.sample_num as int;
            let c2 = spec_mix_channel(d, clock, ch).0;
            let stepped = spec_sat_add(
                ch.sample_position.inner,
                (clock.inner as int / ch.note_period as int) as u32,
            );
            let repeat_end = 2 * (spec_repeat_point(d, num) + spec_repeat_length(d, num));
            &&& spec_repeat_length(d, num) == 1 ==> {
                &&& c2.sample_position.inner == stepped
                &&& c2.sample_position.inner >= ch.sample_position.inner
                &&& (c2.note_period == 0 <==> stepped as int / 256 >= 2 * spec_sample_length(
                    d,
                    num,
                ))
            }
            &&& spec_repeat_length(d, num) != 1 ==> {
                &&& c2.note_period == ch.note_period
                &&& (stepped as int / 256 >= repeat_end ==> c2.sample_position.inner == 512
                    * spec_repeat_point(d, num))
                &&& (stepped as int / 256 < repeat_end ==> c2.sample_position.inner == stepped)
            }
        }),
{
}

/// Cut a volume the sequencer takes up down to the mixer's 0..=64 range.
fn clamp_volume(v: u8) -> (r: u8)
    ensures
        r == spec_clamp_volume(v),
{
    if v > 64 {
        64
    } else {
        v
    }
}

/// Slide a channel volume by a signed per-tick delta, clamping the
/// result to `0..=63`.
fn slide_volume(volume: u8, delta: i8) -> (r: u8)
    ensures
        r == spec_slide_volume(volume, delta),
{
    let sv: i16 = if volume < 128 {
        volume as i16
    } else {
        volume as i16 - 256
    };
    let nv: i16 = sv + delta as i16;
    if nv < 0 {
        0
    } else if nv > 63 {
        63
    } else {
        nv as u8
    }
}

/// Apply one tick's worth of a channel's pending continuous effect.
fn tick_channel(ch: Channel, ticks_left: u32, ticks_per_line: u32) -> (r: Channel)
    ensures
        r == spec_tick_channel(ticks_left, ticks_per_line, ch),
        r.sample_num == ch.sample_num,
{
    let lower_third = ticks_per_line / 3;
    let upper_third = lower_third * 2;
    match ch.effect {
        Some(Effect::Arpeggio(n)) => {
            proof {
                assert(n >> 4u8 == n / 16 && (n & 0x0F) == n % 16) by (bit_vector);
            }
            if ticks_left == upper_third {
                let half_steps = n >> 4u8;
                match shift_period(ch.note_period, half_steps) {
                    Some(new_period) => Channel { note_period: new_period, ..ch },
                    None => ch,
                }
            } else if ticks_left == lower_third {
                let first_half_steps = n >> 4u8;
                let second_half_steps = n & 0x0F;
                let half_steps: u8 = if second_half_steps >= first_half_steps {
                    second_half_steps - first_half_steps
                } else {
                    (256 + second_half_steps as u16 - first_half_steps as u16) as u8
                };
                match shift_period(ch.note_period, half_steps) {
                    Some(new_period) => Channel { note_period: new_period, ..ch },
                    None => ch,
                }
            } else {
                ch
            }
        },
        Some(Effect::SlideUp(n)) => Channel {
            note_period: if ch.note_period >= n as u16 {
                ch.note_period - n as u16
            } else {
                0
            },
            ..ch
        },
        Some(Effect::SlideDown(n)) => Channel {
            note_period: if ch.note_period <= 65535 - n as u16 {
                ch.note_period + n as u16
            } else {
                65535
            },
            ..ch
        },
        Some(Effect::VolumeSlide(n)) => Channel { volume: slide_volume(ch.volume, n), ..ch },
        _ => ch,
    }
}

/// Mix one channel into the frame and advance its cursor.
fn mix_channel(data: &[u8], clock: Fractional, ch: Channel) -> (r: (Channel, i32))
    requires
        valid_module(data@),
        ch.sample_num <= 31,
    ensures
        (r.0, r.1 as int) == spec_mix_channel(data@, clock, ch),
        r.0.sample_num == ch.sample_num,
        -130560 <= r.1 <= 130560,
{
    if ch.sample_num == 0 || ch.note_period == 0 {
        return (ch, 0);
    }
    let m = ProTrackerModule { data };
    let current_sample = m.sample(ch.sample_num).unwrap();
    let sample_data = current_sample.raw_sample_bytes();
    if sample_data.len() == 0 {
        return (ch, 0);
    }
    let integer_pos = ch.sample_position.as_index();
    let sample_byte: u8 = if integer_pos < sample_data.len() {
        sample_data[integer_pos]
    } else {
        0
    };
    let sv: i32 = if sample_byte < 128 {
        sample_byte as i32
    } else {
        sample_byte as i32 - 256
    };
    proof {
        assert(-130560 <= sv * (ch.volume as int) * 4 <= 130560) by (nonlinear_arith)
            requires
                -128 <= sv <= 127,
                0 <= ch.volume <= 255,
        ;
    }
    // max channel vol (64), sample range [-128,127] scaled to [-32768, 32767]:
    // multiply by 256 and by volume over 64, which is four times the volume
    let channel_value: i32 = sv * (ch.volume as i32) * 4;
    let mut ch = ch;
    // move the sample index by a non-integer amount
    ch.sample_position = ch.sample_position.sat_plus(clock.apply_period(ch.note_period));
    // loop sample if required
    if current_sample.loops() {
        if ch.sample_position.as_index() >= current_sample.repeat_point_bytes()
            + current_sample.repeat_length_bytes() {
            ch.sample_position = Fractional::new(current_sample.repeat_point_bytes() as u32);
        }
    } else if ch.sample_position.as_index() >= current_sample.sample_length_bytes() {
        // stop playing sample
        ch.note_period = 0;
    }
    (ch, channel_value)
}

} // verus!
