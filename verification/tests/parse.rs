//! Parser tests over synthetic module buffers whose sample table carries
//! the same names and properties the reference file had.

use neotracker::ProTrackerModule;

/// A blank but valid module buffer: all zeroes except the magic tag.
/// With an all-zero position table it holds exactly one pattern.
fn blank_module(extra_patterns: usize) -> Vec<u8> {
    let mut v = vec![0u8; 1084 + 1024 * (1 + extra_patterns)];
    v[1080] = b'M';
    v[1081] = b'.';
    v[1082] = b'K';
    v[1083] = b'.';
    v
}

/// Fill one 30-byte sample metadata slot (0-indexed).
fn set_sample_meta(
    buf: &mut [u8],
    slot: usize,
    name: &[u8],
    len_words: u16,
    finetune: u8,
    volume: u8,
    repeat_point_words: u16,
    repeat_length_words: u16,
) {
    let base = 20 + 30 * slot;
    for (i, b) in name.iter().enumerate() {
        buf[base + i] = *b;
    }
    buf[base + 22] = (len_words >> 8) as u8;
    buf[base + 23] = (len_words & 0xFF) as u8;
    buf[base + 24] = finetune;
    buf[base + 25] = volume;
    buf[base + 26] = (repeat_point_words >> 8) as u8;
    buf[base + 27] = (repeat_point_words & 0xFF) as u8;
    buf[base + 28] = (repeat_length_words >> 8) as u8;
    buf[base + 29] = (repeat_length_words & 0xFF) as u8;
}

/// The sample table of the reference song: name, length in words,
/// finetune, volume, repeat point and repeat length in words.
fn reference_samples() -> Vec<(&'static [u8], u16, u8, u8, u16, u16)> {
    vec![
        (b"brazzstring1", 0, 0, 0, 0, 0),
        (b"brazzstring2", 0, 0, 0, 0, 0),
        (b"brazzstring3", 0, 0, 0, 0, 0),
        (b"brazzstring5", 0, 0, 0, 0, 0),
        (b"MixSynth3.bas", 1500, 0, 52, 0, 1),
        (b"49-Bass5", 4846, 0, 64, 0, 1),
        (b"BuffBD", 2038, 0, 47, 0, 1),
        (b"snare25", 1505, 0, 64, 0, 1),
        (b"efg-string.1", 12030, 0, 64, 3563, 8467),
        (b"efg-string.2", 14461, 0, 64, 5296, 9165),
        (b"efg-string.3", 14583, 0, 64, 4272, 10311),
        (b"hihat-open", 4969, 0, 24, 0, 1),
        (b"", 0, 0, 0, 0, 1),
        (b"vogue-pianochord.5", 4277, 0, 64, 0, 1),
        (b"vogue-pianochord.4", 3162, 0, 64, 0, 1),
        (b"vogue-pianochord.7", 4221, 0, 64, 0, 1),
        (b"squarewave", 7028, 0, 44, 2215, 4813),
        (b"mt.lead-2494-7e", 4745, 0, 51, 0, 4745),
        (b"", 0, 0, 0, 0, 1),
        (b"", 0, 0, 0, 0, 1),
        (b"", 0, 0, 0, 0, 1),
        (b"", 0, 0, 0, 0, 1),
        (b"", 0, 0, 0, 0, 1),
        (b"", 0, 0, 0, 0, 1),
        (b"", 0, 0, 0, 0, 1),
        (b"", 0, 0, 0, 0, 1),
        (b"", 0, 0, 0, 0, 1),
        (b"", 0, 0, 0, 0, 1),
        (b"", 0, 0, 0, 0, 1),
        (b"", 0, 0, 0, 0, 1),
        (b"", 0, 0, 0, 0, 1),
    ]
}

fn reference_module() -> Vec<u8> {
    let mut data = blank_module(0);
    for (slot, (name, len, fine, vol, rp, rl)) in reference_samples().into_iter().enumerate() {
        set_sample_meta(&mut data, slot, name, len, fine, vol, rp, rl);
    }
    data
}

#[test]
fn recognise_file() {
    let _pt = ProTrackerModule::new(&reference_module()).unwrap();
}

#[test]
fn sample_names() {
    static SAMPLE_NAMES: &[&[u8]] = &[
        // Sample 0
        b"brazzstring1",
        // Sample 1
        b"brazzstring2",
        // Sample 2
        b"brazzstring3",
        // Sample 3
        b"brazzstring5",
        // Sample 4
        b"MixSynth3.bas",
        // Sample 5
        b"49-Bass5",
        // Sample 6
        b"BuffBD",
        // Sample 7
        b"snare25",
        // Sample 8
        b"efg-string.1",
        // Sample 9
        b"efg-string.2",
        // Sample 10
        b"efg-string.3",
        // Sample 11
        b"hihat-open",
        // Sample 12
        b"",
        // Sample 13
        b"vogue-pianochord.5",
        // Sample 14
        b"vogue-pianochord.4",
        // Sample 15
        b"vogue-pianochord.7",
        // Sample 16
        b"squarewave",
        // Sample 17
        b"mt.lead-2494-7e",
        // Sample 18
        b"",
        // Sample 19
        b"",
        // Sample 20
        b"",
        // Sample 21
        b"",
        // Sample 22
        b"",
        // Sample 23
        b"",
        // Sample 24
        b"",
        // Sample 25
        b"",
        // Sample 26
        b"",
        // Sample 27
        b"",
        // Sample 28
        b"",
        // Sample 29
        b"",
        // Sample 30
        b"",
    ];

    let data = reference_module();
    let pt = ProTrackerModule::new(&data).unwrap();

    let mut iter = pt.samples();
    let mut idx = 0;
    while let Some(sample) = iter.next() {
        assert_eq!(
            sample.name(),
            SAMPLE_NAMES[idx],
            "Sample {} name is wrong {:?} != {:?}",
            idx,
            std::str::from_utf8(sample.name()),
            std::str::from_utf8(SAMPLE_NAMES[idx])
        );
        idx += 1;
    }
    assert_eq!(idx, 31);
}

#[test]
fn sample_properties() {
    static SAMPLE_PROPERTIES: &[(usize, u8, u8, usize, usize)] = &[
        // Sample 0
        (0, 0, 0, 0, 0),
        // Sample 1
        (0, 0, 0, 0, 0),
        // Sample 2
        (0, 0, 0, 0, 0),
        // Sample 3
        (0, 0, 0, 0, 0),
        // Sample 4
        (3000, 0, 52, 0, 2),
        // Sample 5
        (9692, 0, 64, 0, 2),
        // Sample 6
        (4076, 0, 47, 0, 2),
        // Sample 7
        (3010, 0, 64, 0, 2),
        // Sample 8
        (24060, 0, 64, 7126, 16934),
        // Sample 9
        (28922, 0, 64, 10592, 18330),
        // Sample 10
        (29166, 0, 64, 8544, 20622),
        // Sample 11
        (9938, 0, 24, 0, 2),
        // Sample 12
        (0, 0, 0, 0, 2),
        // Sample 13
        (8554, 0, 64, 0, 2),
        // Sample 14
        (6324, 0, 64, 0, 2),
        // Sample 15
        (8442, 0, 64, 0, 2),
        // Sample 16
        (14056, 0, 44, 4430, 9626),
        // Sample 17
        (9490, 0, 51, 0, 9490),
        // Sample 18
        (0, 0, 0, 0, 2),
        // Sample 19
        (0, 0, 0, 0, 2),
        // Sample 20
        (0, 0, 0, 0, 2),
        // Sample 21
        (0, 0, 0, 0, 2),
        // Sample 22
        (0, 0, 0, 0, 2),
        // Sample 23
        (0, 0, 0, 0, 2),
        // Sample 24
        (0, 0, 0, 0, 2),
        // Sample 25
        (0, 0, 0, 0, 2),
        // Sample 26
        (0, 0, 0, 0, 2),
        // Sample 27
        (0, 0, 0, 0, 2),
        // Sample 28
        (0, 0, 0, 0, 2),
        // Sample 29
        (0, 0, 0, 0, 2),
        // Sample 30
        (0, 0, 0, 0, 2),
    ];

    let data = reference_module();
    let pt = ProTrackerModule::new(&data).unwrap();

    let mut iter = pt.samples();
    let mut idx = 0;
    while let Some(sample) = iter.next() {
        // sample_length_bytes
        // finetune
        // volume
        // repeat_point_bytes
        // repeat_length_bytes
        let info = (
            sample.sample_length_bytes(),
            sample.finetune(),
            sample.volume(),
            sample.repeat_point_bytes(),
            sample.repeat_length_bytes(),
        );
        assert_eq!(
            info, SAMPLE_PROPERTIES[idx],
            "Sample {} info is wrong {:?} != {:?}",
            idx, info, SAMPLE_PROPERTIES[idx],
        );
        idx += 1;
    }
    assert_eq!(idx, 31);
}

#[test]
fn decode_song() {
    // A two-pattern song: pattern 0 carries two notes on its first row,
    // pattern 1 ends with a speed effect on its last row.
    let mut data = blank_module(1);
    for (slot, (name, len, fine, vol, rp, rl)) in reference_samples().into_iter().enumerate() {
        set_sample_meta(&mut data, slot, name, len, fine, vol, rp, rl);
    }
    data[950] = 2; // song length
    data[952] = 0; // first position plays pattern 0
    data[953] = 1; // second position plays pattern 1
    // pattern 0, row 0, channel 0: sample 0x12, period 172, effect 0x003
    data[1084] = 0x10;
    data[1085] = 0xAC;
    data[1086] = 0x20;
    data[1087] = 0x03;
    // pattern 0, row 0, channel 2: sample 1, period 428
    data[1092] = 0x01;
    data[1093] = 0xAC;
    data[1094] = 0x10;
    data[1095] = 0x00;
    // pattern 1, row 63, channel 3: effect 0xF03 (set speed 3)
    let base = 1084 + 1024 + 63 * 16 + 3 * 4;
    data[base + 2] = 0x0F;
    data[base + 3] = 0x03;

    // What each note of the song should decode to.
    let expected_note = |pattern: u8, row: usize, ch: usize| -> (u8, u16, u16) {
        match (pattern, row, ch) {
            (0, 0, 0) => (0x12, 172, 0x003),
            (0, 0, 2) => (0x01, 428, 0x000),
            (1, 63, 3) => (0x00, 0, 0xF03),
            _ => (0, 0, 0),
        }
    };

    let mut expected = String::new();
    for (idx, (_, len, fine, vol, rp, rl)) in reference_samples().into_iter().enumerate() {
        expected.push_str(&format!("Sample {}: {} {} {} {} {}\n", idx, len, fine, vol, rp, rl));
    }
    for pattern in [0u8, 1u8] {
        expected.push_str(&format!("Pattern {}\n", pattern));
        for row in 0..64 {
            expected.push_str("\t|");
            for ch in 0..4 {
                let (sample_no, period, effect) = expected_note(pattern, row, ch);
                expected.push_str(&format!(" {:02x} {:06} {:04x} |", sample_no, period, effect));
            }
            expected.push_str("\n");
        }
    }

    let mut buffer = String::new();
    let pt = ProTrackerModule::new(&data).unwrap();

    let mut samples = pt.samples();
    let mut idx = 0;
    while let Some(si) = samples.next() {
        buffer.push_str(&format!(
            "Sample {}: {} {} {} {} {}\n",
            idx,
            si.sample_length(),
            si.finetune(),
            si.volume(),
            si.repeat_point(),
            si.repeat_length()
        ));
        idx += 1;
    }

    for pattern in pt.song_positions() {
        buffer.push_str(&format!("Pattern {}\n", pattern));
        let pattern = pt.pattern(*pattern).unwrap();
        let mut lines = pattern.lines();
        while let Some(line) = lines.next() {
            buffer.push_str("\t|");
            for ch in 0..4 {
                buffer.push_str(&format!(
                    " {:02x} {:06} {:04x} |",
                    line.channel[ch].sample_no(),
                    line.channel[ch].period(),
                    line.channel[ch].effect_u16(),
                ));
            }
            buffer.push_str("\n");
        }
    }
    assert_eq!(expected, buffer);
}

#[test]
fn open_rejects_short_and_untagged_buffers() {
    // One byte short of the minimum: rejected for size even with the tag.
    let mut short = vec![0u8; 2107];
    if short.len() > 1083 {
        short[1080] = b'M';
        short[1081] = b'.';
        short[1082] = b'K';
        short[1083] = b'.';
    }
    assert_eq!(
        ProTrackerModule::new(&short).unwrap_err(),
        neotracker::Error::FileTooSmall
    );
    // Long enough but the magic tag is wrong.
    let mut untagged = vec![0u8; 2108];
    untagged[1080] = b'M';
    untagged[1081] = b'.';
    untagged[1082] = b'K';
    untagged[1083] = b'!';
    assert_eq!(
        ProTrackerModule::new(&untagged).unwrap_err(),
        neotracker::Error::WrongMagicValue
    );
    // Exactly the minimum with the right tag: accepted.
    assert!(ProTrackerModule::new(&blank_module(0)).is_ok());
}

#[test]
fn num_patterns_counts_unused_table_entries() {
    let mut data = blank_module(7);
    data[950] = 2; // only two positions are used...
    data[952] = 0;
    data[953] = 3;
    data[957] = 7; // ...but an unused slot still names pattern 7
    let pt = ProTrackerModule::new(&data).unwrap();
    assert_eq!(pt.num_patterns(), 8);
    assert_eq!(pt.song_length(), 2);
    assert_eq!(pt.song_positions(), &[0, 3]);
    assert_eq!(pt.song_position(1), Some(3));
    assert_eq!(pt.song_position(2), None);
    assert!(pt.pattern(7).is_some());
    assert!(pt.pattern(8).is_none());
}

#[test]
fn note_decoding_is_pure() {
    let mut data = blank_module(0);
    data[950] = 1;
    data[1084] = 0x3A;
    data[1085] = 0x7B;
    data[1086] = 0xC5;
    data[1087] = 0x99;
    let pt = ProTrackerModule::new(&data).unwrap();
    let pattern = pt.pattern(0).unwrap();
    let first = pattern.line(0).unwrap();
    let again = pattern.line(0).unwrap();
    for ch in 0..4 {
        assert_eq!(first.channel[ch].sample_no(), again.channel[ch].sample_no());
        assert_eq!(first.channel[ch].period(), again.channel[ch].period());
        assert_eq!(first.channel[ch].effect_u16(), again.channel[ch].effect_u16());
    }
    // and the packed fields land where the layout says
    assert_eq!(first.channel[0].sample_no(), 0x3C);
    assert_eq!(first.channel[0].period(), 0xA7B);
    assert_eq!(first.channel[0].effect_u16(), 0x599);
    assert!(!first.channel[0].is_empty());
    assert!(first.channel[1].is_empty());
}

#[test]
fn sample_name_trimming_and_truncated_data() {
    let mut data = blank_module(0);
    // name with trailing zero padding and an interior zero kept
    let base = 20;
    data[base] = b'a';
    data[base + 1] = 0;
    data[base + 2] = b'b';
    // sample 1 claims 4000 words but the file ends long before that
    data[base + 22] = (4000u16 >> 8) as u8;
    data[base + 23] = (4000u16 & 0xFF) as u8;
    data[base + 25] = 40; // volume, so the raw bytes are not short-cut
    let pt = ProTrackerModule::new(&data).unwrap();
    let sample = pt.sample(1).unwrap();
    assert_eq!(sample.name(), b"a\0b");
    // sample data starts right after the single pattern, at 2108, which
    // is exactly the end of the file: nothing left, but no panic either
    assert_eq!(sample.raw_sample_bytes().len(), 0);
    assert!(pt.sample(0).is_none());
    assert!(pt.sample(32).is_none());
}

#[test]
fn sample_data_is_laid_out_back_to_back() {
    let mut data = blank_module(0);
    set_sample_meta(&mut data, 0, b"one", 2, 0, 10, 0, 1);
    set_sample_meta(&mut data, 1, b"two", 1, 0, 10, 0, 1);
    data.extend_from_slice(&[1, 2, 3, 4, 5, 6]);
    let pt = ProTrackerModule::new(&data).unwrap();
    assert_eq!(pt.sample(1).unwrap().raw_sample_bytes(), &[1, 2, 3, 4]);
    assert_eq!(pt.sample(2).unwrap().raw_sample_bytes(), &[5, 6]);
    // a zero-volume sample yields no bytes at all
    let mut muted = data.clone();
    muted[20 + 25] = 0;
    let pt = ProTrackerModule::new(&muted).unwrap();
    assert_eq!(pt.sample(1).unwrap().raw_sample_bytes().len(), 0);
}

#[test]
fn sample_bytes_iter_honours_loop_sentinel() {
    let mut data = blank_module(0);
    // three words of data, no loop (repeat length of exactly one word)
    set_sample_meta(&mut data, 0, b"plain", 3, 0, 10, 0, 1);
    // three words of data, looping over words 1..=2
    set_sample_meta(&mut data, 1, b"looped", 3, 0, 10, 1, 2);
    data.extend_from_slice(&[10, 11, 12, 13, 14, 15]);
    data.extend_from_slice(&[20, 21, 22, 23, 24, 25]);
    let pt = ProTrackerModule::new(&data).unwrap();

    let no_loop = pt.sample(1).unwrap();
    let mut iter = no_loop.sample_bytes_iter();
    let mut collected = Vec::new();
    for _ in 0..8 {
        collected.push(iter.next());
    }
    assert_eq!(
        collected,
        vec![
            Some(10),
            Some(11),
            Some(12),
            Some(13),
            Some(14),
            Some(15),
            None,
            None
        ]
    );

    let looped = pt.sample(2).unwrap();
    assert!(looped.loops());
    assert!(!no_loop.loops());
    let mut iter = looped.sample_bytes_iter();
    let mut collected = Vec::new();
    for _ in 0..10 {
        collected.push(iter.next().unwrap());
    }
    // bytes 0..6 play once, then the cursor wraps back to byte 2 whenever
    // it reaches the end of the repeat region at byte 6
    assert_eq!(collected, vec![20, 21, 22, 23, 24, 25, 22, 23, 24, 25]);
}
