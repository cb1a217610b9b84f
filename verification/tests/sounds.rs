use vitaforge::audio::{grains, port_format, WavSound, GRAIN_SIZE};

fn wav(channels: u16, rate: u32, extra_chunk: bool, samples: &[i16]) -> Vec<u8> {
    let mut b = Vec::new();
    b.extend_from_slice(b"RIFF");
    b.extend_from_slice(&0u32.to_le_bytes());
    b.extend_from_slice(b"WAVE");
    if extra_chunk {
        b.extend_from_slice(b"LIST");
        b.extend_from_slice(&4u32.to_le_bytes());
        b.extend_from_slice(b"abcd");
    }
    b.extend_from_slice(b"fmt ");
    b.extend_from_slice(&16u32.to_le_bytes());
    b.extend_from_slice(&1u16.to_le_bytes());
    b.extend_from_slice(&channels.to_le_bytes());
    b.extend_from_slice(&rate.to_le_bytes());
    b.extend_from_slice(&(rate * 2 * channels as u32).to_le_bytes());
    b.extend_from_slice(&(2 * channels).to_le_bytes());
    b.extend_from_slice(&16u16.to_le_bytes());
    b.extend_from_slice(b"data");
    b.extend_from_slice(&((samples.len() * 2) as u32).to_le_bytes());
    for s in samples {
        b.extend_from_slice(&s.to_le_bytes());
    }
    b
}

#[test]
fn a_pcm_file_is_read_back() {
    let bytes = wav(1, 48_000, true, &[0, 1, -1, i16::MAX, i16::MIN, 300, -300, 7]);
    let sound = WavSound::parse(&bytes).expect("a valid file");
    assert_eq!(sound.channels, 1);
    assert_eq!(sound.sample_rate, 48_000);
    assert_eq!(sound.samples, vec![0, 1, -1, i16::MAX, i16::MIN, 300, -300, 7]);
}

#[test]
fn broken_files_are_refused() {
    let good = wav(2, 44_100, false, &[1, 2, 3, 4, 5, 6, 7, 8]);
    assert!(WavSound::parse(&good[..43]).is_none());
    let mut not_riff = good.clone();
    not_riff[0] = b'X';
    assert!(WavSound::parse(&not_riff).is_none());
    let mut data_first = Vec::new();
    data_first.extend_from_slice(b"RIFF\0\0\0\0WAVE");
    data_first.extend_from_slice(b"data");
    data_first.extend_from_slice(&32u32.to_le_bytes());
    data_first.extend_from_slice(&[0u8; 32]);
    assert!(WavSound::parse(&data_first).is_none());
    let mut truncated = good.clone();
    truncated.truncate(good.len() - 1);
    assert!(WavSound::parse(&truncated).is_none());
}

#[test]
fn sounds_are_cut_into_padded_grains() {
    let samples: Vec<i16> = (0..(GRAIN_SIZE + 3) as i16).collect();
    let cut = grains(&samples, 1);
    assert_eq!(cut.len(), 2);
    assert_eq!(cut[0].len(), GRAIN_SIZE);
    assert_eq!(cut[1][..3], [GRAIN_SIZE as i16, GRAIN_SIZE as i16 + 1, GRAIN_SIZE as i16 + 2]);
    assert!(cut[1][3..].iter().all(|&s| s == 0));
    assert_eq!(grains(&Vec::new(), 2).len(), 0);
    assert_eq!(grains(&samples, 0)[0].len(), GRAIN_SIZE);
    assert_eq!(grains(&samples, 2).len(), 1);
    assert_eq!(grains(&samples, 2)[0].len(), 2 * GRAIN_SIZE);
}

#[test]
fn the_port_takes_the_navigation_sound_format() {
    assert_eq!(port_format(None), (48_000, 1));
    let sound = WavSound { sample_rate: 22_050, channels: 2, samples: Vec::new() };
    assert_eq!(port_format(Some(&sound)), (22_050, 2));
}
