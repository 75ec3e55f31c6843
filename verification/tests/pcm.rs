use speech_stream::pcm::{frame_bytes, mono_len, sample_bytes};

#[test]
fn sample_bytes_are_little_endian() {
    assert_eq!(sample_bytes(0), (0x00, 0x00));
    assert_eq!(sample_bytes(1), (0x01, 0x00));
    assert_eq!(sample_bytes(258), (0x02, 0x01));
    assert_eq!(sample_bytes(-1), (0xff, 0xff));
    assert_eq!(sample_bytes(-2), (0xfe, 0xff));
    assert_eq!(sample_bytes(i16::MAX), (0xff, 0x7f));
    assert_eq!(sample_bytes(i16::MIN), (0x00, 0x80));
}

#[test]
fn sample_bytes_agree_with_std_for_every_sample() {
    let mut sample = i16::MIN;
    loop {
        let (low, high) = sample_bytes(sample);
        assert_eq!([low, high], sample.to_le_bytes());
        if sample == i16::MAX {
            break;
        }
        sample += 1;
    }
}

#[test]
fn frame_of_empty_chunk_is_empty() {
    assert_eq!(frame_bytes(&vec![]), Vec::<u8>::new());
}

#[test]
fn frame_keeps_sample_order() {
    let chunk: Vec<i16> = vec![1, -1, 32767, -32768, 256];
    assert_eq!(
        frame_bytes(&chunk),
        vec![0x01, 0x00, 0xff, 0xff, 0xff, 0x7f, 0x00, 0x80, 0x00, 0x01]
    );
}

#[test]
fn frame_matches_bytemuck_on_little_endian_samples() {
    let chunk: Vec<i16> = vec![0, 1, -1, 12345, -12345, i16::MAX, i16::MIN];
    let stored: Vec<i16> = chunk.iter().map(|s| s.to_le()).collect();
    let cast: &[u8] = bytemuck::cast_slice(&stored);
    assert_eq!(frame_bytes(&chunk), cast.to_vec());
}

#[test]
fn frame_of_320_samples_has_640_bytes() {
    let chunk: Vec<i16> = (0..320).map(|i| (i as i16) * 100 - 16000).collect();
    let frame = frame_bytes(&chunk);
    assert_eq!(frame.len(), 640);
    for (i, sample) in chunk.iter().enumerate() {
        assert_eq!(i16::from_le_bytes([frame[2 * i], frame[2 * i + 1]]), *sample);
    }
}

#[test]
fn mono_len_counts_complete_groups() {
    assert_eq!(mono_len(320, 1), 320);
    assert_eq!(mono_len(640, 2), 320);
    assert_eq!(mono_len(0, 2), 0);
    assert_eq!(mono_len(6, 3), 2);
}

#[test]
fn mono_len_drops_trailing_partial_group() {
    assert_eq!(mono_len(7, 2), 3);
    assert_eq!(mono_len(1, 2), 0);
    assert_eq!(mono_len(11, 4), 2);
    assert_eq!(mono_len(usize::MAX, u16::MAX), usize::MAX / 65535);
}
