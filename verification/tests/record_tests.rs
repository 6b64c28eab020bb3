use octane::record::{decode_words, encode_words, RecordLayout};

#[test]
fn words_are_little_endian() {
    let bytes = encode_words(&vec![0x0403_0201, 0xdead_beef]);
    assert_eq!(bytes, vec![1, 2, 3, 4, 0xef, 0xbe, 0xad, 0xde]);
    assert_eq!(bytes[0..4], 0x0403_0201u32.to_le_bytes());
    assert_eq!(decode_words(&bytes, 4, 1), vec![0xdead_beef]);
    assert_eq!(decode_words(&bytes, 0, 2), vec![0x0403_0201, 0xdead_beef]);
}

#[test]
fn float_bits_round_trip_through_bytes() {
    let values = [1.5f32, -0.25, 0.0, 1e9];
    let words: Vec<u32> = values.iter().map(|v| v.to_bits()).collect();
    let bytes = encode_words(&words);
    let expected: Vec<u8> = values.iter().flat_map(|v| v.to_le_bytes()).collect();
    assert_eq!(bytes, expected);
    let back: Vec<f32> = decode_words(&bytes, 0, 4).into_iter().map(f32::from_bits).collect();
    assert_eq!(back, values.to_vec());
}

#[test]
fn record_layout_and_offsets() {
    let layout = RecordLayout { obs_dim: 4, action_dim: 2 };
    assert_eq!(layout.record_words(), 12);
    assert_eq!(layout.record_offset(0), 0);
    assert_eq!(layout.record_offset(3), 144);
    let rec = layout.assemble(&vec![1, 2, 3, 4], &vec![5, 6], 7, &vec![8, 9, 10, 11], 12);
    assert_eq!(rec, (1..=12).collect::<Vec<u32>>());
    let (obs, act, rew, next, done) = layout.split(&rec);
    assert_eq!(obs, vec![1, 2, 3, 4]);
    assert_eq!(act, vec![5, 6]);
    assert_eq!(rew, 7);
    assert_eq!(next, vec![8, 9, 10, 11]);
    assert_eq!(done, 12);
}

#[test]
fn long_fields_are_cut_and_short_ones_kept() {
    let layout = RecordLayout { obs_dim: 2, action_dim: 1 };
    let rec = layout.assemble(&vec![1, 2, 3], &vec![4, 5], 6, &vec![7], 8);
    assert_eq!(rec, vec![1, 2, 4, 6, 7, 8]);
}
