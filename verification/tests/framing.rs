use spike_prime::connection::framing::{decode_message, encode_message, try_decode_message, unescape};

#[test]
fn encodes_empty_message() {
    assert_eq!(encode_message(vec![]), vec![0x00, 0x02]);
}

#[test]
fn encodes_single_literal() {
    assert_eq!(encode_message(vec![5]), vec![7, 6, 2]);
}

#[test]
fn encodes_zero_byte() {
    assert_eq!(encode_message(vec![0]), vec![0, 0, 2]);
}

#[test]
fn encodes_each_delimiter_value() {
    assert_eq!(encode_message(vec![1, 2, 3]), vec![84, 168, 7, 0, 2]);
    assert_eq!(
        encode_message(vec![0x19, 0x41, 0x42, 0x00]),
        vec![5, 26, 66, 65, 0, 2]
    );
}

#[test]
fn encodes_full_block_without_delimiter() {
    let data: Vec<u8> = (3u8..90).collect();
    let frame = encode_message(data.clone());
    assert_eq!(frame.len(), 90);
    assert_eq!(frame[0], 0xff ^ 0x03);
    assert_eq!(
        &frame[82..],
        &[0x57, 0x56, 0x55, 0x05, 0x54, 0x5b, 0x5a, 0x02]
    );
    assert_eq!(decode_message(frame), data);
}

#[test]
fn decode_inverts_encode() {
    let samples: Vec<Vec<u8>> = vec![
        vec![],
        vec![0],
        vec![1],
        vec![2],
        vec![3],
        vec![0xff; 84],
        vec![0xff; 85],
        vec![0x10; 83],
        (0u8..=255).collect(),
        (0u8..=255).rev().chain(0u8..=255).collect(),
        vec![0, 0, 0, 1, 1, 2, 2],
        vec![0x3c, 0x20, 0x00, 0x00, 0x64, 0x02, 0x01, 0x00],
    ];
    for data in samples {
        let frame = encode_message(data.clone());
        assert_eq!(*frame.last().unwrap(), 0x02);
        assert!(frame[..frame.len() - 1].iter().all(|b| *b != 0x02));
        assert_ne!(frame[0], 0x01);
        assert_eq!(try_decode_message(frame.clone()), Some(data.clone()));
        assert_eq!(decode_message(frame), data);
    }
}

#[test]
fn refuses_frames_that_cannot_be_decoded() {
    assert_eq!(try_decode_message(vec![]), None);
    assert_eq!(try_decode_message(vec![0x01, 0x02]), None);
    assert_eq!(try_decode_message(vec![0x01]), None);
    // A code byte of 0x01 once unmasked (0x02 masked) cannot start a group.
    assert_eq!(try_decode_message(vec![0x02, 0x02]), None);
    // The decoded bytes must end with the implied zero.
    assert_eq!(try_decode_message(vec![0x07, 0x06, 0x07, 0x02]), None);
}

#[test]
fn unescape_reads_code_bytes() {
    assert_eq!(unescape(0xff), (None, 85));
    assert_eq!(unescape(3), (Some(0), 1));
    assert_eq!(unescape(2), (Some(255), 84));
    assert_eq!(unescape(86), (Some(0), 84));
    assert_eq!(unescape(87), (Some(1), 1));
    assert_eq!(unescape(171), (Some(2), 1));
}
