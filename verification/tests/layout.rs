use osc2::{serialize, Arg, OscError, OscMessage};

fn sample_args() -> Vec<Arg<'static>> {
    vec![
        Arg::I32(1),
        Arg::String("hello"),
        Arg::F32(2.5f32.to_bits()),
        Arg::String(""),
        Arg::I32(-7),
        Arg::String("abc"),
        Arg::F32(f32::NAN.to_bits()),
        Arg::I32(i32::MIN),
        Arg::String("a longer piece of text"),
        Arg::I32(0),
        Arg::F32(0),
        Arg::String("\u{20ac}"),
        Arg::I32(99),
    ]
}

/// Length of the type tag region, read off the buffer: from the comma up
/// to and including the word that holds the terminating zero.
fn tag_region_len(bytes: &[u8], tags_start: usize) -> usize {
    let mut end: usize = tags_start;
    while bytes[end] != 0 {
        end += 1;
    }
    (end - tags_start) / 4 * 4 + 4
}

#[test]
fn buffer_and_regions_stay_aligned() {
    for address in ["", "/", "/ab", "/abc", "/abcd", "/foo/bar/baz"] {
        let mut msg = OscMessage::new(address);
        let tags_start: usize = (address.len() / 4 + 1) * 4;
        assert_eq!(msg.get_bytes().len() % 4, 0);
        for arg in sample_args() {
            assert_eq!(msg.add(arg), Ok(()));
            let bytes = msg.get_bytes();
            assert_eq!(bytes.len() % 4, 0);
            assert_eq!(tags_start % 4, 0);
            assert_eq!(bytes[tags_start - 1], 0);
            assert_eq!(bytes[tags_start], b',');
            let tag_len: usize = tag_region_len(bytes, tags_start);
            assert_eq!(tag_len % 4, 0);
            assert_eq!((bytes.len() - tags_start - tag_len) % 4, 0);
        }
    }
}

#[test]
fn tags_and_payloads_come_in_the_same_order() {
    let mut msg = OscMessage::new("/order");
    let args = sample_args();
    for arg in args.iter() {
        assert_eq!(msg.add(*arg), Ok(()));
    }
    let bytes = msg.get_bytes();
    let tags_start: usize = 8;
    let mut offset: usize = tags_start + tag_region_len(bytes, tags_start);
    for (n, arg) in args.iter().enumerate() {
        let (tag, payload) = osc2::encode(arg).unwrap();
        assert_eq!(bytes[tags_start + 1 + n], tag.to_wire_char());
        assert_eq!(&bytes[offset..offset + payload.len()], &payload[..]);
        offset += payload.len();
    }
    assert_eq!(offset, bytes.len());
}

#[test]
fn incremental_buffer_equals_full_rebuild_after_every_add() {
    for address in ["", "/a", "/foo", "/some/longer/address"] {
        let args = sample_args();
        let mut msg = OscMessage::new(address);
        assert_eq!(Ok(msg.get_bytes_copy()), serialize(address, &[]));
        for n in 0..args.len() {
            assert_eq!(msg.add(args[n]), Ok(()));
            assert_eq!(Ok(msg.get_bytes_copy()), serialize(address, &args[..n + 1]));
        }
    }
}

#[test]
fn full_rebuild_of_a_known_message() {
    let args = [Arg::String("bar"), Arg::F32(3.14f32.to_bits()), Arg::I32(42)];
    let expected: Vec<u8> = vec![
        0x2F, 0x66, 0x6F, 0x6F, 0x00, 0x00, 0x00, 0x00, 0x2C, 0x73, 0x66, 0x69, 0x00, 0x00, 0x00,
        0x00, 0x62, 0x61, 0x72, 0x00, 0x40, 0x48, 0xF5, 0xC3, 0x00, 0x00, 0x00, 0x2A,
    ];
    assert_eq!(serialize("/foo", &args), Ok(expected));
    assert_eq!(serialize("/foo", &[]), Ok(vec![0x2F, 0x66, 0x6F, 0x6F, 0, 0, 0, 0, 0x2C, 0, 0, 0]));
}

#[test]
fn full_rebuild_refuses_a_blob_anywhere() {
    let data: [u8; 2] = [1, 2];
    assert_eq!(serialize("/foo", &[Arg::Blob(&data)]), Err(OscError::UnsupportedType));
    assert_eq!(
        serialize("/foo", &[Arg::I32(1), Arg::Blob(&data)]),
        Err(OscError::UnsupportedType)
    );
    assert_eq!(
        serialize("/foo", &[Arg::Blob(&data), Arg::I32(1)]),
        Err(OscError::UnsupportedType)
    );
    assert_eq!(
        serialize("/foo", &[Arg::I32(1), Arg::Blob(&data), Arg::String("x")]),
        Err(OscError::UnsupportedType)
    );
}

#[test]
fn get_bytes_is_repeatable() {
    let mut msg = OscMessage::new("/foo");
    assert_eq!(msg.add(Arg::String("bar")), Ok(()));
    let first: Vec<u8> = msg.get_bytes().to_vec();
    let second: Vec<u8> = msg.get_bytes().to_vec();
    let third: Vec<u8> = msg.get_bytes_copy();
    assert_eq!(first, second);
    assert_eq!(first, third);
    assert_eq!(msg.get_bytes(), msg.get_bytes());
}

#[test]
fn tag_region_grows_by_one_word_when_the_terminator_needs_room() {
    let mut msg = OscMessage::new("/foo");
    let tags_start: usize = 8;
    let mut tag_len: usize = tag_region_len(msg.get_bytes(), tags_start);
    assert_eq!(tag_len, 4);
    for count in 1..=24usize {
        let len_before: usize = msg.get_bytes().len();
        assert_eq!(msg.add(Arg::I32(count as i32)), Ok(()));
        let bytes = msg.get_bytes();
        let new_tag_len: usize = tag_region_len(bytes, tags_start);
        // The comma is character 1 of the tag string, so argument `count`
        // is character `count + 1`.
        if (count + 1) % 4 == 0 {
            assert_eq!(new_tag_len, tag_len + 4);
            assert_eq!(bytes.len(), len_before + 4 + 4);
        } else {
            assert_eq!(new_tag_len, tag_len);
            assert_eq!(bytes.len(), len_before + 4);
        }
        assert_eq!(new_tag_len, (count + 1) / 4 * 4 + 4);
        tag_len = new_tag_len;
        // Payloads already written moved along with the region.
        let args_start: usize = tags_start + tag_len;
        for k in 0..count {
            assert_eq!(&bytes[args_start + 4 * k..args_start + 4 * k + 4], &[0, 0, 0, (k + 1) as u8]);
        }
    }
}

#[test]
fn growth_shifts_payloads_of_mixed_sizes() {
    let mut msg = OscMessage::new("/m");
    assert_eq!(msg.add(Arg::String("first")), Ok(()));
    assert_eq!(msg.add(Arg::I32(2)), Ok(()));
    let before: Vec<u8> = msg.get_bytes_copy();
    assert_eq!(before.len(), 4 + 4 + 8 + 4);
    assert_eq!(msg.add(Arg::String("x")), Ok(()));
    let after = msg.get_bytes();
    assert_eq!(after.len(), before.len() + 4 + 4);
    assert_eq!(&after[..4], &before[..4]);
    assert_eq!(&after[4..12], &[0x2C, 0x73, 0x69, 0x73, 0, 0, 0, 0]);
    assert_eq!(&after[12..24], &before[8..]);
    assert_eq!(&after[24..], &[0x78, 0, 0, 0]);
}
