use native_messaging::error::ErrorKind;
use native_messaging::frame::{payload_length, put_frame, FrameReader};
use native_messaging::prefix::{decode_prefix, encode_prefix, Endianness};

const BOTH: [Endianness; 2] = [Endianness::Little, Endianness::Big];

fn field(order: Endianness, n: u32) -> [u8; 4] {
    match order {
        Endianness::Little => n.to_le_bytes(),
        Endianness::Big => n.to_be_bytes(),
    }
}

fn frame_by_hand(order: Endianness, payload: &[u8]) -> Vec<u8> {
    let mut frame = field(order, payload.len() as u32).to_vec();
    frame.extend_from_slice(payload);
    frame
}

#[test]
fn native_is_the_order_of_this_machine() {
    let expected =
        if u32::from_ne_bytes([1, 0, 0, 0]) == 1 { Endianness::Little } else { Endianness::Big };
    assert_eq!(Endianness::native(), expected);
    assert_eq!(encode_prefix(Endianness::native(), 0x0102_0304), 0x0102_0304u32.to_ne_bytes());
    assert_eq!(decode_prefix(Endianness::native(), &0x0A0B_0C0Du32.to_ne_bytes()), 0x0A0B_0C0D);
}

#[test]
fn that_reads_tells_the_order_by_the_number_read() {
    assert_eq!(Endianness::that_reads(1), Endianness::Little);
    assert_eq!(Endianness::that_reads(0x0100_0000), Endianness::Big);
    assert_eq!(Endianness::that_reads(u32::from_le_bytes([1, 0, 0, 0])), Endianness::Little);
    assert_eq!(Endianness::that_reads(u32::from_be_bytes([1, 0, 0, 0])), Endianness::Big);
    assert_eq!(Endianness::that_reads(u32::from_ne_bytes([1, 0, 0, 0])), Endianness::native());
}

#[test]
fn that_reads_takes_any_other_number_for_the_big_order() {
    assert_eq!(Endianness::that_reads(0), Endianness::Big);
    assert_eq!(Endianness::that_reads(2), Endianness::Big);
    assert_eq!(Endianness::that_reads(u32::MAX), Endianness::Big);
}

#[test]
fn that_reads_agrees_with_decode_prefix_on_the_probe() {
    for order in BOTH {
        assert_eq!(Endianness::that_reads(decode_prefix(order, &[1, 0, 0, 0])), order);
    }
}

#[test]
fn encode_prefix_in_both_orders() {
    assert_eq!(encode_prefix(Endianness::Little, 0), [0, 0, 0, 0]);
    assert_eq!(encode_prefix(Endianness::Big, 0), [0, 0, 0, 0]);
    assert_eq!(encode_prefix(Endianness::Little, 12), [12, 0, 0, 0]);
    assert_eq!(encode_prefix(Endianness::Big, 12), [0, 0, 0, 12]);
    assert_eq!(encode_prefix(Endianness::Little, 0x0102_0304), [4, 3, 2, 1]);
    assert_eq!(encode_prefix(Endianness::Big, 0x0102_0304), [1, 2, 3, 4]);
    assert_eq!(encode_prefix(Endianness::Little, u32::MAX), [255, 255, 255, 255]);
    assert_eq!(encode_prefix(Endianness::Big, 0xFFFF_FF00), [255, 255, 255, 0]);
}

#[test]
fn decode_prefix_in_both_orders() {
    assert_eq!(decode_prefix(Endianness::Little, &[4, 3, 2, 1]), 0x0102_0304);
    assert_eq!(decode_prefix(Endianness::Big, &[4, 3, 2, 1]), 0x0403_0201);
    assert_eq!(decode_prefix(Endianness::Little, &[0x14, 0, 0, 0]), 20);
    assert_eq!(decode_prefix(Endianness::Big, &[0x14, 0, 0, 0]), 0x1400_0000);
    assert_eq!(decode_prefix(Endianness::Little, &[1, 0, 0, 0, 9, 9]), 1);
    assert_eq!(decode_prefix(Endianness::Big, &[0, 0, 0, 1, 9, 9]), 1);
}

#[test]
fn decode_prefix_undoes_encode_prefix() {
    let lengths = [0u32, 1, 255, 256, 65535, 65536, 0x00FF_FFFF, 0x0100_0000, 0x7FFF_FFFF, u32::MAX];
    for order in BOTH {
        for n in lengths {
            assert_eq!(decode_prefix(order, &encode_prefix(order, n)), n);
            assert_eq!(encode_prefix(order, n), field(order, n));
        }
    }
}

#[test]
fn put_frame_writes_length_then_payload() {
    let mut out = Vec::new();
    put_frame(&mut out, Endianness::Little, b"{}").unwrap();
    assert_eq!(out, vec![2, 0, 0, 0, 0x7B, 0x7D]);
    let mut out = Vec::new();
    put_frame(&mut out, Endianness::Big, b"{}").unwrap();
    assert_eq!(out, vec![0, 0, 0, 2, 0x7B, 0x7D]);
}

#[test]
fn put_frame_of_twelve_bytes() {
    let payload = br#"{"rpc_id":1}"#;
    let mut out = Vec::new();
    put_frame(&mut out, Endianness::Little, payload).unwrap();
    assert_eq!(&out[..4], &[0x0C, 0, 0, 0]);
    assert_eq!(&out[4..], payload);
    let mut out = Vec::new();
    put_frame(&mut out, Endianness::native(), payload).unwrap();
    assert_eq!(&out[..4], &12u32.to_ne_bytes());
    assert_eq!(out.len(), 16);
}

#[test]
fn put_frame_of_nothing_is_a_bare_length_field() {
    for order in BOTH {
        let mut out = Vec::new();
        put_frame(&mut out, order, b"").unwrap();
        assert_eq!(out, vec![0, 0, 0, 0]);
    }
}

#[test]
fn put_frame_keeps_what_the_sink_held() {
    for order in BOTH {
        let mut out = vec![9u8, 8, 7];
        put_frame(&mut out, order, b"ab").unwrap();
        let mut expected = vec![9u8, 8, 7];
        expected.extend_from_slice(&frame_by_hand(order, b"ab"));
        assert_eq!(out, expected);
    }
}

#[test]
fn put_frame_uses_every_byte_of_the_length_field() {
    let payload = vec![b'x'; 0x0001_0203];
    let mut out = Vec::new();
    put_frame(&mut out, Endianness::Little, &payload).unwrap();
    assert_eq!(&out[..4], &[3, 2, 1, 0]);
    assert_eq!(out.len(), 4 + 0x0001_0203);
    assert_eq!(payload_length(Endianness::Little, &out[..4]).unwrap(), 0x0001_0203);
    let mut out = Vec::new();
    put_frame(&mut out, Endianness::Big, &payload).unwrap();
    assert_eq!(&out[..4], &[0, 1, 2, 3]);
    assert_eq!(&out[4..], &payload[..]);
}

#[test]
fn put_frame_refuses_a_payload_over_the_limit() {
    // Needs four gibibytes: where the machine will not lend them there is
    // nothing to try.
    let len = match usize::try_from(u64::from(u32::MAX) + 1) {
        Ok(len) => len,
        Err(_) => return,
    };
    let mut payload: Vec<u8> = Vec::new();
    if payload.try_reserve_exact(len).is_err() {
        return;
    }
    payload.resize(len, 0);
    let mut out = vec![1u8, 2, 3];
    let e = put_frame(&mut out, Endianness::Little, &payload).unwrap_err();
    assert_eq!(e.kind, ErrorKind::Encode);
    assert_eq!(e.context, "payload is too long for the length field");
    assert_eq!(out, vec![1u8, 2, 3]);
}

#[test]
fn payload_length_in_both_orders() {
    assert_eq!(payload_length(Endianness::Little, &[0, 0, 0, 0]).unwrap(), 0);
    assert_eq!(payload_length(Endianness::Little, &[1, 0, 0, 0]).unwrap(), 1);
    assert_eq!(payload_length(Endianness::Big, &[1, 0, 0, 0]).unwrap(), 0x0100_0000);
    assert_eq!(payload_length(Endianness::Big, &[1, 2, 3, 4]).unwrap(), 0x0102_0304);
    assert_eq!(payload_length(Endianness::Little, &[255; 4]).unwrap(), u32::MAX as usize);
    assert_eq!(payload_length(Endianness::native(), &77u32.to_ne_bytes()).unwrap(), 77);
}

#[test]
fn payload_length_looks_at_the_first_four_bytes_only() {
    for order in BOTH {
        let bytes = frame_by_hand(order, b"hello");
        assert_eq!(payload_length(order, &bytes).unwrap(), 5);
    }
}

#[test]
fn payload_length_of_a_short_field_is_an_io_error() {
    for order in BOTH {
        for len in 0..4 {
            let bytes = vec![1u8; len];
            let e = payload_length(order, &bytes).unwrap_err();
            assert_eq!(e.kind, ErrorKind::Io);
            assert_eq!(e.context, "input ended inside the length field");
        }
    }
}

#[test]
fn read_frame_gives_back_what_put_frame_wrote() {
    for order in BOTH {
        let mut out = Vec::new();
        put_frame(&mut out, order, b"first").unwrap();
        put_frame(&mut out, order, b"").unwrap();
        put_frame(&mut out, order, b"third!").unwrap();
        let mut reader = FrameReader::new(&out, order);
        assert_eq!(reader.remaining(), out.len());
        assert_eq!(reader.read_frame().unwrap(), b"first");
        assert_eq!(reader.remaining(), 4 + 4 + 6);
        assert_eq!(reader.read_frame().unwrap(), b"");
        assert_eq!(reader.read_frame().unwrap(), b"third!");
        assert_eq!(reader.remaining(), 0);
        let e = reader.read_frame().unwrap_err();
        assert_eq!(e.kind, ErrorKind::Io);
    }
}

#[test]
fn read_frame_in_the_other_order_finds_another_length() {
    let input = [2u8, 0, 0, 0, 0x7B, 0x7D, 9];
    let mut reader = FrameReader::new(&input, Endianness::Little);
    assert_eq!(reader.read_frame().unwrap(), &[0x7B, 0x7D]);
    assert_eq!(reader.remaining(), 1);
    let mut reader = FrameReader::new(&input, Endianness::Big);
    let e = reader.read_frame().unwrap_err();
    assert_eq!(e.kind, ErrorKind::Io);
    assert_eq!(e.context, "input ended inside the payload");
    assert_eq!(reader.remaining(), 0);
}

#[test]
fn read_frame_leaves_what_follows_the_frame() {
    let input = [0u8, 0, 0, 3, b'a', b'b', b'c', 0xAA, 0xBB];
    let mut reader = FrameReader::new(&input, Endianness::Big);
    assert_eq!(reader.read_frame().unwrap(), b"abc");
    assert_eq!(reader.remaining(), 2);
}

#[test]
fn read_frame_on_a_short_length_field() {
    for order in BOTH {
        for len in 0..4 {
            let input = vec![0u8; len];
            let mut reader = FrameReader::new(&input, order);
            let e = reader.read_frame().unwrap_err();
            assert_eq!(e.kind, ErrorKind::Io);
            assert_eq!(e.context, "input ended inside the length field");
            assert_eq!(reader.remaining(), 0);
        }
    }
}

#[test]
fn read_frame_on_a_short_payload() {
    for order in BOTH {
        let mut input = field(order, 10).to_vec();
        input.extend_from_slice(b"only nine");
        let mut reader = FrameReader::new(&input, order);
        let e = reader.read_frame().unwrap_err();
        assert_eq!(e.kind, ErrorKind::Io);
        assert_eq!(e.context, "input ended inside the payload");
        assert_eq!(reader.remaining(), 0);
    }
}

#[test]
fn read_frame_on_a_length_far_beyond_the_input() {
    for order in BOTH {
        let input = [255u8; 4];
        let mut reader = FrameReader::new(&input, order);
        let e = reader.read_frame().unwrap_err();
        assert_eq!(e.kind, ErrorKind::Io);
        assert_eq!(reader.remaining(), 0);
    }
}
