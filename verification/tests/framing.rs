use tguirs::frame::{encode_length_delimited, LengthDecoder, Progress};
use tguirs::TguiErr;

fn read_prefix(bytes: &[u8]) -> (LengthDecoder, usize) {
    let mut d = LengthDecoder::new();
    let mut used = 0;
    while !d.is_finished() {
        assert!(d.can_feed(), "too many bytes for u32");
        d.feed(bytes[used]);
        used += 1;
    }
    (d, used)
}

#[test]
fn frame_short_body() {
    assert_eq!(encode_length_delimited(&[1, 2, 3]), vec![3, 1, 2, 3]);
}

#[test]
fn frame_empty_body() {
    assert_eq!(encode_length_delimited(&[]), vec![0]);
}

#[test]
fn frame_two_byte_prefix() {
    let body = vec![7u8; 300];
    let framed = encode_length_delimited(&body);
    assert_eq!(&framed[..2], &[0xAC, 0x02]);
    assert_eq!(&framed[2..], &body[..]);
}

#[test]
fn frame_prefix_matches_prost() {
    for len in [1usize, 127, 128, 255, 16383, 16384, 70000] {
        let body = vec![0u8; len];
        let framed = encode_length_delimited(&body);
        let decoded = prost::decode_length_delimiter(&framed[..]).unwrap();
        assert_eq!(decoded, len);
        assert_eq!(framed.len(), prost::length_delimiter_len(len) + len);
    }
}

#[test]
fn decoder_reads_back_frame_length() {
    for len in [1usize, 5, 127, 128, 300, 16384, 2_000_000] {
        let body = vec![1u8; len];
        let framed = encode_length_delimited(&body);
        let (d, used) = read_prefix(&framed);
        assert_eq!(used, prost::length_delimiter_len(len));
        assert!(matches!(d.finish(), Ok(n) if n == len));
    }
}

#[test]
fn decoder_two_bytes() {
    let (d, used) = read_prefix(&[0xAC, 0x02, 0x99]);
    assert_eq!(used, 2);
    assert_eq!(d.val, 300);
    assert_eq!(d.num_bits_read, 14);
    assert!(matches!(d.finish(), Ok(300)));
}

#[test]
fn decoder_zero_length_is_refused() {
    let (d, used) = read_prefix(&[0x00]);
    assert_eq!(used, 1);
    assert!(matches!(d.finish(), Err(TguiErr::ProtoZeroLen)));
}

#[test]
fn decoder_largest_u32() {
    let (d, used) = read_prefix(&[0xff, 0xff, 0xff, 0xff, 0x0f]);
    assert_eq!(used, 5);
    assert_eq!(d.val, u32::MAX);
    assert!(matches!(d.finish(), Ok(n) if n == u32::MAX as usize));
}

#[test]
fn decoder_drops_bits_past_32() {
    // 2^32 does not fit: its fifth group lands past bit 31 and is lost.
    let (d, used) = read_prefix(&[0x80, 0x80, 0x80, 0x80, 0x10]);
    assert_eq!(used, 5);
    assert_eq!(d.val, 0);
    assert!(matches!(d.finish(), Err(TguiErr::ProtoZeroLen)));
}

#[test]
fn decoder_stops_after_five_continuing_bytes() {
    let mut d = LengthDecoder::new();
    for _ in 0..5 {
        assert!(d.can_feed());
        d.feed(0x81);
    }
    assert!(!d.is_finished());
    assert!(!d.can_feed());
    assert_eq!(d.num_bits_read, 35);
}

#[test]
fn progress_counts_to_the_end() {
    let mut p = Progress::new(10);
    assert_eq!(p.position(), 0);
    assert!(!p.is_complete());
    p.advance(4);
    assert_eq!(p.position(), 4);
    assert!(!p.is_complete());
    p.advance(6);
    assert!(p.is_complete());
    assert_eq!(p.position(), 10);
}

#[test]
fn progress_overshoot_ends_transfer() {
    let mut p = Progress::new(3);
    p.advance(100);
    assert!(p.is_complete());
    assert_eq!(p.position(), 3);
}

#[test]
fn progress_empty_is_complete() {
    let p = Progress::new(0);
    assert!(p.is_complete());
}

#[test]
fn progress_same_place_however_chunked() {
    let mut a = Progress::new(4);
    a.advance(2);
    a.advance(2);
    let mut b = Progress::new(4);
    b.advance(4);
    assert_eq!(a.position(), b.position());
    assert!(a.is_complete() && b.is_complete());
    let mut c = Progress::new(4);
    c.advance(1);
    c.advance(0);
    c.advance(2);
    assert_eq!(c.position(), 3);
    assert!(!c.is_complete());
}
