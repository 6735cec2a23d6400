use keyboard_bridge::codec::{decode_report, encode_report, idle_frame};
use keyboard_bridge::reassembler::Reassembler;
use keyboard_bridge::report::WhyNoDeriveDeserializeManSadFaceHere;

fn report(modifier: u8, keys: [u8; 6]) -> WhyNoDeriveDeserializeManSadFaceHere {
    WhyNoDeriveDeserializeManSadFaceHere { modifier, keys }
}

#[test]
fn encode_gives_the_cobs_frame() {
    let frame = encode_report(&report(0x02, [0x04, 0, 0, 0, 0, 0]));
    assert_eq!(frame, vec![0x03, 0x02, 0x04, 0x01, 0x01, 0x01, 0x01, 0x01, 0x00]);
    let frame = encode_report(&report(0x11, [0x04, 0x05, 0x06, 0x07, 0x08, 0x09]));
    assert_eq!(
        frame,
        vec![0x08, 0x11, 0x04, 0x05, 0x06, 0x07, 0x08, 0x09, 0x00]
    );
}

#[test]
fn encoded_frames_have_one_zero_at_the_end() {
    for r in [
        report(0, [0; 6]),
        report(0xFF, [0xFF; 6]),
        report(0x01, [0x29, 0, 0x52, 0, 0x04, 0]),
    ] {
        let frame = encode_report(&r);
        assert_eq!(frame.last(), Some(&0));
        assert_eq!(frame.iter().filter(|b| **b == 0).count(), 1);
    }
}

#[test]
fn decode_inverts_encode() {
    for r in [
        report(0, [0; 6]),
        report(0xFF, [0xFF; 6]),
        report(0x22, [0x52, 0x51, 0x50, 0x4F, 0, 0]),
        report(0x00, [0, 0, 0, 0, 0, 0x04]),
    ] {
        assert_eq!(decode_report(&encode_report(&r)), Some(r));
    }
}

#[test]
fn decode_rejects_malformed_buffers() {
    assert_eq!(decode_report(&[]), None);
    assert_eq!(decode_report(&[0x00]), None);
    assert_eq!(decode_report(&[0x05, 0x00]), None);
    assert_eq!(decode_report(&[0x03, 0x01, 0x02, 0x00]), None);
}

#[test]
fn idle_frame_releases_everything() {
    let frame = idle_frame();
    assert_eq!(frame, vec![0x01, 0x01, 0x01, 0x01, 0x01, 0x01, 0x01, 0x01, 0x00]);
    assert_eq!(
        decode_report(&frame),
        Some(WhyNoDeriveDeserializeManSadFaceHere::idle())
    );
}

#[test]
fn reassembler_yields_a_report_at_the_delimiter() {
    let r = report(0x02, [0x10, 0x11, 0, 0, 0, 0]);
    let frame = encode_report(&r);
    let mut reassembler = Reassembler::new();
    let (last, head) = frame.split_last().unwrap();
    for byte in head {
        assert_eq!(reassembler.push_byte(*byte), None);
    }
    assert_eq!(reassembler.push_byte(*last), Some(r));
    // The buffer was cleared: the next frame decodes on its own.
    for byte in &frame[..frame.len() - 1] {
        assert_eq!(reassembler.push_byte(*byte), None);
    }
    assert_eq!(reassembler.push_byte(0), Some(r));
}

#[test]
fn reassembler_discards_a_corrupt_frame_and_resyncs() {
    let r = report(0, [0x2C, 0, 0, 0, 0, 0]);
    let mut reassembler = Reassembler::new();
    for byte in [0x07, 0x01, 0x00] {
        assert_eq!(reassembler.push_byte(byte), None);
    }
    let mut out = None;
    for byte in encode_report(&r) {
        out = reassembler.push_byte(byte);
    }
    assert_eq!(out, Some(r));
}

#[test]
fn reassembler_overflow_clears_and_next_frame_decodes() {
    let r = report(0x04, [0x1E, 0x1F, 0x20, 0, 0, 0]);
    let mut reassembler = Reassembler::new();
    // 32 bytes fill the scratch buffer; the 33rd finds it full and clears it.
    for _ in 0..33 {
        assert_eq!(reassembler.push_byte(0x55), None);
    }
    let mut out = None;
    for byte in encode_report(&r) {
        out = reassembler.push_byte(byte);
    }
    assert_eq!(out, Some(r));
}

#[test]
fn reassembler_long_run_then_delimiter_then_frame() {
    let r = report(0x20, [0x04, 0, 0, 0, 0, 0]);
    let mut reassembler = Reassembler::new();
    for _ in 0..100 {
        assert_eq!(reassembler.push_byte(0xAA), None);
    }
    assert_eq!(reassembler.push_byte(0x00), None);
    let mut out = None;
    for byte in encode_report(&r) {
        out = reassembler.push_byte(byte);
    }
    assert_eq!(out, Some(r));
}

#[test]
fn report_wire_bytes_round_trip() {
    let r = report(0x81, [1, 2, 3, 4, 5, 6]);
    assert_eq!(r.to_wire_bytes(), [0x81, 1, 2, 3, 4, 5, 6]);
    assert_eq!(
        WhyNoDeriveDeserializeManSadFaceHere::from_wire_bytes([0x81, 1, 2, 3, 4, 5, 6]),
        r
    );
    assert_eq!(
        WhyNoDeriveDeserializeManSadFaceHere::single(0x02, 0x04),
        report(0x02, [0x04, 0, 0, 0, 0, 0])
    );
}
