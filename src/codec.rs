use vstd::prelude::*;

use crate::report::{
    empty_slots, lemma_wire_bytes_injective, Report, WhyNoDeriveDeserializeManSadFaceHere,
};

verus! {

/// The frame, sentinel included, that postcard's COBS encoding writes for a
/// payload.
pub uninterp spec fn cobs_frame_of(payload: Seq<u8>) -> Seq<u8>;

/// The seven payload bytes that postcard's COBS decoding reads back from a
/// buffer, or none when the buffer is not a valid frame of seven bytes.
pub uninterp spec fn cobs_payload_of(buffer: Seq<u8>) -> Option<Seq<u8>>;

/// Whether `f` holds the byte 0 exactly once, as its last byte.
pub open spec fn is_delimited(f: Seq<u8>) -> bool {
    f.len() >= 1 && f.last() == 0 && forall|i: int| 0 <= i < f.len() - 1 ==> f[i] != 0
}

/// The frame that carries report `r` on the wire.
pub open spec fn report_frame(r: Report) -> Seq<u8> {
    cobs_frame_of(r.wire_bytes())
}

/// The report that a received buffer decodes to, if any.
pub open spec fn report_of_buffer(buffer: Seq<u8>) -> Option<Report> {
    match cobs_payload_of(buffer) {
        Some(p) => if exists|r: Report| r.wire_bytes() == p {
            Some(choose|r: Report| r.wire_bytes() == p)
        } else {
            None
        },
        None => None,
    }
}

/// Relies on postcard::to_slice_cobs on a `[u8; 7]`. Postcard writes a byte
/// array as its bytes with no length; the COBS stage removes every 0 and ends
/// the frame with the 0x00 sentinel; from_bytes_cobs reads the same seven
/// bytes back from it. Seven bytes take at most nine frame bytes, so the
/// 32-byte buffer always suffices.
#[verifier::external_body]
fn postcard_encode(payload: &[u8; 7]) -> (r: Vec<u8>)
    ensures
        r@ == cobs_frame_of(payload@),
        is_delimited(r@),
        cobs_payload_of(r@) == Some(payload@),
{
    let mut buf = [0u8; 32];
    match postcard::to_slice_cobs(payload, &mut buf) {
        Ok(frame) => frame.to_vec(),
        Err(_) => Vec::new(),
    }
}

/// Relies on postcard::from_bytes_cobs for a `[u8; 7]`. It decodes a copy of
/// the buffer, so the result depends on the buffer's bytes alone.
#[verifier::external_body]
fn postcard_decode(buffer: &[u8]) -> (r: Option<[u8; 7]>)
    ensures
        match r {
            Some(p) => cobs_payload_of(buffer@) == Some(p@),
            None => cobs_payload_of(buffer@) is None,
        },
{
    let mut copy = buffer.to_vec();
    postcard::from_bytes_cobs::<[u8; 7]>(&mut copy).ok()
}

/// Frames a report for the serial link. The frame holds a single 0, at its
/// end, and decodes back to the same report.
pub fn encode_report(report: &Report) -> (frame: Vec<u8>)
    ensures
        frame@ == report_frame(*report),
        is_delimited(frame@),
        report_of_buffer(frame@) == Some(*report),
{
    let bytes = report.to_wire_bytes();
    let frame = postcard_encode(&bytes);
    proof {
        let p = report.wire_bytes();
        assert(exists|r: Report| r.wire_bytes() == p);
        let c = choose|r: Report| r.wire_bytes() == p;
        lemma_wire_bytes_injective(c, *report);
    }
    frame
}

/// Reads a report back from a received buffer; `None` when the buffer is not
/// a valid frame.
pub fn decode_report(buffer: &[u8]) -> (r: Option<Report>)
    ensures
        r == report_of_buffer(buffer@),
{
    match postcard_decode(buffer) {
        Some(p) => {
            let report = WhyNoDeriveDeserializeManSadFaceHere::from_wire_bytes(p);
            proof {
                assert(exists|x: Report| x.wire_bytes() == p@);
                let c = choose|x: Report| x.wire_bytes() == p@;
                lemma_wire_bytes_injective(c, report);
            }
            Some(report)
        },
        None => None,
    }
}

/// The frame that releases every key: sent last, so that the device is never
/// left with a key held down.
pub fn idle_frame() -> (frame: Vec<u8>)
    ensures
        exists|r: Report|
            r.modifier == 0 && r.keys@ == empty_slots() && frame@ == report_frame(r)
                && report_of_buffer(frame@) == Some(r),
        is_delimited(frame@),
{
    let idle = WhyNoDeriveDeserializeManSadFaceHere::idle();
    encode_report(&idle)
}

} // verus!
