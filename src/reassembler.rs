use vstd::prelude::*;

use crate::codec::{decode_report, report_of_buffer};
use crate::report::Report;

verus! {

#[verifier::external_type_specification]
#[verifier::external_body]
#[verifier::reject_recursive_types(T)]
pub struct ExHeaplessVec<T, const N: usize>(heapless::Vec<T, N>);

/// The bytes that a scratch buffer holds, in order.
pub uninterp spec fn scratch_bytes(buf: heapless::Vec<u8, 32>) -> Seq<u8>;

/// How many bytes the scratch buffer holds at most.
pub const SCRATCH_CAPACITY: usize = 32;

/// Relies on heapless::Vec::new: the vector starts empty.
#[verifier::external_body]
fn scratch_new() -> (r: heapless::Vec<u8, 32>)
    ensures
        scratch_bytes(r) == Seq::<u8>::empty(),
{
    heapless::Vec::new()
}

/// Relies on heapless::Vec::push: with fewer than 32 bytes held the byte is
/// appended; with 32 the vector is left alone and the byte handed back
/// (`true`).
#[verifier::external_body]
fn scratch_push(buf: &mut heapless::Vec<u8, 32>, byte: u8) -> (full: bool)
    ensures
        full == (scratch_bytes(*old(buf)).len() >= 32),
        full ==> scratch_bytes(*final(buf)) == scratch_bytes(*old(buf)),
        !full ==> scratch_bytes(*final(buf)) == scratch_bytes(*old(buf)).push(byte),
{
    buf.push(byte).is_err()
}

/// Relies on heapless::Vec::clear: no byte is left.
#[verifier::external_body]
fn scratch_clear(buf: &mut heapless::Vec<u8, 32>)
    ensures
        scratch_bytes(*final(buf)) == Seq::<u8>::empty(),
{
    buf.clear()
}

/// Relies on heapless::Vec::as_slice: the bytes held, in order.
#[verifier::external_body]
fn scratch_as_slice(buf: &heapless::Vec<u8, 32>) -> (r: &[u8])
    ensures
        r@ == scratch_bytes(*buf),
{
    buf.as_slice()
}

/// The scratch bytes after `byte` arrives: appended while there is room; when
/// the buffer is already full the partial frame and the byte are dropped.
pub open spec fn scratch_after(s: Seq<u8>, byte: u8) -> Seq<u8> {
    if s.len() < 32 {
        s.push(byte)
    } else {
        Seq::empty()
    }
}

/// Rebuilds frames from a byte stream that arrives one byte at a time, and
/// resynchronises on the 0 delimiter after loss or corruption.
pub struct Reassembler {
    buf: heapless::Vec<u8, 32>,
}

impl Reassembler {
    /// The bytes of the frame received so far.
    pub closed spec fn pending(self) -> Seq<u8> {
        scratch_bytes(self.buf)
    }

    /// Well-formed: the scratch buffer holds at most its capacity.
    pub open spec fn wf(self) -> bool {
        self.pending().len() <= SCRATCH_CAPACITY
    }

    /// A reassembler with nothing received.
    pub fn new() -> (r: Self)
        ensures
            r.pending() == Seq::<u8>::empty(),
            r.wf(),
    {
        Reassembler { buf: scratch_new() }
    }

    /// Takes one received byte. A 0 ends the frame: the buffer is decoded, the
    /// decoded report (if any) returned, and the buffer cleared whether or not
    /// the decoding succeeded. A byte that finds the buffer full clears it.
    pub fn push_byte(&mut self, byte: u8) -> (r: Option<Report>)
        ensures
            byte == 0 ==> final(self).pending() == Seq::<u8>::empty() && r == report_of_buffer(
                scratch_after(old(self).pending(), byte),
            ),
            byte != 0 ==> final(self).pending() == scratch_after(old(self).pending(), byte)
                && r is None,
            old(self).wf() ==> final(self).wf(),
    {
        let full = scratch_push(&mut self.buf, byte);
        if full {
            scratch_clear(&mut self.buf);
        }
        if byte == 0 {
            let report = decode_report(scratch_as_slice(&self.buf));
            scratch_clear(&mut self.buf);
            report
        } else {
            None
        }
    }
}

} // verus!
