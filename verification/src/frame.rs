//! The four-byte frame that is exchanged with the sensor.
//!
//! | byte | content                                           |
//! |------|---------------------------------------------------|
//! | 0    | register address in bits 6..0, read flag in bit 7 |
//! | 1    | data, high byte                                   |
//! | 2    | data, low byte                                    |
//! | 3    | command in bits 7..4, checksum in bits 3..0       |
//!
//! The checksum covers all four bytes, taken with the checksum bits at zero.

use vstd::prelude::*;
use crate::crc::{checksum, crc4, lemma_checksum_bound};

verus! {

/// Number of bytes of a frame.
pub const FRAME_LEN: usize = 4;

/// Bit of the first byte that marks a read.
pub const READ_FLAG: u8 = 0x80;

/// The last byte of a frame that carries command `cmd` and no checksum yet.
/// Only the low four bits of `cmd` have a place in the frame.
pub open spec fn command_byte(cmd: u8) -> u8 {
    ((cmd % 16) * 16) as u8
}

/// The checksum that a frame carries.
pub open spec fn crc_nibble(frame: Seq<u8>) -> u8 {
    (frame[3] % 16) as u8
}

/// The frame with `crc` in its checksum bits. Only the low four bits of `crc`
/// have a place there.
pub open spec fn with_nibble(frame: Seq<u8>, crc: u8) -> Seq<u8> {
    frame.update(3, (frame[3] - frame[3] % 16 + crc % 16) as u8)
}

/// The frame with its checksum bits at zero.
pub open spec fn stripped(frame: Seq<u8>) -> Seq<u8> {
    with_nibble(frame, 0)
}

/// The frame with the checksum of its content in its checksum bits.
pub open spec fn sealed(frame: Seq<u8>) -> Seq<u8> {
    with_nibble(frame, checksum(stripped(frame)))
}

/// The checksum that the frame carries is the checksum of its content.
pub open spec fn intact(frame: Seq<u8>) -> bool {
    crc_nibble(frame) == checksum(stripped(frame))
}

/// The sixteen-bit value in the data bytes of a frame, high byte first.
pub open spec fn register_payload(frame: Seq<u8>) -> u16 {
    (frame[1] * 256 + frame[2]) as u16
}

/// The first value of a dual frame: twelve bits, the upper eight from byte 1,
/// the lower four from the low half of byte 2.
pub open spec fn first_payload(frame: Seq<u8>) -> u16 {
    (frame[1] * 16 + frame[2] % 16) as u16
}

/// The second value of a dual frame: twelve bits, the upper eight from byte 0,
/// the lower four from the high half of byte 2.
pub open spec fn second_payload(frame: Seq<u8>) -> u16 {
    (frame[0] * 16 + frame[2] / 16) as u16
}

/// Writing the checksum bits changes nothing else, and the bits hold what was
/// written.
pub proof fn lemma_with_nibble(frame: Seq<u8>, crc: u8)
    requires
        frame.len() == FRAME_LEN,
    ensures
        with_nibble(frame, crc).len() == FRAME_LEN,
        crc_nibble(with_nibble(frame, crc)) == crc % 16,
        stripped(with_nibble(frame, crc)) == stripped(frame),
        forall|i: int| 0 <= i < 3 ==> with_nibble(frame, crc)[i] == frame[i],
        with_nibble(frame, crc)[3] / 16 == frame[3] / 16,
{
    assert(stripped(with_nibble(frame, crc)) =~= stripped(frame));
}

/// A sealed frame is intact: taking the checksum out of it and computing it
/// again over the rest gives the checksum that was put in. Sealing changes
/// nothing but the checksum bits.
pub proof fn lemma_sealed_is_intact(frame: Seq<u8>)
    requires
        frame.len() == FRAME_LEN,
    ensures
        intact(sealed(frame)),
        crc_nibble(sealed(frame)) == checksum(stripped(frame)),
        stripped(sealed(frame)) == stripped(frame),
        register_payload(sealed(frame)) == register_payload(frame),
        first_payload(sealed(frame)) == first_payload(frame),
        second_payload(sealed(frame)) == second_payload(frame),
{
    lemma_checksum_bound(stripped(frame));
    lemma_with_nibble(frame, checksum(stripped(frame)));
}

/// The intact frames are those that sealing leaves as they are.
pub proof fn lemma_intact_iff_sealed(frame: Seq<u8>)
    requires
        frame.len() == FRAME_LEN,
    ensures
        intact(frame) <==> sealed(frame) == frame,
{
    lemma_checksum_bound(stripped(frame));
    if intact(frame) {
        assert(sealed(frame) =~= frame);
    }
    if sealed(frame) == frame {
        assert(sealed(frame)[3] == frame[3]);
    }
}

/// Of the sixteen checksums that a frame can carry, one makes it intact: a
/// frame whose checksum bits differ from those of its sealed form is not.
pub proof fn lemma_other_nibble_is_not_intact(frame: Seq<u8>, crc: u8)
    requires
        frame.len() == FRAME_LEN,
    ensures
        intact(with_nibble(frame, crc)) <==> crc % 16 == checksum(stripped(frame)),
{
    lemma_with_nibble(frame, crc);
}

/// Returns the last byte of a frame that carries command `cmd` and no
/// checksum yet: the low four bits of `cmd`, moved to the high half.
pub fn command_tail(cmd: u8) -> (tail: u8)
    ensures
        tail == command_byte(cmd),
        tail / 16 == cmd % 16,
        tail % 16 == 0,
{
    assert(cmd << 4 == (cmd % 16) * 16) by (bit_vector);
    cmd << 4
}

/// Returns the checksum that the frame carries.
pub fn carried_crc(frame: &[u8; 4]) -> (crc: u8)
    ensures
        crc == crc_nibble(frame@),
        crc == frame[3] % 16,
{
    let tail: u8 = frame[3];
    assert(tail & 0x0F == tail % 16) by (bit_vector);
    tail & 0x0F
}

/// Returns the frame with `crc` in its checksum bits.
pub fn with_crc(frame: [u8; 4], crc: u8) -> (r: [u8; 4])
    ensures
        r@ == with_nibble(frame@, crc),
        r[0] == frame[0],
        r[1] == frame[1],
        r[2] == frame[2],
        r[3] == (frame[3] / 16) * 16 + crc % 16,
{
    let mut buffer = frame;
    let tail: u8 = frame[3];
    assert((tail & 0xF0) | (crc & 0x0F) == tail - tail % 16 + crc % 16 && tail - tail % 16 == (tail
        / 16) * 16) by (bit_vector);
    buffer[3] = (tail & 0xF0) | (crc & 0x0F);
    buffer
}

/// Returns the frame with its checksum bits at zero.
pub fn strip(frame: [u8; 4]) -> (r: [u8; 4])
    ensures
        r@ == stripped(frame@),
        r[0] == frame[0],
        r[1] == frame[1],
        r[2] == frame[2],
        r[3] == (frame[3] / 16) * 16,
{
    with_crc(frame, 0)
}

/// Puts the checksum of the frame's content into its checksum bits.
pub fn seal(frame: [u8; 4]) -> (r: [u8; 4])
    ensures
        r@ == sealed(frame@),
        intact(r@),
{
    let body = strip(frame);
    let crc = crc4(body.as_slice());
    proof {
        lemma_sealed_is_intact(frame@);
    }
    with_crc(frame, crc)
}

/// Tells whether the checksum that the frame carries matches its content.
pub fn is_intact(frame: &[u8; 4]) -> (ok: bool)
    ensures
        ok == intact(frame@),
{
    let carried = carried_crc(frame);
    let body = strip(*frame);
    let computed = crc4(body.as_slice());
    carried == computed
}

/// Reads the sixteen-bit value in the data bytes of a frame.
pub fn register_value(frame: &[u8; 4]) -> (v: u16)
    ensures
        v == register_payload(frame@),
        v == frame[1] * 256 + frame[2],
{
    let hi: u8 = frame[1];
    let lo: u8 = frame[2];
    assert(((hi as u16) << 8) | (lo as u16) == hi * 256 + lo) by (bit_vector);
    ((hi as u16) << 8) | (lo as u16)
}

/// Reads the two twelve-bit values of a dual frame.
pub fn dual_values(frame: &[u8; 4]) -> (v: (u16, u16))
    ensures
        v.0 == first_payload(frame@),
        v.1 == second_payload(frame@),
        v.0 == frame[1] * 16 + frame[2] % 16,
        v.1 == frame[0] * 16 + frame[2] / 16,
{
    let b0: u8 = frame[0];
    let b1: u8 = frame[1];
    let b2: u8 = frame[2];
    assert(((b1 as u16) << 4) | ((b2 & 0x0F) as u16) == b1 * 16 + b2 % 16) by (bit_vector);
    assert(((b0 as u16) << 4) | ((b2 >> 4) as u16) == b0 * 16 + b2 / 16) by (bit_vector);
    (((b1 as u16) << 4) | ((b2 & 0x0F) as u16), ((b0 as u16) << 4) | ((b2 >> 4) as u16))
}

} // verus!
