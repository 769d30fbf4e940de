//! The four-bit checksum that protects every frame.

use vstd::prelude::*;

verus! {

/// Generator polynomial of the checksum, without its leading term.
pub const POLY: u8 = 0x03;

/// Width of the checksum in bits.
pub const WIDTH: usize = 4;

/// Value of the checksum register before the first byte.
pub const INIT: u8 = 0x0F;

/// Value that is xor-ed onto the remainder at the end.
pub const XOROUT: u8 = 0x00;

/// Whether bytes and remainder are bit-reflected.
pub const REFLECT: bool = false;

/// Mask of the bits that a checksum occupies.
pub const MASK: u8 = 0x0F;

/// What a freshly made `crc_all::Crc<u8>` with the given parameters reports
/// after it was fed `data` in one piece.
pub uninterp spec fn crc_all_remainder(
    poly: u8,
    width: usize,
    init: u8,
    xorout: u8,
    reflect: bool,
    data: Seq<u8>,
) -> u8;

/// The checksum of a byte sequence: the remainder that the CRC engine reports
/// for the sensor's parameters, cut to its four bits.
pub open spec fn checksum(data: Seq<u8>) -> u8 {
    crc_all_remainder(POLY, WIDTH, INIT, XOROUT, REFLECT, data) & MASK
}

/// A checksum has four bits.
pub proof fn lemma_checksum_bound(data: Seq<u8>)
    ensures
        checksum(data) <= MASK,
{
    let raw = crc_all_remainder(POLY, WIDTH, INIT, XOROUT, REFLECT, data);
    assert(raw & 0x0Fu8 <= 0x0Fu8) by (bit_vector);
}

/// The checksum is a function of the bytes: sequences that hold the same
/// bytes in the same order have the same checksum.
pub proof fn lemma_checksum_deterministic(a: Seq<u8>, b: Seq<u8>)
    requires
        a.len() == b.len(),
        forall|i: int| 0 <= i < a.len() ==> a[i] == b[i],
    ensures
        checksum(a) == checksum(b),
{
    assert(a =~= b);
}

/// Runs `crc_all::Crc::<u8>` once: `new` with the given parameters, `init`,
/// one `update` over `data`, then `finish`.
///
/// The engine is a table-driven polynomial division whose outcome depends on
/// the parameters and the bytes alone, so the contract only gives that outcome
/// its name. `new` subtracts `width` from the eight bits of the register and
/// shifts by the difference, which is why `width` has to lie between 1 and 8.
#[verifier::external_body]
fn crc_all_run(poly: u8, width: usize, init: u8, xorout: u8, reflect: bool, data: &[u8]) -> (r: u8)
    requires
        1 <= width <= 8,
    ensures
        r == crc_all_remainder(poly, width, init, xorout, reflect, data@),
{
    let mut engine = crc_all::Crc::<u8>::new(poly, width, init, xorout, reflect);
    engine.init();
    engine.update(data);
    engine.finish()
}

/// Computes the four-bit checksum of `data`.
///
/// The engine starts from its initial value on every call, so equal byte
/// sequences always give equal checksums.
pub fn crc4(data: &[u8]) -> (r: u8)
    ensures
        r == checksum(data@),
        r <= MASK,
{
    let raw = crc_all_run(POLY, WIDTH, INIT, XOROUT, REFLECT, data);
    proof {
        lemma_checksum_bound(data@);
    }
    raw & MASK
}

} // verus!
