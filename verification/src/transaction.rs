//! The three operations of the sensor's protocol, each in two halves.
//!
//! The first half builds the frame to send. The caller then selects the
//! sensor, clocks the frame through its bus, which overwrites it with the
//! sensor's answer, and releases the sensor again. The second half takes what
//! the bus reported, the answer or the bus's own error, and gives the result
//! of the operation.

use vstd::prelude::*;
use crate::crc::checksum;
use crate::frame::{
    command_byte,
    command_tail,
    crc_nibble,
    dual_values,
    first_payload,
    intact,
    is_intact,
    lemma_sealed_is_intact,
    lemma_with_nibble,
    register_payload,
    register_value,
    seal,
    sealed,
    second_payload,
    stripped,
    READ_FLAG,
};
use crate::register::Register;

verus! {

/// Command that asks for nothing besides the access itself.
pub const CMD_NONE: u8 = 0x00;

/// Command that starts a conversion along with the access.
pub const CMD_START_CONVERSION: u8 = 0x01;

/// Why an operation failed.
#[derive(Debug, PartialEq, Eq)]
pub enum ExtError<E> {
    /// The bus reported an error of its own.
    E(E),
    /// The checksum of the sensor's answer does not match its content.
    CrcError,
}

/// The frame that writes `value` to `reg`.
pub open spec fn write_frame(reg: Register, value: u16, cmd: u8) -> Seq<u8> {
    sealed(seq![reg.addr(), (value / 256) as u8, (value % 256) as u8, command_byte(cmd)])
}

/// The frame that reads `reg`.
pub open spec fn read_frame(reg: Register, cmd: u8) -> Seq<u8> {
    sealed(seq![(reg.addr() + READ_FLAG) as u8, 0, 0, command_byte(cmd)])
}

/// The frame of the dual read, which names no register.
pub open spec fn special_frame(cmd: u8) -> Seq<u8> {
    sealed(seq![READ_FLAG, 0, 0, command_byte(cmd)])
}

/// A sixteen-bit register value read as a two's-complement number.
pub open spec fn signed_value(value: u16) -> int {
    if value < 0x8000 {
        value as int
    } else {
        value - 0x1_0000
    }
}

/// What a write makes of the bus's report: the bus's error passed on,
/// `CrcError` for an answer that is not intact, else success.
pub open spec fn write_result<E>(outcome: Result<[u8; 4], E>) -> Result<(), ExtError<E>> {
    match outcome {
        Err(e) => Err(ExtError::E(e)),
        Ok(answer) => if intact(answer@) {
            Ok(())
        } else {
            Err(ExtError::CrcError)
        },
    }
}

/// What a read makes of the bus's report: the bus's error passed on,
/// `CrcError` for an answer that is not intact, else the value in the
/// answer's data bytes.
pub open spec fn read_result<E>(outcome: Result<[u8; 4], E>) -> Result<u16, ExtError<E>> {
    match outcome {
        Err(e) => Err(ExtError::E(e)),
        Ok(answer) => if intact(answer@) {
            Ok(register_payload(answer@))
        } else {
            Err(ExtError::CrcError)
        },
    }
}

/// What a dual read makes of the bus's report: the bus's error passed on,
/// `CrcError` for an answer that is not intact, else the two values that the
/// answer packs.
pub open spec fn special_result<E>(outcome: Result<[u8; 4], E>) -> Result<(u16, u16), ExtError<E>> {
    match outcome {
        Err(e) => Err(ExtError::E(e)),
        Ok(answer) => if intact(answer@) {
            Ok((first_payload(answer@), second_payload(answer@)))
        } else {
            Err(ExtError::CrcError)
        },
    }
}

/// An answer whose checksum bits differ from the checksum of its content is
/// refused by every operation: none of them returns a decoded value.
pub proof fn lemma_mismatch_is_refused<E>(answer: [u8; 4])
    requires
        crc_nibble(answer@) != checksum(stripped(answer@)),
    ensures
        write_result::<E>(Ok(answer)) == Err::<(), ExtError<E>>(ExtError::CrcError),
        read_result::<E>(Ok(answer)) == Err::<u16, ExtError<E>>(ExtError::CrcError),
        special_result::<E>(Ok(answer)) == Err::<(u16, u16), ExtError<E>>(ExtError::CrcError),
{
}

/// An answer that was sealed is accepted by every operation, and decodes to
/// what its data bytes held before sealing.
pub proof fn lemma_sealed_is_accepted<E>(body: [u8; 4], answer: [u8; 4])
    requires
        answer@ == sealed(body@),
    ensures
        write_result::<E>(Ok(answer)) == Ok::<(), ExtError<E>>(()),
        read_result::<E>(Ok(answer)) == Ok::<u16, ExtError<E>>(register_payload(body@)),
        special_result::<E>(Ok(answer)) == Ok::<(u16, u16), ExtError<E>>(
            (first_payload(body@), second_payload(body@)),
        ),
{
    lemma_sealed_is_intact(body@);
}

/// A failure of the bus is passed on as it is, whatever the operation.
pub proof fn lemma_bus_error_is_passed_on<E>(e: E)
    ensures
        write_result::<E>(Err(e)) == Err::<(), ExtError<E>>(ExtError::E(e)),
        read_result::<E>(Err(e)) == Err::<u16, ExtError<E>>(ExtError::E(e)),
        special_result::<E>(Err(e)) == Err::<(u16, u16), ExtError<E>>(ExtError::E(e)),
{
}

/// Builds the frame that writes `value` to `reg` with command `cmd`.
pub fn write_register_request(reg: Register, value: u16, cmd: u8) -> (r: [u8; 4])
    ensures
        r@ == write_frame(reg, value, cmd),
        intact(r@),
        r[0] == reg.addr(),
        r[1] == value / 256,
        r[2] == value % 256,
        r[3] / 16 == cmd % 16,
{
    let hi: u8 = (value >> 8) as u8;
    let lo: u8 = (value & 0xFF) as u8;
    let tail: u8 = command_tail(cmd);
    assert(hi == value / 256 && lo == value % 256) by {
        assert((value >> 8) as u8 == value / 256 && (value & 0xFF) as u8 == value % 256)
            by (bit_vector);
    }
    let frame: [u8; 4] = [reg.addr(), hi, lo, tail];
    assert(frame@ =~= seq![reg.addr(), (value / 256) as u8, (value % 256) as u8, command_byte(cmd)]);
    proof {
        lemma_with_nibble(frame@, checksum(stripped(frame@)));
    }
    seal(frame)
}

/// Builds the frame that reads `reg` with command `cmd`.
pub fn read_register_request(reg: Register, cmd: u8) -> (r: [u8; 4])
    ensures
        r@ == read_frame(reg, cmd),
        intact(r@),
        r[0] == reg.addr() + READ_FLAG,
        r[1] == 0,
        r[2] == 0,
        r[3] / 16 == cmd % 16,
{
    let addr: u8 = reg.addr();
    let head: u8 = addr | READ_FLAG;
    let tail: u8 = command_tail(cmd);
    assert(head == addr + READ_FLAG) by {
        assert(addr | 0x80 == addr + 0x80) by (bit_vector)
            requires
                addr <= 0x14,
        ;
    }
    let frame: [u8; 4] = [head, 0, 0, tail];
    assert(frame@ =~= seq![(reg.addr() + READ_FLAG) as u8, 0, 0, command_byte(cmd)]);
    proof {
        lemma_with_nibble(frame@, checksum(stripped(frame@)));
    }
    seal(frame)
}

/// Builds the frame of the dual read with command `cmd`.
pub fn read_special_request(cmd: u8) -> (r: [u8; 4])
    ensures
        r@ == special_frame(cmd),
        intact(r@),
        r[0] == READ_FLAG,
        r[1] == 0,
        r[2] == 0,
        r[3] / 16 == cmd % 16,
{
    let tail: u8 = command_tail(cmd);
    let frame: [u8; 4] = [READ_FLAG, 0, 0, tail];
    assert(frame@ =~= seq![READ_FLAG, 0, 0, command_byte(cmd)]);
    proof {
        lemma_with_nibble(frame@, checksum(stripped(frame@)));
    }
    seal(frame)
}

/// Finishes a write: the sensor's answer carries nothing to decode, but it
/// has to be intact.
pub fn write_register_reply<E>(outcome: Result<[u8; 4], E>) -> (r: Result<(), ExtError<E>>)
    ensures
        r == write_result(outcome),
{
    match outcome {
        Err(e) => Err(ExtError::E(e)),
        Ok(answer) => {
            if is_intact(&answer) {
                Ok(())
            } else {
                Err(ExtError::CrcError)
            }
        },
    }
}

/// Finishes a read: the value of the register is in the data bytes of an
/// intact answer.
pub fn read_register_reply<E>(outcome: Result<[u8; 4], E>) -> (r: Result<u16, ExtError<E>>)
    ensures
        r == read_result(outcome),
{
    match outcome {
        Err(e) => Err(ExtError::E(e)),
        Ok(answer) => {
            if is_intact(&answer) {
                Ok(register_value(&answer))
            } else {
                Err(ExtError::CrcError)
            }
        },
    }
}

/// Finishes a dual read: an intact answer carries two twelve-bit values.
pub fn read_special_reply<E>(outcome: Result<[u8; 4], E>) -> (r: Result<(u16, u16), ExtError<E>>)
    ensures
        r == special_result(outcome),
{
    match outcome {
        Err(e) => Err(ExtError::E(e)),
        Ok(answer) => {
            if is_intact(&answer) {
                Ok(dual_values(&answer))
            } else {
                Err(ExtError::CrcError)
            }
        },
    }
}

/// Reads a register value as a two's-complement number.
pub fn signed(value: u16) -> (r: i16)
    ensures
        r == signed_value(value),
{
    assert(value as i16 == (if value < 0x8000 {
        value as int
    } else {
        value - 0x1_0000
    })) by (bit_vector);
    value as i16
}

} // verus!
