//! CRC-16/XMODEM checksum used by the compressed embedded-graphics encoding
//! for device-side integrity verification.

use vstd::prelude::*;

verus! {

/// The CRC-16/XMODEM checksum of a byte sequence.
pub uninterp spec fn spec_crc16_xmodem(data: Seq<u8>) -> u16;

/// Relies on the crc crate's `Crc::<u16>` with the catalogued CRC-16/XMODEM
/// algorithm: the checksum is a deterministic function of the input bytes
/// (check value: 0x31c3 for the bytes of "123456789").
#[verifier::external_body]
pub fn checksum(data: &[u8]) -> (r: u16)
    ensures
        r == spec_crc16_xmodem(data@),
{
    crc::Crc::<u16>::new(&crc::CRC_16_XMODEM).checksum(data)
}

} // verus!
