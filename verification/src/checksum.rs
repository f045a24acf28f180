//! The 8-bit integrity code that closes every frame.
//!
//! The code is CRC-8 in the AUTOSAR profile and is computed by the `crc`
//! crate. Verus does not look into that crate: the code of a byte sequence is
//! the uninterpreted function [`crc8_autosar`], and everything the rest of the
//! library proves about frames holds for whatever value that function takes.

use vstd::prelude::*;

verus! {

/// The CRC-8/AUTOSAR code of a byte sequence: what `crc::Crc::<u8>::checksum`
/// returns for these bytes on an instance built from `crc::CRC_8_AUTOSAR`.
pub uninterp spec fn crc8_autosar(bytes: Seq<u8>) -> u8;

/// Calls `crc::Crc::<u8>::new` on `crc::CRC_8_AUTOSAR` and then
/// `crc::Crc::<u8>::checksum` on `bytes`.
///
/// Trusted: the contract only gives the returned code its name. The `crc`
/// crate computes it from the algorithm's constants and the bytes alone, with
/// no failure mode, so equal byte sequences always have equal codes.
#[verifier::external_body]
pub(crate) fn crc8_autosar_of(bytes: &[u8]) -> (code: u8)
    ensures
        code == crc8_autosar(bytes@),
{
    crc::Crc::<u8>::new(&crc::CRC_8_AUTOSAR).checksum(bytes)
}

} // verus!
