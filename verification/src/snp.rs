//! SEV-SNP specifics: the `pvalidate` result decoding and the GHCB MSR
//! termination protocol.
//!
//! The instructions themselves (`pvalidate`, `wrmsr`, `vmmcall`) are
//! privileged machine instructions the embedding shim executes; this module
//! holds the values they exchange.

use vstd::prelude::*;

verus! {

/// The MSR carrying the guest-hypervisor communication block protocol.
pub const SEV_GHCB_MSR: u32 = 0xC001_0130;

/// Error reported by the `pvalidate` instruction.
#[derive(Clone, Copy, Debug, PartialEq, Eq, Structural)]
#[non_exhaustive]
pub enum Error {
    /// The input was rejected: for instance, a 2 MiB page that is not
    /// 2 MiB aligned.
    FailInput,
    /// The page size does not match: a 2 MiB validation backed by 4 KiB
    /// pages.
    FailSizeMismatch,
    /// An error code this shim does not know.
    Unknown(u32),
}

/// Decode what `pvalidate` reported: `rax` carries the error code and the
/// carry flag (here already materialized into a register) reports whether
/// the RMP entry was already set.  On success the result says whether the
/// page was newly validated.
pub fn pvalidate_result(ret: u32, rmp_done: u32) -> (r: Result<bool, Error>)
    ensures
        ret == 0 ==> r == Ok::<bool, Error>((rmp_done as u8) == 0),
        ret == 1 ==> r == Err::<bool, Error>(Error::FailInput),
        ret == 6 ==> r == Err::<bool, Error>(Error::FailSizeMismatch),
        ret != 0 && ret != 1 && ret != 6 ==> r == Err::<bool, Error>(Error::Unknown(ret)),
{
    match ret {
        0 => Ok(rmp_done as u8 == 0),
        1 => Err(Error::FailInput),
        6 => Err(Error::FailSizeMismatch),
        _ => Err(Error::Unknown(ret)),
    }
}

/// The `eax` value of a GHCB MSR termination request: bits 0–11 carry the
/// request (`0x100`, terminate), bits 12–15 the protocol (`1`), and bits
/// 16–23 the reason code.
pub fn ghcb_terminate_eax(reason_code: u8) -> (r: u32)
    ensures
        r == ((reason_code as u32) << 16u32 | (1u32 << 12u32) | 0x100u32),
{
    (reason_code as u32) << 16u32 | (1u32 << 12u32) | 0x100u32
}

} // verus!
