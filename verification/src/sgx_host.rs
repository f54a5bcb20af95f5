//! The SGX host's exit dispatcher.
//!
//! The host enters the enclave and waits for it to yield.  An asynchronous
//! exit with an invalid-opcode trap means the shim must run: re-enter.  A
//! normal exit carries a request in the block: `cpuid` and attestation are
//! answered right here and the enclave re-entered; the resume marker means
//! the shim already answered the payload and the enclave is re-entered
//! without re-executing the proxied instruction; anything else is a Linux
//! syscall for the host executor.

use vstd::prelude::*;

use crate::block::{Block, Message, Reply, SYS_ENARX_CPUID, SYS_ENARX_ERESUME, SYS_ENARX_GETATT};
use crate::sgx::Vector;

verus! {

/// How to enter the enclave.
#[derive(Clone, Copy, Debug, PartialEq, Eq, Structural)]
pub enum Entry {
    /// Enter the exception handler (EENTER).
    Enter,
    /// Resume the interrupted payload (ERESUME).
    Resume,
}

/// How the enclave yielded.
#[derive(Clone, Copy, Debug, PartialEq, Eq, Structural)]
pub enum EnclaveExit {
    /// An asynchronous exit with this trap.
    Aex(Vector),
    /// A normal exit: the block carries a request.
    Normal,
}

/// What the host must do about an enclave exit.
#[derive(Clone, Copy, Debug, PartialEq, Eq, Structural)]
pub enum SgxStep {
    /// Re-enter the enclave this way.
    ReEnter(Entry),
    /// Execute `cpuid` with this leaf and subleaf, hand the result to
    /// [`apply_cpuid`], and re-enter with [`Entry::Enter`].
    DoCpuid {
        /// The leaf (`eax`).
        leaf: u32,
        /// The subleaf (`ecx`).
        subleaf: u32,
    },
    /// Retrieve an attestation report as the request asks, finish with
    /// [`attestation_complete`], and re-enter with [`Entry::Enter`].
    GetAttestation,
    /// The block carries a Linux syscall for the host executor.
    SysCall,
    /// An exit the host cannot handle: the Keep fails.
    Fatal,
}

/// Decide what an enclave exit demands.
///
/// An AEX with an invalid-opcode trap re-enters the shim's handler; any
/// other trap is fatal.  On a normal exit the request number decides:
/// `cpuid` and attestation are host business, the resume marker means the
/// shim handled everything itself, and any other number is a syscall.  A
/// `cpuid` argument beyond 32 bits, or a block that carries no request, is
/// malformed and fatal.
pub fn sgx_host_step(block: &Block, event: EnclaveExit) -> (r: SgxStep)
    ensures
        ({
            match event {
                EnclaveExit::Aex(v) => if v == Vector::InvalidOpcode {
                    r == SgxStep::ReEnter(Entry::Enter)
                } else {
                    r == SgxStep::Fatal
                },
                EnclaveExit::Normal => match block.msg {
                    Message::Rep(_) => r == SgxStep::Fatal,
                    Message::Req(q) => {
                        if q.num == SYS_ENARX_CPUID {
                            if q.arg@[0] <= u32::MAX && q.arg@[1] <= u32::MAX {
                                r == (SgxStep::DoCpuid {
                                    leaf: q.arg@[0] as u32,
                                    subleaf: q.arg@[1] as u32,
                                })
                            } else {
                                r == SgxStep::Fatal
                            }
                        } else if q.num == SYS_ENARX_GETATT {
                            r == SgxStep::GetAttestation
                        } else if q.num == SYS_ENARX_ERESUME {
                            r == SgxStep::ReEnter(Entry::Resume)
                        } else {
                            r == SgxStep::SysCall
                        }
                    },
                },
            }
        }),
{
    match event {
        EnclaveExit::Aex(v) => {
            if v == Vector::InvalidOpcode {
                SgxStep::ReEnter(Entry::Enter)
            } else {
                SgxStep::Fatal
            }
        },
        EnclaveExit::Normal => {
            let q = match block.msg {
                Message::Req(q) => q,
                Message::Rep(_) => {
                    return SgxStep::Fatal;
                },
            };
            if q.num == SYS_ENARX_CPUID {
                let leaf = q.arg[0];
                let subleaf = q.arg[1];
                if leaf > u32::MAX as u64 || subleaf > u32::MAX as u64 {
                    return SgxStep::Fatal;
                }
                SgxStep::DoCpuid { leaf: leaf as u32, subleaf: subleaf as u32 }
            } else if q.num == SYS_ENARX_GETATT {
                SgxStep::GetAttestation
            } else if q.num == SYS_ENARX_ERESUME {
                SgxStep::ReEnter(Entry::Resume)
            } else {
                SgxStep::SysCall
            }
        },
    }
}

/// Write the host's `cpuid` result into the request's first four argument
/// words, where the shim's handler picks them up.
pub fn apply_cpuid(block: &mut Block, eax: u32, ebx: u32, ecx: u32, edx: u32)
    requires
        old(block).msg is Req,
    ensures
        final(block).base == old(block).base,
        final(block).data@ == old(block).data@,
        ({
            let q = old(block).msg->Req_0;
            final(block).msg matches Message::Req(q2) && q2.num == q.num && q2.arg@ =~= q.arg@.update(
                0,
                eax as u64,
            ).update(1, ebx as u64).update(2, ecx as u64).update(3, edx as u64)
        }),
{
    let mut q = match block.msg {
        Message::Req(q) => q,
        Message::Rep(_) => {
            return;
        },
    };
    q.arg[0] = eax as u64;
    q.arg[1] = ebx as u64;
    q.arg[2] = ecx as u64;
    q.arg[3] = edx as u64;
    block.msg = Message::Req(q);
}

/// Write the attestation reply: the report's length in the first return
/// register.
pub fn attestation_complete(block: &mut Block, len: usize)
    ensures
        final(block).base == old(block).base,
        final(block).data@ == old(block).data@,
        final(block).msg matches Message::Rep(rep) && rep.err == 0 && rep.ret@[0] == len as u64
            && rep.ret@[1] == 0,
{
    block.msg = Message::Rep(Reply { ret: [len as u64, 0], err: 0 });
}

} // verus!
