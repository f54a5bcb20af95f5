//! The SGX shim's exception handler.
//!
//! On an asynchronous enclave exit (AEX) the hardware stores the payload's
//! registers in a state save area; the shim inspects it.  An invalid-opcode
//! exception on a `syscall` or `cpuid` instruction is the payload asking for
//! a service: the shim marshals the request through the shared block, lets
//! the host service it, writes the reply registers back, and advances `rip`
//! past the two-byte instruction so it is not re-executed.  Any other
//! exception terminates the Keep: the shim executes `ud2` and fails visibly.
//!
//! The exit to the host and the re-entry of the enclave are the embedding
//! program's part; [`Handler::handle`] decides everything up to the exit,
//! and [`Handler::handle_resume`] everything after the re-entry.

use vstd::prelude::*;

use crate::block::{Message, Request, SYS_ENARX_CPUID, SYS_ENARX_ERESUME};
use crate::syscall::{is_identity, SyscallFinish, SyscallHandler, SyscallStep, SYS_EXIT};

verus! {

/// An exception vector reported in the state save area.
#[derive(Clone, Copy, Debug, PartialEq, Eq, Structural)]
pub enum Vector {
    /// `#DE`
    DivideError,
    /// `#DB`
    Debug,
    /// `#BP`
    Breakpoint,
    /// `#OF`
    Overflow,
    /// `#BR`
    BoundRange,
    /// `#UD`
    InvalidOpcode,
    /// `#NM`
    DeviceNotAvailable,
    /// `#DF`
    DoubleFault,
    /// `#TS`
    InvalidTss,
    /// `#NP`
    SegmentNotPresent,
    /// `#SS`
    StackSegment,
    /// `#GP`
    GeneralProtection,
    /// `#PF`
    PageFault,
    /// `#MF`
    FpuError,
    /// `#AC`
    AlignmentCheck,
    /// `#MC`
    MachineCheck,
    /// `#XM`
    SimdError,
}

/// The general-purpose registers of the state save area, each as wide as the
/// target's word.
#[derive(Clone, Copy, Debug, Default, PartialEq, Eq, Structural)]
pub struct Gpr {
    /// `rax`; carries the syscall number in, the return value out.
    pub rax: usize,
    /// `rbx`
    pub rbx: usize,
    /// `rcx`; carries the `cpuid` subleaf.
    pub rcx: usize,
    /// `rdx`; third syscall argument and second return register.
    pub rdx: usize,
    /// `rsi`; second syscall argument.
    pub rsi: usize,
    /// `rdi`; first syscall argument.
    pub rdi: usize,
    /// `rbp`
    pub rbp: usize,
    /// `rsp`
    pub rsp: usize,
    /// `r8`; fifth syscall argument.
    pub r8: usize,
    /// `r9`; sixth syscall argument.
    pub r9: usize,
    /// `r10`; fourth syscall argument.
    pub r10: usize,
    /// `r11`
    pub r11: usize,
    /// `r12`
    pub r12: usize,
    /// `r13`
    pub r13: usize,
    /// `r14`
    pub r14: usize,
    /// `r15`
    pub r15: usize,
    /// The payload's instruction pointer at the exit.
    pub rip: usize,
    /// The exception that caused the exit, if the exit info is valid.
    pub exitinfo: Option<Vector>,
}

/// The state save area: where SGX stores the payload's registers on an
/// asynchronous exit.
#[derive(Clone, Copy, Debug, Default, PartialEq, Eq, Structural)]
pub struct StateSaveArea {
    /// The general-purpose registers.
    pub gpr: Gpr,
}

/// Whether these two bytes at `rip` are the `syscall` instruction.
pub open spec fn is_syscall_opcode(b0: u8, b1: u8) -> bool {
    b0 == 0x0f && b1 == 0x05
}

/// Whether these two bytes at `rip` are the `cpuid` instruction.
pub open spec fn is_cpuid_opcode(b0: u8, b1: u8) -> bool {
    b0 == 0x0f && b1 == 0xa2
}

/// What finishing an exception decided: resume the payload past the
/// instruction, or terminate the Keep.
#[derive(Clone, Copy, Debug, PartialEq, Eq, Structural)]
pub enum FinishAction {
    /// The instruction was skipped; resume the payload.
    Resumed,
    /// Execute `ud2`: the payload fails visibly.
    Terminate,
}

/// What handling an exception decided.
#[derive(Clone, Copy, Debug, PartialEq, Eq)]
pub enum HandleStep {
    /// Handled locally; the block asks the host to resume the payload.
    Resumed,
    /// This request stands in the block; exit to the host, then call
    /// [`Handler::handle_resume`] after re-entry.
    Proxy(Request),
    /// Execute `ud2`: the Keep terminates.
    Terminate,
}

/// What the handler waits for from the host.
#[derive(Clone, Copy, Debug, PartialEq, Eq, Structural)]
pub enum AwaitKind {
    /// A syscall reply in the block's message.
    Syscall,
    /// The four `cpuid` result registers in the request's arguments.
    Cpuid,
}

/// The SGX shim's exception handler: the syscall machinery and the state
/// save area of the thread that took the exception.
#[derive(Debug)]
pub struct Handler {
    /// The syscall dispatcher state: block, memory map, payload memory.
    pub sys: SyscallHandler,
    /// The interrupted thread's state save area.
    pub ssa: StateSaveArea,
    /// What the handler awaits from the host, if anything.
    pub awaiting: Option<AwaitKind>,
}

impl Handler {
    /// A handler is well formed when its syscall state is and, while it
    /// awaits a syscall reply, the request is indeed in flight.
    pub open spec fn wf(self) -> bool {
        &&& self.sys.wf()
        &&& (self.awaiting == Some(AwaitKind::Syscall) ==> self.sys.pending is Some)
    }

    /// Whether the two bytes at the payload's `rip` can be read.
    pub open spec fn rip_opcode_readable(self) -> bool {
        &&& self.sys.payload_base <= self.ssa.gpr.rip
        &&& self.ssa.gpr.rip + 2 <= self.sys.payload_base + self.sys.payload@.len()
    }

    /// The instruction byte `k` bytes past the payload's `rip`.
    pub open spec fn rip_byte(self, k: int) -> u8 {
        self.sys.payload@[self.ssa.gpr.rip - self.sys.payload_base + k]
    }

    /// Whether the payload stopped on a `syscall` instruction.
    pub open spec fn at_syscall(self) -> bool {
        self.rip_opcode_readable() && is_syscall_opcode(self.rip_byte(0), self.rip_byte(1))
    }

    /// Whether the payload stopped on a `cpuid` instruction.
    pub open spec fn at_cpuid(self) -> bool {
        self.rip_opcode_readable() && is_cpuid_opcode(self.rip_byte(0), self.rip_byte(1))
    }

    /// A fresh handler for one exception.
    pub fn new(ssa: StateSaveArea, sys: SyscallHandler) -> (r: Handler)
        requires
            sys.wf(),
        ensures
            r.ssa == ssa,
            r.sys == sys,
            r.awaiting is None,
    {
        Handler { sys, ssa, awaiting: None }
    }

    /// Finish handling an exception: if it was an invalid opcode on a
    /// `syscall` or `cpuid` instruction, skip the two-byte instruction so it
    /// is not re-executed and resume the payload; anything else terminates.
    ///
    /// `b0, b1` are the two bytes at `rip`.
    pub fn finish(ssa: &mut StateSaveArea, b0: u8, b1: u8) -> (r: FinishAction)
        requires
            old(ssa).gpr.rip + 2 <= usize::MAX,
        ensures
            r == FinishAction::Resumed <==> old(ssa).gpr.exitinfo == Some(Vector::InvalidOpcode)
                && (is_syscall_opcode(b0, b1) || is_cpuid_opcode(b0, b1)),
            r == FinishAction::Resumed ==> *final(ssa) == (StateSaveArea {
                gpr: Gpr { rip: (old(ssa).gpr.rip + 2) as usize, ..old(ssa).gpr },
            }),
            r == FinishAction::Terminate ==> *final(ssa) == *old(ssa),
    {
        let is_ud = match ssa.gpr.exitinfo {
            Some(Vector::InvalidOpcode) => true,
            _ => false,
        };
        if is_ud && b0 == 0x0f && (b1 == 0x05 || b1 == 0xa2) {
            ssa.gpr.rip = ssa.gpr.rip + 2;
            FinishAction::Resumed
        } else {
            FinishAction::Terminate
        }
    }

    /// The two instruction bytes at the payload's `rip`, if `rip` points
    /// into payload memory.
    fn opcode_at_rip(&self) -> (r: Option<(u8, u8)>)
        requires
            self.wf(),
        ensures
            r is Some <==> self.rip_opcode_readable(),
            r matches Some(op) ==> op.0 == self.rip_byte(0) && op.1 == self.rip_byte(1),
    {
        let rip = self.ssa.gpr.rip;
        let base = self.sys.payload_base;
        if rip < base {
            return None;
        }
        let off = rip - base;
        let len = self.sys.payload.len();
        if off >= len || len - off < 2 {
            return None;
        }
        let b0 = self.sys.payload[off];
        let b1 = self.sys.payload[off + 1];
        Some((b0, b1))
    }

    /// Write a finished syscall result into the payload's registers, advance
    /// `rip` past the instruction, and ask the host to resume the payload.
    /// A reply register wider than the target's word, or an error that is
    /// not a positive errno, is a malformed reply: the Keep terminates.
    fn apply_result(&mut self, res: Result<[u64; 2], i32>) -> (r: HandleStep)
        requires
            old(self).wf(),
            old(self).ssa.gpr.rip + 2 <= usize::MAX,
        ensures
            final(self).wf(),
            old(self).sys.same_env(final(self).sys),
            final(self).sys.payload == old(self).sys.payload,
            final(self).sys.pending == old(self).sys.pending,
            final(self).awaiting == old(self).awaiting,
            r == HandleStep::Resumed || r == HandleStep::Terminate,
            r == HandleStep::Terminate ==> *final(self) == *old(self),
            r == HandleStep::Resumed ==> (final(self).sys.block.msg matches Message::Req(q)
                && q.num == SYS_ENARX_ERESUME),
            ({
                match res {
                    Ok(v) => if v@[0] <= usize::MAX && v@[1] <= usize::MAX {
                        r == HandleStep::Resumed && final(self).ssa == (StateSaveArea {
                            gpr: Gpr {
                                rax: v@[0] as usize,
                                rdx: v@[1] as usize,
                                rip: (old(self).ssa.gpr.rip + 2) as usize,
                                ..old(self).ssa.gpr
                            },
                        })
                    } else {
                        r == HandleStep::Terminate
                    },
                    Err(e) => if e > 0 {
                        r == HandleStep::Resumed && final(self).ssa == (StateSaveArea {
                            gpr: Gpr {
                                rax: (usize::MAX - e + 1) as usize,
                                rip: (old(self).ssa.gpr.rip + 2) as usize,
                                ..old(self).ssa.gpr
                            },
                        })
                    } else {
                        r == HandleStep::Terminate
                    },
                }
            }),
    {
        match res {
            Ok(v) => {
                let r0 = v[0];
                let r1 = v[1];
                if r0 > usize::MAX as u64 || r1 > usize::MAX as u64 {
                    return HandleStep::Terminate;
                }
                self.ssa.gpr.rax = r0 as usize;
                self.ssa.gpr.rdx = r1 as usize;
            },
            Err(e) => {
                if e <= 0 {
                    return HandleStep::Terminate;
                }
                self.ssa.gpr.rax = usize::MAX - (e as usize) + 1;
            },
        }
        self.ssa.gpr.rip = self.ssa.gpr.rip + 2;
        self.sys.block.msg = Message::Req(Request::new(SYS_ENARX_ERESUME, 0, 0, 0, 0, 0, 0));
        HandleStep::Resumed
    }

    /// The payload executed `syscall`: dispatch its registers.  A local
    /// answer goes straight back into the registers; a proxied request
    /// leaves the registers untouched until [`Handler::handle_resume`].
    fn handle_syscall(&mut self) -> (r: HandleStep)
        requires
            old(self).wf(),
            old(self).sys.pending is None,
            old(self).awaiting is None,
            old(self).ssa.gpr.rip + 2 <= usize::MAX,
        ensures
            final(self).wf(),
            old(self).sys.same_env(final(self).sys),
            r is Proxy ==> final(self).awaiting == Some(AwaitKind::Syscall) && final(self).ssa
                == old(self).ssa,
            r == HandleStep::Resumed ==> final(self).ssa.gpr.rip == old(self).ssa.gpr.rip + 2 && (
            final(self).sys.block.msg matches Message::Req(q) && q.num == SYS_ENARX_ERESUME),
            // The dispatcher answers or proxies; it never ends the Keep.
            r != HandleStep::Terminate,
            is_identity(old(self).ssa.gpr.rax) ==> r == HandleStep::Resumed && final(self).ssa.gpr.rax == 1000 && final(self).ssa.gpr.rdx == old(self).ssa.gpr.rdx,
    {
        let g = self.ssa.gpr;
        let step = self.sys.syscall(g.rdi, g.rsi, g.rdx, g.r10, g.r8, g.r9, g.rax);
        match step {
            SyscallStep::Done(res) => self.apply_result(res),
            SyscallStep::Proxy(q) => {
                self.awaiting = Some(AwaitKind::Syscall);
                HandleStep::Proxy(q)
            },
        }
    }

    /// The payload executed `cpuid`: it cannot run inside the enclave, so
    /// ask the host for the result of this leaf and subleaf.
    fn handle_cpuid(&mut self) -> (r: HandleStep)
        requires
            old(self).wf(),
            old(self).sys.pending is None,
            old(self).awaiting is None,
        ensures
            final(self).wf(),
            old(self).sys.same_env(final(self).sys),
            final(self).ssa == old(self).ssa,
            final(self).sys.pending is None,
            final(self).awaiting == Some(AwaitKind::Cpuid),
            r matches HandleStep::Proxy(q) && q.num == SYS_ENARX_CPUID && q.arg@[0] == old(self).ssa.gpr.rax as u64 && q.arg@[1] == old(self).ssa.gpr.rcx as u64,
            final(self).sys.block.msg matches Message::Req(q2) && r == HandleStep::Proxy(q2),
    {
        let g = self.ssa.gpr;
        let q = Request::new(SYS_ENARX_CPUID, g.rax as u64, g.rcx as u64, 0, 0, 0, 0);
        self.sys.block.msg = Message::Req(q);
        self.awaiting = Some(AwaitKind::Cpuid);
        HandleStep::Proxy(q)
    }

    /// Handle an exception.
    ///
    /// Only an invalid-opcode exception on a `syscall` or `cpuid`
    /// instruction is payload business; `cpuid` and most syscalls go to the
    /// host.  A stray invalid opcode makes the payload exit; any other
    /// exception, or an instruction pointer the shim cannot read, is an
    /// attack and terminates the Keep.
    pub fn handle(&mut self) -> (r: HandleStep)
        requires
            old(self).wf(),
            old(self).sys.pending is None,
            old(self).awaiting is None,
            old(self).ssa.gpr.rip + 2 <= usize::MAX,
        ensures
            final(self).wf(),
            old(self).sys.same_env(final(self).sys),
            old(self).ssa.gpr.exitinfo != Some(Vector::InvalidOpcode) ==> r
                == HandleStep::Terminate && *final(self) == *old(self),
            old(self).ssa.gpr.exitinfo == Some(Vector::InvalidOpcode) && !old(self).rip_opcode_readable() ==> r == HandleStep::Terminate && *final(self) == *old(self),
            r is Proxy ==> final(self).awaiting is Some && final(self).ssa == old(self).ssa,
            r == HandleStep::Resumed ==> final(self).ssa.gpr.rip == old(self).ssa.gpr.rip + 2 && (
            final(self).sys.block.msg matches Message::Req(q) && q.num == SYS_ENARX_ERESUME),
            old(self).ssa.gpr.exitinfo == Some(Vector::InvalidOpcode) && old(self).at_cpuid() ==> (
            r matches HandleStep::Proxy(q) && q.num == SYS_ENARX_CPUID && q.arg@[0] == old(self).ssa.gpr.rax as u64 && q.arg@[1] == old(self).ssa.gpr.rcx as u64 && final(self).awaiting == Some(AwaitKind::Cpuid)),
            old(self).ssa.gpr.exitinfo == Some(Vector::InvalidOpcode) && old(self).at_syscall()
                && is_identity(old(self).ssa.gpr.rax) ==> r == HandleStep::Resumed && final(self).ssa.gpr.rax == 1000 && final(self).ssa.gpr.rdx == old(self).ssa.gpr.rdx,
            old(self).ssa.gpr.exitinfo == Some(Vector::InvalidOpcode) && old(self).at_syscall()
                ==> r != HandleStep::Terminate,
            old(self).ssa.gpr.exitinfo == Some(Vector::InvalidOpcode) && old(self).rip_opcode_readable() && !old(self).at_syscall() && !old(self).at_cpuid() ==> (
            r matches HandleStep::Proxy(q) && q.num == SYS_EXIT as u64 && q.arg@[0] == 1),
    {
        let is_ud = match self.ssa.gpr.exitinfo {
            Some(Vector::InvalidOpcode) => true,
            _ => false,
        };
        if !is_ud {
            return HandleStep::Terminate;
        }
        let (b0, b1) = match self.opcode_at_rip() {
            Some(op) => op,
            None => {
                return HandleStep::Terminate;
            },
        };
        if b0 == 0x0f && b1 == 0x05 {
            self.handle_syscall()
        } else if b0 == 0x0f && b1 == 0xa2 {
            self.handle_cpuid()
        } else {
            // An opcode the shim does not service: make the payload exit.
            let step = self.sys.proxy_scalar(SYS_EXIT, 1, 0, 0, 0, 0, 0);
            self.awaiting = Some(AwaitKind::Syscall);
            match step {
                SyscallStep::Proxy(q) => HandleStep::Proxy(q),
                SyscallStep::Done(_) => HandleStep::Terminate,
            }
        }
    }

    /// Continue after the host serviced the request in the block.
    ///
    /// A syscall reply is validated and written into the registers; a
    /// `cpuid` answer arrives in the request's argument words and goes into
    /// `rax`, `rbx`, `rcx`, `rdx`.  Either way `rip` moves past the
    /// instruction, so it is not re-executed.  A malformed or out-of-contract
    /// reply terminates the Keep.
    pub fn handle_resume(&mut self) -> (r: HandleStep)
        requires
            old(self).wf(),
            old(self).awaiting is Some,
            old(self).ssa.gpr.rip + 2 <= usize::MAX,
        ensures
            final(self).wf(),
            old(self).sys.same_env(final(self).sys),
            final(self).awaiting is None,
            r == HandleStep::Resumed || r == HandleStep::Terminate,
            r == HandleStep::Resumed ==> final(self).ssa.gpr.rip == old(self).ssa.gpr.rip + 2 && (
            final(self).sys.block.msg matches Message::Req(q) && q.num == SYS_ENARX_ERESUME),
            old(self).awaiting == Some(AwaitKind::Syscall) && !(old(self).sys.block.msg is Rep) ==> r == HandleStep::Terminate,
            // A Linux syscall's reply preserves the payload's third argument
            // in `rdx`, whatever the host answered.
            ({
                let p = old(self).sys.pending;
                old(self).awaiting == Some(AwaitKind::Syscall) && r == HandleStep::Resumed
                    && p is Some && p->Some_0.num < 0xEA00 && (old(self).sys.block.msg matches Message::Rep(rep) && rep.err == 0) ==> final(self).ssa.gpr.rdx == p->Some_0.rdx
            }),
            // A reply carrying a plain errno always reaches the payload as
            // the negated errno in `rax`.
            ({
                old(self).awaiting == Some(AwaitKind::Syscall) ==> match old(self).sys.block.msg {
                    Message::Rep(rep) => match rep.spec_result() {
                        Err(e) => e > 0 ==> r == HandleStep::Resumed && final(self).ssa.gpr.rax
                            == usize::MAX - e + 1,
                        Ok(_) => true,
                    },
                    Message::Req(_) => true,
                }
            }),
            // The cpuid answer goes into the four result registers.
            ({
                old(self).awaiting == Some(AwaitKind::Cpuid) ==> match old(self).sys.block.msg {
                    Message::Req(q) => if q.arg@[0] <= usize::MAX && q.arg@[1] <= usize::MAX
                        && q.arg@[2] <= usize::MAX && q.arg@[3] <= usize::MAX {
                        r == HandleStep::Resumed && final(self).ssa.gpr.rax == q.arg@[0]
                            && final(self).ssa.gpr.rbx == q.arg@[1] && final(self).ssa.gpr.rcx
                            == q.arg@[2] && final(self).ssa.gpr.rdx == q.arg@[3]
                    } else {
                        r == HandleStep::Terminate
                    },
                    Message::Rep(_) => r == HandleStep::Terminate,
                }
            }),
    {
        let kind = self.awaiting.unwrap();
        self.awaiting = None;
        match kind {
            AwaitKind::Syscall => {
                let reply = match self.sys.block.msg {
                    Message::Rep(rep) => rep,
                    Message::Req(_) => {
                        return HandleStep::Terminate;
                    },
                };
                match self.sys.syscall_resume(reply) {
                    SyscallFinish::Attacked => HandleStep::Terminate,
                    SyscallFinish::Ready(res) => self.apply_result(res),
                }
            },
            AwaitKind::Cpuid => {
                let q = match self.sys.block.msg {
                    Message::Req(q) => q,
                    Message::Rep(_) => {
                        return HandleStep::Terminate;
                    },
                };
                let a0 = q.arg[0];
                let a1 = q.arg[1];
                let a2 = q.arg[2];
                let a3 = q.arg[3];
                if a0 > usize::MAX as u64 || a1 > usize::MAX as u64 || a2 > usize::MAX as u64 || a3
                    > usize::MAX as u64 {
                    return HandleStep::Terminate;
                }
                self.ssa.gpr.rax = a0 as usize;
                self.ssa.gpr.rbx = a1 as usize;
                self.ssa.gpr.rcx = a2 as usize;
                self.ssa.gpr.rdx = a3 as usize;
                self.ssa.gpr.rip = self.ssa.gpr.rip + 2;
                self.sys.block.msg = Message::Req(
                    Request::new(SYS_ENARX_ERESUME, 0, 0, 0, 0, 0, 0),
                );
                HandleStep::Resumed
            },
        }
    }
}

} // verus!
