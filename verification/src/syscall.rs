//! The shim-side syscall dispatcher.
//!
//! [`SyscallHandler::syscall`] takes the payload's six argument registers
//! and the syscall number, exactly as the trap handler read them, and either
//! answers locally or stages a [`Request`] in the shared block for the host.
//! Proxying is a suspension point: the caller delivers the request to the
//! host and hands the [`Reply`] to [`SyscallHandler::syscall_resume`], which
//! validates it and produces the registers for the payload.
//!
//! Argument coercions that narrow an integer fail with `EINVAL` rather than
//! saturate.  Unsupported numbers answer `ENOSYS`.  Identity syscalls answer
//! locally with a fixed fake identity and never reach the host.  Buffers are
//! staged through the block's [`Cursor`][crate::block::Cursor]; a payload
//! pointer is used only after [`MemoryMap`] validation, and a failed
//! validation answers `EFAULT` without a host round trip.
//!
//! Emulating the whole Linux surface is not a goal: only the calls the test
//! payloads exercise marshal buffers (`read`, `write`, attestation); numbers
//! whose marshalling this shim does not implement answer `ENOSYS` after the
//! coercion checks.
//!
//! For a Linux syscall (number below [`SYS_ENARX_BASE`]) the second return
//! register carries the payload's original third argument, because the Linux
//! ABI treats `rdx` as a second return register that plain syscalls must
//! preserve.

use vstd::prelude::*;

use crate::block::{
    Block, Message, Reply, Request, UntrustedRef, BLOCK_DATA_CAPACITY, BLOCK_SIZE, MSG_SIZE,
    SYS_ENARX_BASE, SYS_ENARX_GETATT,
};
use crate::untrusted::MemoryMap;

verus! {

/// `read(2)`.
pub const SYS_READ: usize = 0;

/// `write(2)`.
pub const SYS_WRITE: usize = 1;

/// `close(2)`.
pub const SYS_CLOSE: usize = 3;

/// `fstat(2)`.
pub const SYS_FSTAT: usize = 5;

/// `poll(2)`.
pub const SYS_POLL: usize = 7;

/// `mmap(2)`.
pub const SYS_MMAP: usize = 9;

/// `mprotect(2)`.
pub const SYS_MPROTECT: usize = 10;

/// `munmap(2)`.
pub const SYS_MUNMAP: usize = 11;

/// `brk(2)`.
pub const SYS_BRK: usize = 12;

/// `rt_sigaction(2)`.
pub const SYS_RT_SIGACTION: usize = 13;

/// `rt_sigprocmask(2)`.
pub const SYS_RT_SIGPROCMASK: usize = 14;

/// `ioctl(2)`.
pub const SYS_IOCTL: usize = 16;

/// `readv(2)`.
pub const SYS_READV: usize = 19;

/// `writev(2)`.
pub const SYS_WRITEV: usize = 20;

/// `pipe(2)`.
pub const SYS_PIPE: usize = 22;

/// `madvise(2)`.
pub const SYS_MADVISE: usize = 28;

/// `dup(2)`.
pub const SYS_DUP: usize = 32;

/// `dup2(2)`.
pub const SYS_DUP2: usize = 33;

/// `getpid(2)`.
pub const SYS_GETPID: usize = 39;

/// `socket(2)`.
pub const SYS_SOCKET: usize = 41;

/// `connect(2)`.
pub const SYS_CONNECT: usize = 42;

/// `accept(2)`.
pub const SYS_ACCEPT: usize = 43;

/// `sendto(2)`.
pub const SYS_SENDTO: usize = 44;

/// `recvfrom(2)`.
pub const SYS_RECVFROM: usize = 45;

/// `bind(2)`.
pub const SYS_BIND: usize = 49;

/// `listen(2)`.
pub const SYS_LISTEN: usize = 50;

/// `getsockname(2)`.
pub const SYS_GETSOCKNAME: usize = 51;

/// `setsockopt(2)`.
pub const SYS_SETSOCKOPT: usize = 54;

/// `exit(2)`.
pub const SYS_EXIT: usize = 60;

/// `uname(2)`.
pub const SYS_UNAME: usize = 63;

/// `fcntl(2)`.
pub const SYS_FCNTL: usize = 72;

/// `readlink(2)`.
pub const SYS_READLINK: usize = 89;

/// `getuid(2)`.
pub const SYS_GETUID: usize = 102;

/// `getgid(2)`.
pub const SYS_GETGID: usize = 104;

/// `geteuid(2)`.
pub const SYS_GETEUID: usize = 107;

/// `getegid(2)`.
pub const SYS_GETEGID: usize = 108;

/// `sigaltstack(2)`.
pub const SYS_SIGALTSTACK: usize = 131;

/// `arch_prctl(2)`.
pub const SYS_ARCH_PRCTL: usize = 158;

/// `set_tid_address(2)`.
pub const SYS_SET_TID_ADDRESS: usize = 218;

/// `clock_gettime(2)`.
pub const SYS_CLOCK_GETTIME: usize = 228;

/// `exit_group(2)`.
pub const SYS_EXIT_GROUP: usize = 231;

/// `epoll_wait(2)`.
pub const SYS_EPOLL_WAIT: usize = 232;

/// `epoll_ctl(2)`.
pub const SYS_EPOLL_CTL: usize = 233;

/// `epoll_pwait(2)`.
pub const SYS_EPOLL_PWAIT: usize = 281;

/// `accept4(2)`.
pub const SYS_ACCEPT4: usize = 288;

/// `eventfd2(2)`.
pub const SYS_EVENTFD2: usize = 290;

/// `epoll_create1(2)`.
pub const SYS_EPOLL_CREATE1: usize = 291;

/// `dup3(2)`.
pub const SYS_DUP3: usize = 292;

/// `getrandom(2)`.
pub const SYS_GETRANDOM: usize = 318;

/// `EINVAL`: a narrowing argument coercion failed.
pub const EINVAL: i32 = 22;

/// `ENOSYS`: the syscall is not supported.
pub const ENOSYS: i32 = 38;

/// `EFAULT`: an untrusted pointer failed validation.
pub const EFAULT: i32 = 14;

/// `ENOBUFS`: the block's data area cannot hold the buffer.
pub const ENOBUFS: i32 = 105;

/// `ENOMEM`: out of memory.
pub const ENOMEM: i32 = 12;

/// `ENOTSUP`: operation not supported.
pub const ENOTSUP: i32 = 95;

/// `arch_prctl` code to set the `gs` base.
pub const ARCH_SET_GS: i32 = 0x1001;

/// `arch_prctl` code to set the `fs` base.
pub const ARCH_SET_FS: i32 = 0x1002;

/// `arch_prctl` code to get the `fs` base.
pub const ARCH_GET_FS: i32 = 0x1003;

/// `arch_prctl` code to get the `gs` base.
pub const ARCH_GET_GS: i32 = 0x1004;

/// Fake process id the shim reports to the payload.
pub const FAKE_PID: usize = 1000;

/// Fake user id the shim reports to the payload.
pub const FAKE_UID: usize = 1000;

/// Fake group id the shim reports to the payload.
pub const FAKE_GID: usize = 1000;

/// The kernel's signal-set type, opaque to the shim.
#[derive(Clone, Copy, Debug, PartialEq, Eq, Structural)]
pub struct KernelSigSet;

/// Whether a register value fits the C `int` the syscall expects.
pub open spec fn fits_i32(v: usize) -> bool {
    v <= 0x7fff_ffff
}

/// Whether a register value fits the C `unsigned int` the syscall expects.
pub open spec fn fits_u32(v: usize) -> bool {
    v <= 0xffff_ffff
}

/// Narrow a register to a C `int`; the coercion fails with `EINVAL`.
pub fn try_cint(v: usize) -> (r: Result<i32, i32>)
    ensures
        r is Ok <==> fits_i32(v),
        r is Ok ==> r == Ok::<i32, i32>(v as i32),
        r is Err ==> r == Err::<i32, i32>(EINVAL),
{
    if v <= 0x7fff_ffff {
        Ok(v as i32)
    } else {
        Err(EINVAL)
    }
}

/// Narrow a register to a C `unsigned int`; the coercion fails with `EINVAL`.
pub fn try_cuint(v: usize) -> (r: Result<u32, i32>)
    ensures
        r is Ok <==> fits_u32(v),
        r is Ok ==> r == Ok::<u32, i32>(v as u32),
        r is Err ==> r == Err::<u32, i32>(EINVAL),
{
    if v <= 0xffff_ffff {
        Ok(v as u32)
    } else {
        Err(EINVAL)
    }
}

/// What one dispatcher step produced: a final answer, or a request staged in
/// the block that the host must service before [`SyscallHandler::syscall_resume`].
#[derive(Clone, Copy, Debug, PartialEq, Eq)]
pub enum SyscallStep {
    /// The syscall was answered locally; the registers are final.
    Done(Result<[u64; 2], i32>),
    /// This request now stands in the block; proxy it to the host.
    Proxy(Request),
}

/// What a resumed syscall produced: registers for the payload, or proof that
/// the host broke the reply contract, upon which the Keep must terminate.
#[derive(Clone, Copy, Debug, PartialEq, Eq)]
pub enum SyscallFinish {
    /// The registers to hand back to the payload.
    Ready(Result<[u64; 2], i32>),
    /// The reply was out of contract: the Keep is under attack.
    Attacked,
}

/// How the reply to the request in flight must be treated.
#[derive(Clone, Copy, Debug, PartialEq, Eq, Structural)]
pub enum PendingKind {
    /// Scalar arguments only; nothing to copy back.
    Bare,
    /// A `write`: the host may report at most `staged` bytes written.
    Write {
        /// Bytes staged in the data area.
        staged: usize,
    },
    /// A `read`: up to `staged` bytes arrive at block offset `off` and go
    /// back to payload index `idx`.
    Read {
        /// Offset of the landing area in the block.
        off: usize,
        /// Payload index the bytes go back to.
        idx: usize,
        /// Bytes the host may deliver at most.
        staged: usize,
    },
    /// An attestation request: up to `staged` report bytes arrive at block
    /// offset `off` and go back to payload index `idx`.
    GetAtt {
        /// Offset of the report area in the block.
        off: usize,
        /// Payload index the report goes back to.
        idx: usize,
        /// Bytes the host may deliver at most.
        staged: usize,
    },
}

/// The request in flight between [`SyscallHandler::syscall`] and
/// [`SyscallHandler::syscall_resume`].
#[derive(Clone, Copy, Debug, PartialEq, Eq, Structural)]
pub struct PendingCall {
    /// The syscall number of the request.
    pub num: usize,
    /// The payload's third argument, preserved as the second return register
    /// of a Linux syscall.
    pub rdx: usize,
    /// How the reply must be treated.
    pub kind: PendingKind,
}

/// The shim's syscall handler: the shared block, the Keep's private memory
/// map, and the payload-visible memory the shim may read and write on the
/// payload's behalf.
#[derive(Debug)]
pub struct SyscallHandler {
    /// The block shared with the host.
    pub block: Block,
    /// The Keep's private memory map.
    pub map: MemoryMap,
    /// Address of the first byte of payload-visible memory.
    pub payload_base: usize,
    /// The payload-visible memory.
    pub payload: Vec<u8>,
    /// The request in flight, if any.
    pub pending: Option<PendingCall>,
}

impl SyscallHandler {
    /// A handler is well formed when its block is, the block is shared (it
    /// lies outside the Keep's private map), payload memory does not wrap,
    /// and any pending copy-back targets lie in range.
    pub open spec fn wf(self) -> bool {
        &&& self.block.wf()
        &&& self.map.disjoint_from(self.block.base as int, BLOCK_SIZE as int)
        &&& self.payload_base + self.payload@.len() <= usize::MAX
        &&& match self.pending {
            Some(p) => match p.kind {
                PendingKind::Bare => true,
                PendingKind::Write { staged } => staged <= BLOCK_DATA_CAPACITY,
                PendingKind::Read { off, idx, staged } => off + staged <= BLOCK_DATA_CAPACITY
                    && idx + staged <= self.payload@.len(),
                PendingKind::GetAtt { off, idx, staged } => off + staged <= BLOCK_DATA_CAPACITY
                    && idx + staged <= self.payload@.len(),
            },
            None => true,
        }
    }

    /// The parts of the handler a syscall never changes: where the block and
    /// the payload live, and the private map.
    pub open spec fn same_env(self, other: SyscallHandler) -> bool {
        &&& self.block.base == other.block.base
        &&& self.map == other.map
        &&& self.payload_base == other.payload_base
    }

    /// Whether `[ptr, ptr + len)` is payload memory the shim may touch: it
    /// passes validation against the private map and lies inside the
    /// payload-visible range.
    pub open spec fn payload_range_ok(self, ptr: usize, len: usize) -> bool {
        &&& self.map.disjoint_from(ptr as int, len as int)
        &&& self.payload_base <= ptr
        &&& ptr + len <= self.payload_base + self.payload@.len()
    }

    /// Validate a payload pointer and turn it into an index into payload
    /// memory.  Fails with `EFAULT` exactly when the range is not payload
    /// memory the shim may touch.
    fn locate_payload(&self, ptr: usize, len: usize) -> (r: Result<usize, i32>)
        requires
            self.wf(),
        ensures
            r is Ok <==> self.payload_range_ok(ptr, len),
            r is Ok ==> r == Ok::<usize, i32>((ptr - self.payload_base) as usize),
            r is Err ==> r == Err::<usize, i32>(EFAULT),
    {
        if self.map.validate(UntrustedRef { ptr, count: len }).is_none() {
            return Err(EFAULT);
        }
        if ptr < self.payload_base {
            return Err(EFAULT);
        }
        let idx = ptr - self.payload_base;
        if len > self.payload.len() || idx > self.payload.len() - len {
            return Err(EFAULT);
        }
        Ok(idx)
    }
}

/// The smaller of two sizes.
pub open spec fn min_usize(a: usize, b: usize) -> usize {
    if a < b {
        a
    } else {
        b
    }
}

/// Identity syscalls, answered locally with the fake identity.
pub open spec fn is_identity(nr: usize) -> bool {
    ||| nr == SYS_GETPID
    ||| nr == SYS_GETUID
    ||| nr == SYS_GETGID
    ||| nr == SYS_GETEUID
    ||| nr == SYS_GETEGID
}

/// Syscalls whose arguments are scalars: the request forwards the argument
/// registers unchanged.
pub open spec fn is_scalar_proxied(nr: usize) -> bool {
    ||| nr == SYS_CLOSE
    ||| nr == SYS_SOCKET
    ||| nr == SYS_LISTEN
    ||| nr == SYS_DUP
    ||| nr == SYS_DUP2
    ||| nr == SYS_DUP3
    ||| nr == SYS_EVENTFD2
    ||| nr == SYS_EPOLL_CREATE1
    ||| nr == SYS_EXIT
    ||| nr == SYS_EXIT_GROUP
}

/// Syscalls the dispatcher recognizes and coerces but whose buffer
/// marshalling this shim does not implement; they answer `ENOSYS`.
pub open spec fn is_unmarshalled(nr: usize) -> bool {
    ||| nr == SYS_BRK
    ||| nr == SYS_MMAP
    ||| nr == SYS_MUNMAP
    ||| nr == SYS_MADVISE
    ||| nr == SYS_MPROTECT
    ||| nr == SYS_ARCH_PRCTL
    ||| nr == SYS_SET_TID_ADDRESS
    ||| nr == SYS_RT_SIGACTION
    ||| nr == SYS_RT_SIGPROCMASK
    ||| nr == SYS_SIGALTSTACK
    ||| nr == SYS_GETRANDOM
    ||| nr == SYS_CLOCK_GETTIME
    ||| nr == SYS_UNAME
    ||| nr == SYS_READV
    ||| nr == SYS_WRITEV
    ||| nr == SYS_IOCTL
    ||| nr == SYS_READLINK
    ||| nr == SYS_FSTAT
    ||| nr == SYS_FCNTL
    ||| nr == SYS_POLL
    ||| nr == SYS_PIPE
    ||| nr == SYS_EPOLL_CTL
    ||| nr == SYS_EPOLL_WAIT
    ||| nr == SYS_EPOLL_PWAIT
    ||| nr == SYS_BIND
    ||| nr == SYS_GETSOCKNAME
    ||| nr == SYS_ACCEPT
    ||| nr == SYS_ACCEPT4
    ||| nr == SYS_CONNECT
    ||| nr == SYS_RECVFROM
    ||| nr == SYS_SENDTO
    ||| nr == SYS_SETSOCKOPT
}

/// All numbers the dispatcher distinguishes from the unknown.
pub open spec fn is_known(nr: usize) -> bool {
    ||| is_identity(nr)
    ||| is_scalar_proxied(nr)
    ||| is_unmarshalled(nr)
    ||| nr == SYS_READ
    ||| nr == SYS_WRITE
    ||| nr == SYS_ENARX_GETATT as usize
}

/// Whether some argument of syscall `nr` fails its narrowing coercion, which
/// the dispatcher answers with `EINVAL`.
pub open spec fn coercion_fails(
    nr: usize,
    a: usize,
    b: usize,
    c: usize,
    d: usize,
    e: usize,
    f: usize,
) -> bool {
    ||| (nr == SYS_MMAP && !(fits_i32(c) && fits_i32(d) && fits_i32(e)))
    ||| (nr == SYS_MADVISE && !fits_i32(c))
    ||| (nr == SYS_MPROTECT && !fits_i32(c))
    ||| (nr == SYS_ARCH_PRCTL && !fits_i32(a))
    ||| (nr == SYS_EXIT && !fits_i32(a))
    ||| (nr == SYS_EXIT_GROUP && !fits_i32(a))
    ||| (nr == SYS_RT_SIGACTION && !fits_i32(a))
    ||| (nr == SYS_RT_SIGPROCMASK && !fits_i32(a))
    ||| (nr == SYS_GETRANDOM && !fits_u32(c))
    ||| (nr == SYS_CLOCK_GETTIME && !fits_i32(a))
    ||| (nr == SYS_CLOSE && !fits_i32(a))
    ||| (nr == SYS_READ && !fits_i32(a))
    ||| (nr == SYS_READV && !(fits_i32(a) && fits_i32(c)))
    ||| (nr == SYS_WRITE && !fits_i32(a))
    ||| (nr == SYS_WRITEV && !(fits_i32(a) && fits_i32(c)))
    ||| (nr == SYS_IOCTL && !fits_i32(a))
    ||| (nr == SYS_FSTAT && !fits_i32(a))
    ||| (nr == SYS_FCNTL && !(fits_i32(a) && fits_i32(b) && fits_i32(c)))
    ||| (nr == SYS_POLL && !fits_i32(c))
    ||| (nr == SYS_EPOLL_CREATE1 && !fits_i32(a))
    ||| (nr == SYS_EPOLL_CTL && !(fits_i32(a) && fits_i32(b) && fits_i32(c)))
    ||| (nr == SYS_EPOLL_WAIT && !(fits_i32(a) && fits_i32(c) && fits_i32(d)))
    ||| (nr == SYS_EPOLL_PWAIT && !(fits_i32(a) && fits_i32(c) && fits_i32(d)))
    ||| (nr == SYS_SOCKET && !(fits_i32(a) && fits_i32(b) && fits_i32(c)))
    ||| (nr == SYS_BIND && !fits_i32(a))
    ||| (nr == SYS_LISTEN && !(fits_i32(a) && fits_i32(b)))
    ||| (nr == SYS_GETSOCKNAME && !fits_i32(a))
    ||| (nr == SYS_ACCEPT && !fits_i32(a))
    ||| (nr == SYS_ACCEPT4 && !(fits_i32(a) && fits_i32(d)))
    ||| (nr == SYS_CONNECT && !fits_i32(a))
    ||| (nr == SYS_RECVFROM && !(fits_i32(a) && fits_i32(d)))
    ||| (nr == SYS_SENDTO && !(fits_i32(a) && fits_i32(d)))
    ||| (nr == SYS_SETSOCKOPT && !(fits_i32(a) && fits_i32(b) && fits_i32(c) && fits_u32(e)))
}

/// `r` answers the syscall locally with error `e`.
pub open spec fn done_err(r: SyscallStep, e: i32) -> bool {
    r matches SyscallStep::Done(res) && res == Err::<[u64; 2], i32>(e)
}

/// What a `write` call did to the handler: an `EFAULT` answer on a bad
/// buffer, else up to a block's worth of the buffer staged at the start of
/// the data area and a request for the host.
pub open spec fn write_post(
    pre: SyscallHandler,
    post: SyscallHandler,
    r: SyscallStep,
    fd: usize,
    buf: usize,
    count: usize,
) -> bool {
    &&& (!pre.payload_range_ok(buf, count) ==> done_err(r, EFAULT) && post == pre)
    &&& (pre.payload_range_ok(buf, count) ==> ({
        let staged = min_usize(count, BLOCK_DATA_CAPACITY);
        let idx = buf - pre.payload_base;
        &&& r matches SyscallStep::Proxy(q)
        &&& q.num == SYS_WRITE as u64
        &&& q.arg@ =~= seq![
            fd as u64,
            (pre.block.base + MSG_SIZE) as u64,
            staged as u64,
            0u64,
            0u64,
            0u64,
            0u64,
        ]
        &&& post.block.msg == Message::Req(q)
        &&& forall|j: int| 0 <= j < staged ==> post.block.data@[j] == pre.payload@[idx + j]
        &&& post.pending == Some(PendingCall {
            num: SYS_WRITE,
            rdx: count,
            kind: PendingKind::Write { staged },
        })
        &&& post.payload == pre.payload
    }))
}

/// What a `read` call did to the handler: an `EFAULT` answer on a bad
/// buffer, else a landing area reserved at the start of the data area and a
/// request for the host.
pub open spec fn read_post(
    pre: SyscallHandler,
    post: SyscallHandler,
    r: SyscallStep,
    fd: usize,
    buf: usize,
    count: usize,
) -> bool {
    &&& (!pre.payload_range_ok(buf, count) ==> done_err(r, EFAULT) && post == pre)
    &&& (pre.payload_range_ok(buf, count) ==> ({
        let staged = min_usize(count, BLOCK_DATA_CAPACITY);
        let idx = buf - pre.payload_base;
        &&& r matches SyscallStep::Proxy(q)
        &&& q.num == SYS_READ as u64
        &&& q.arg@ =~= seq![
            fd as u64,
            (pre.block.base + MSG_SIZE) as u64,
            staged as u64,
            0u64,
            0u64,
            0u64,
            0u64,
        ]
        &&& post.block.msg == Message::Req(q)
        &&& post.block.data@ == pre.block.data@
        &&& post.pending == Some(PendingCall {
            num: SYS_READ,
            rdx: count,
            kind: PendingKind::Read { off: 0, idx: idx as usize, staged },
        })
        &&& post.payload == pre.payload
    }))
}

/// What a `get_attestation` call did to the handler: `EFAULT` on a bad nonce
/// or report buffer, `ENOBUFS` when the nonce cannot be staged, else the
/// nonce staged at the start of the data area, a report landing area behind
/// it, and a request for the host.
pub open spec fn getatt_post(
    pre: SyscallHandler,
    post: SyscallHandler,
    r: SyscallStep,
    nonce: usize,
    nonce_len: usize,
    buf: usize,
    buf_len: usize,
) -> bool {
    let nonce_ok = pre.payload_range_ok(nonce, nonce_len);
    let buf_ok = pre.payload_range_ok(buf, buf_len);
    &&& (!(nonce_ok && buf_ok) ==> done_err(r, EFAULT) && post == pre)
    &&& (nonce_ok && buf_ok && nonce_len > BLOCK_DATA_CAPACITY ==> done_err(r, ENOBUFS) && post
        == pre)
    &&& (nonce_ok && buf_ok && nonce_len <= BLOCK_DATA_CAPACITY ==> ({
        let nidx = nonce - pre.payload_base;
        let bidx = buf - pre.payload_base;
        let staged = min_usize(buf_len, (BLOCK_DATA_CAPACITY - nonce_len) as usize);
        &&& r matches SyscallStep::Proxy(q)
        &&& q.num == SYS_ENARX_GETATT
        &&& q.arg@ =~= seq![
            (pre.block.base + MSG_SIZE) as u64,
            nonce_len as u64,
            (pre.block.base + MSG_SIZE + nonce_len) as u64,
            staged as u64,
            0u64,
            0u64,
            0u64,
        ]
        &&& post.block.msg == Message::Req(q)
        &&& forall|j: int| 0 <= j < nonce_len ==> post.block.data@[j] == pre.payload@[nidx + j]
        &&& post.pending == Some(PendingCall {
            num: SYS_ENARX_GETATT as usize,
            rdx: buf,
            kind: PendingKind::GetAtt { off: nonce_len, idx: bidx as usize, staged },
        })
        &&& post.payload == pre.payload
    }))
}

impl SyscallHandler {
    /// `write(2)`: stage up to a block's worth of the payload's buffer in
    /// the data area and ask the host to write it.  A partial staging yields
    /// a partial write, which the payload handles as it would any other.
    pub fn write(&mut self, fd: usize, buf: usize, count: usize) -> (r: SyscallStep)
        requires
            old(self).wf(),
            old(self).pending is None,
        ensures
            final(self).wf(),
            old(self).same_env(*final(self)),
            write_post(*old(self), *final(self), r, fd, buf, count),
            match r {
                SyscallStep::Done(res) => match res {
                    Err(err) => err > 0,
                    Ok(_) => true,
                },
                SyscallStep::Proxy(_) => true,
            },
    {
        let idx = match self.locate_payload(buf, count) {
            Ok(i) => i,
            Err(e) => {
                return SyscallStep::Done(Err(e));
            },
        };
        let staged = if count < BLOCK_DATA_CAPACITY {
            count
        } else {
            BLOCK_DATA_CAPACITY
        };
        let src = vstd::slice::slice_subrange(self.payload.as_slice(), idx, idx + staged);
        let cur = self.block.cursor();
        let (_, stage) = match self.block.copy_from_slice(cur, src) {
            Ok(v) => v,
            Err(_) => {
                return SyscallStep::Done(Err(ENOBUFS));
            },
        };
        proof {
            assert forall|j: int| 0 <= j < staged implies self.block.data@[j] == old(self).payload@[idx + j] by {
                assert(self.block.data@[j] == src@[j - 0]);
                assert(src@[j - 0] == old(self).payload@[idx + (j - 0)]);
            }
        }
        let q = Request::new(SYS_WRITE as u64, fd as u64, stage.ptr as u64, staged as u64, 0, 0, 0);
        self.block.msg = Message::Req(q);
        self.pending = Some(PendingCall {
            num: SYS_WRITE,
            rdx: count,
            kind: PendingKind::Write { staged },
        });
        SyscallStep::Proxy(q)
    }

    /// `read(2)`: reserve up to a block's worth of landing area and ask the
    /// host to read into it; the reply's bytes go back to the payload's
    /// buffer in [`SyscallHandler::syscall_resume`].
    pub fn read(&mut self, fd: usize, buf: usize, count: usize) -> (r: SyscallStep)
        requires
            old(self).wf(),
            old(self).pending is None,
        ensures
            final(self).wf(),
            old(self).same_env(*final(self)),
            read_post(*old(self), *final(self), r, fd, buf, count),
            match r {
                SyscallStep::Done(res) => match res {
                    Err(err) => err > 0,
                    Ok(_) => true,
                },
                SyscallStep::Proxy(_) => true,
            },
    {
        let idx = match self.locate_payload(buf, count) {
            Ok(i) => i,
            Err(e) => {
                return SyscallStep::Done(Err(e));
            },
        };
        let staged = if count < BLOCK_DATA_CAPACITY {
            count
        } else {
            BLOCK_DATA_CAPACITY
        };
        let q = Request::new(
            SYS_READ as u64,
            fd as u64,
            (self.block.base + MSG_SIZE) as u64,
            staged as u64,
            0,
            0,
            0,
        );
        self.block.msg = Message::Req(q);
        self.pending = Some(PendingCall {
            num: SYS_READ,
            rdx: count,
            kind: PendingKind::Read { off: 0, idx, staged },
        });
        SyscallStep::Proxy(q)
    }

    /// Retrieve an attestation report: stage the nonce, reserve a landing
    /// area for the report, and ask the host for it.  The reply carries the
    /// report's length.
    pub fn get_attestation(
        &mut self,
        nonce: usize,
        nonce_len: usize,
        buf: usize,
        buf_len: usize,
    ) -> (r: SyscallStep)
        requires
            old(self).wf(),
            old(self).pending is None,
        ensures
            final(self).wf(),
            old(self).same_env(*final(self)),
            getatt_post(*old(self), *final(self), r, nonce, nonce_len, buf, buf_len),
            match r {
                SyscallStep::Done(res) => match res {
                    Err(err) => err > 0,
                    Ok(_) => true,
                },
                SyscallStep::Proxy(_) => true,
            },
    {
        let nidx = match self.locate_payload(nonce, nonce_len) {
            Ok(i) => i,
            Err(e) => {
                return SyscallStep::Done(Err(e));
            },
        };
        let bidx = match self.locate_payload(buf, buf_len) {
            Ok(i) => i,
            Err(e) => {
                return SyscallStep::Done(Err(e));
            },
        };
        if nonce_len > BLOCK_DATA_CAPACITY {
            return SyscallStep::Done(Err(ENOBUFS));
        }
        let src = vstd::slice::slice_subrange(self.payload.as_slice(), nidx, nidx + nonce_len);
        let cur = self.block.cursor();
        let (after_nonce, nstage) = match self.block.copy_from_slice(cur, src) {
            Ok(v) => v,
            Err(_) => {
                return SyscallStep::Done(Err(ENOBUFS));
            },
        };
        proof {
            assert forall|j: int| 0 <= j < nonce_len implies self.block.data@[j] == old(self).payload@[nidx + j] by {
                assert(self.block.data@[j] == src@[j - 0]);
                assert(src@[j - 0] == old(self).payload@[nidx + (j - 0)]);
            }
        }
        let staged = if buf_len < BLOCK_DATA_CAPACITY - nonce_len {
            buf_len
        } else {
            BLOCK_DATA_CAPACITY - nonce_len
        };
        let q = Request::new(
            SYS_ENARX_GETATT,
            nstage.ptr as u64,
            nonce_len as u64,
            (self.block.base + MSG_SIZE + nonce_len) as u64,
            staged as u64,
            0,
            0,
        );
        self.block.msg = Message::Req(q);
        self.pending = Some(PendingCall {
            num: 0xEA01,
            rdx: buf,
            kind: PendingKind::GetAtt { off: nonce_len, idx: bidx, staged },
        });
        SyscallStep::Proxy(q)
    }
}

/// What proxying a scalar-argument syscall did: the request forwards the six
/// argument registers unchanged, and nothing is staged.
pub open spec fn scalar_proxy_post(
    pre: SyscallHandler,
    post: SyscallHandler,
    r: SyscallStep,
    nr: usize,
    a: usize,
    b: usize,
    c: usize,
    d: usize,
    e: usize,
    f: usize,
) -> bool {
    &&& r matches SyscallStep::Proxy(q)
    &&& q.num == nr as u64
    &&& q.arg@ =~= seq![a as u64, b as u64, c as u64, d as u64, e as u64, f as u64, 0u64]
    &&& post.block.msg == Message::Req(q)
    &&& post.block.data@ == pre.block.data@
    &&& post.pending == Some(PendingCall { num: nr, rdx: c, kind: PendingKind::Bare })
    &&& post.payload == pre.payload
}

/// `r` carries these two return registers to the payload.
pub open spec fn ready_ok(r: SyscallFinish, r0: u64, r1: u64) -> bool {
    r matches SyscallFinish::Ready(res) && res matches Ok(v) && v@[0] == r0 && v@[1] == r1
}

impl SyscallHandler {
    /// Proxy a syscall whose arguments are all scalars: forward the argument
    /// registers in a request, staging nothing.
    pub(crate) fn proxy_scalar(
        &mut self,
        nr: usize,
        a: usize,
        b: usize,
        c: usize,
        d: usize,
        e: usize,
        f: usize,
    ) -> (r: SyscallStep)
        requires
            old(self).wf(),
            old(self).pending is None,
        ensures
            final(self).wf(),
            old(self).same_env(*final(self)),
            scalar_proxy_post(*old(self), *final(self), r, nr, a, b, c, d, e, f),
    {
        let q = Request::new(nr as u64, a as u64, b as u64, c as u64, d as u64, e as u64, f as u64);
        self.block.msg = Message::Req(q);
        self.pending = Some(PendingCall { num: nr, rdx: c, kind: PendingKind::Bare });
        SyscallStep::Proxy(q)
    }

    /// Copy `count` bytes from block offset `off` back into payload memory
    /// at index `idx`; the rest of the payload is untouched.
    fn copy_back(&mut self, off: usize, idx: usize, count: usize)
        requires
            old(self).wf(),
            off + count <= BLOCK_DATA_CAPACITY,
            idx + count <= old(self).payload@.len(),
        ensures
            final(self).wf(),
            old(self).same_env(*final(self)),
            final(self).block == old(self).block,
            final(self).pending == old(self).pending,
            final(self).payload@.len() == old(self).payload@.len(),
            forall|t: int|
                idx <= t < idx + count ==> #[trigger] final(self).payload@[t] == old(self).block.data@[off + (t - idx)],
            forall|t: int|
                0 <= t < old(self).payload@.len() && !(idx <= t < idx + count)
                    ==> final(self).payload@[t] == old(self).payload@[t],
    {
        let data = self.block.read_data(off, count);
        let mut k: usize = 0;
        while k < count
            invariant
                k <= count,
                off + count <= BLOCK_DATA_CAPACITY,
                idx + count <= old(self).payload@.len(),
                self.wf(),
                self.block == old(self).block,
                self.map == old(self).map,
                self.payload_base == old(self).payload_base,
                self.pending == old(self).pending,
                self.payload@.len() == old(self).payload@.len(),
                data@.len() == count,
                data@ == old(self).block.data@.subrange(off as int, off + count),
                forall|t: int|
                    idx <= t < idx + k ==> #[trigger] self.payload@[t] == old(self).block.data@[off + (t - idx)],
                forall|t: int|
                    0 <= t < old(self).payload@.len() && !(idx <= t < idx + k)
                        ==> self.payload@[t] == old(self).payload@[t],
            decreases count - k,
        {
            let byte = data[k];
            let ghost prev = self.payload@;
            self.payload[idx + k] = byte;
            proof {
                assert(byte == old(self).block.data@[off + k]);
                assert forall|t: int|
                    idx <= t < idx + k + 1 implies #[trigger] self.payload@[t] == old(self).block.data@[off + (t - idx)] by {
                    if t == idx + k {
                        assert(self.payload@[t] == byte);
                    } else {
                        assert(self.payload@[t] == prev[t]);
                    }
                }
            }
            k += 1;
        }
    }

    /// Resume the syscall whose request is in flight, with the host's reply.
    ///
    /// The reply is held to what was asked: a `write` may not report more
    /// bytes written than were staged, and a `read` or an attestation may
    /// not deliver more bytes than its landing area holds — a violation is
    /// an attack, upon which the Keep must terminate.  Delivered bytes are
    /// copied back to the payload's buffer.  For a Linux syscall the second
    /// return register is the preserved third argument; an internal request
    /// keeps the host's second return value.
    pub fn syscall_resume(&mut self, reply: Reply) -> (r: SyscallFinish)
        requires
            old(self).wf(),
            old(self).pending is Some,
        ensures
            final(self).wf(),
            old(self).same_env(*final(self)),
            final(self).pending is None,
            final(self).block == old(self).block,
            // A Linux syscall preserves the payload's third argument in the
            // second return register, whatever the host replied.
            ({
                let p = old(self).pending->Some_0;
                forall|v: [u64; 2]|
                    r == SyscallFinish::Ready(Ok::<[u64; 2], i32>(v)) && p.num < SYS_ENARX_BASE
                        as usize ==> #[trigger] v@[1] == p.rdx as u64
            }),
            ({
                let p = old(self).pending->Some_0;
                let r1_of = |v: Seq<u64>| if p.num < SYS_ENARX_BASE as usize {
                    p.rdx as u64
                } else {
                    v[1]
                };
                match reply.spec_result() {
                    Err(err) => r == SyscallFinish::Ready(Err::<[u64; 2], i32>(err)) && final(self).payload == old(self).payload,
                    Ok(v) => match p.kind {
                        PendingKind::Bare => final(self).payload == old(self).payload && ready_ok(
                            r,
                            v@[0],
                            r1_of(v@),
                        ),
                        PendingKind::Write { staged } => final(self).payload == old(self).payload
                            && (if v@[0] > staged as u64 {
                            r == SyscallFinish::Attacked
                        } else {
                            ready_ok(r, v@[0], r1_of(v@))
                        }),
                        PendingKind::Read { off, idx, staged } => if v@[0] > staged as u64 {
                            r == SyscallFinish::Attacked && final(self).payload == old(self).payload
                        } else {
                            &&& ready_ok(r, v@[0], r1_of(v@))
                            &&& final(self).payload@.len() == old(self).payload@.len()
                            &&& forall|t: int|
                                idx <= t < idx + v@[0] ==> #[trigger] final(self).payload@[t]
                                    == old(self).block.data@[off + (t - idx)]
                            &&& forall|t: int|
                                0 <= t < old(self).payload@.len() && !(idx <= t < idx + v@[0])
                                    ==> final(self).payload@[t] == old(self).payload@[t]
                        },
                        PendingKind::GetAtt { off, idx, staged } => if v@[0] > staged as u64 {
                            r == SyscallFinish::Attacked && final(self).payload == old(self).payload
                        } else {
                            &&& ready_ok(r, v@[0], r1_of(v@))
                            &&& final(self).payload@.len() == old(self).payload@.len()
                            &&& forall|t: int|
                                idx <= t < idx + v@[0] ==> #[trigger] final(self).payload@[t]
                                    == old(self).block.data@[off + (t - idx)]
                            &&& forall|t: int|
                                0 <= t < old(self).payload@.len() && !(idx <= t < idx + v@[0])
                                    ==> final(self).payload@[t] == old(self).payload@[t]
                        },
                    },
                }
            }),
    {
        let p = self.pending.unwrap();
        self.pending = None;
        let vv = match reply.result() {
            Err(err) => {
                return SyscallFinish::Ready(Err(err));
            },
            Ok(v) => v,
        };
        let n = vv[0];
        let r1 = if p.num < 0xEA00 {
            p.rdx as u64
        } else {
            vv[1]
        };
        match p.kind {
            PendingKind::Bare => SyscallFinish::Ready(Ok([n, r1])),
            PendingKind::Write { staged } => {
                if n > staged as u64 {
                    SyscallFinish::Attacked
                } else {
                    SyscallFinish::Ready(Ok([n, r1]))
                }
            },
            PendingKind::Read { off, idx, staged } => {
                if n > staged as u64 {
                    SyscallFinish::Attacked
                } else {
                    self.copy_back(off, idx, n as usize);
                    SyscallFinish::Ready(Ok([n, r1]))
                }
            },
            PendingKind::GetAtt { off, idx, staged } => {
                if n > staged as u64 {
                    SyscallFinish::Attacked
                } else {
                    self.copy_back(off, idx, n as usize);
                    SyscallFinish::Ready(Ok([n, r1]))
                }
            },
        }
    }

    /// The shim's syscall entry: dispatch on the number, exactly as the trap
    /// handler delivered the argument registers.
    ///
    /// Identity syscalls answer locally with the fake identity; a narrowing
    /// coercion that fails answers `EINVAL`; recognized numbers whose buffer
    /// marshalling this shim does not implement, and unknown numbers, answer
    /// `ENOSYS`; the rest stage a request for the host.
    pub fn syscall(
        &mut self,
        a: usize,
        b: usize,
        c: usize,
        d: usize,
        e: usize,
        f: usize,
        nr: usize,
    ) -> (r: SyscallStep)
        requires
            old(self).wf(),
            old(self).pending is None,
        ensures
            final(self).wf(),
            old(self).same_env(*final(self)),
            r is Done ==> *final(self) == *old(self),
            r is Proxy ==> final(self).pending is Some,
            match r {
                SyscallStep::Done(res) => match res {
                    Err(err) => err > 0,
                    // Only the identity syscalls succeed without the host.
                    Ok(v) => is_identity(nr) && v@[0] == 1000 && v@[1] == c as u64,
                },
                SyscallStep::Proxy(_) => true,
            },
            is_identity(nr) ==> (r matches SyscallStep::Done(res) && res matches Ok(v) && v@[0]
                == 1000 && v@[1] == c as u64),
            coercion_fails(nr, a, b, c, d, e, f) ==> done_err(r, EINVAL),
            !coercion_fails(nr, a, b, c, d, e, f) && is_unmarshalled(nr) ==> done_err(r, ENOSYS),
            !is_known(nr) ==> done_err(r, ENOSYS),
            !coercion_fails(nr, a, b, c, d, e, f) && is_scalar_proxied(nr) ==> scalar_proxy_post(
                *old(self),
                *final(self),
                r,
                nr,
                a,
                b,
                c,
                d,
                e,
                f,
            ),
            nr == SYS_WRITE && fits_i32(a) ==> write_post(*old(self), *final(self), r, a, b, c),
            nr == SYS_READ && fits_i32(a) ==> read_post(*old(self), *final(self), r, a, b, c),
            nr == SYS_ENARX_GETATT as usize ==> getatt_post(
                *old(self),
                *final(self),
                r,
                a,
                b,
                c,
                d,
            ),
    {
        if nr == SYS_BRK || nr == SYS_MUNMAP || nr == SYS_SIGALTSTACK || nr == SYS_SET_TID_ADDRESS
            || nr == SYS_UNAME || nr == SYS_READLINK || nr == SYS_PIPE {
            SyscallStep::Done(Err(ENOSYS))
        } else if nr == SYS_MMAP {
            if try_cint(c).is_err() || try_cint(d).is_err() || try_cint(e).is_err() {
                SyscallStep::Done(Err(EINVAL))
            } else {
                SyscallStep::Done(Err(ENOSYS))
            }
        } else if nr == SYS_MADVISE || nr == SYS_MPROTECT || nr == SYS_POLL {
            if try_cint(c).is_err() {
                SyscallStep::Done(Err(EINVAL))
            } else {
                SyscallStep::Done(Err(ENOSYS))
            }
        } else if nr == SYS_ARCH_PRCTL || nr == SYS_RT_SIGACTION || nr == SYS_RT_SIGPROCMASK
            || nr == SYS_CLOCK_GETTIME || nr == SYS_IOCTL || nr == SYS_FSTAT || nr == SYS_BIND
            || nr == SYS_GETSOCKNAME || nr == SYS_ACCEPT || nr == SYS_CONNECT {
            if try_cint(a).is_err() {
                SyscallStep::Done(Err(EINVAL))
            } else {
                SyscallStep::Done(Err(ENOSYS))
            }
        } else if nr == SYS_GETRANDOM {
            if try_cuint(c).is_err() {
                SyscallStep::Done(Err(EINVAL))
            } else {
                SyscallStep::Done(Err(ENOSYS))
            }
        } else if nr == SYS_READV || nr == SYS_WRITEV {
            if try_cint(a).is_err() || try_cint(c).is_err() {
                SyscallStep::Done(Err(EINVAL))
            } else {
                SyscallStep::Done(Err(ENOSYS))
            }
        } else if nr == SYS_FCNTL || nr == SYS_EPOLL_CTL {
            if try_cint(a).is_err() || try_cint(b).is_err() || try_cint(c).is_err() {
                SyscallStep::Done(Err(EINVAL))
            } else {
                SyscallStep::Done(Err(ENOSYS))
            }
        } else if nr == SYS_EPOLL_WAIT || nr == SYS_EPOLL_PWAIT {
            if try_cint(a).is_err() || try_cint(c).is_err() || try_cint(d).is_err() {
                SyscallStep::Done(Err(EINVAL))
            } else {
                SyscallStep::Done(Err(ENOSYS))
            }
        } else if nr == SYS_ACCEPT4 || nr == SYS_RECVFROM || nr == SYS_SENDTO {
            if try_cint(a).is_err() || try_cint(d).is_err() {
                SyscallStep::Done(Err(EINVAL))
            } else {
                SyscallStep::Done(Err(ENOSYS))
            }
        } else if nr == SYS_SETSOCKOPT {
            if try_cint(a).is_err() || try_cint(b).is_err() || try_cint(c).is_err() || try_cuint(
                e,
            ).is_err() {
                SyscallStep::Done(Err(EINVAL))
            } else {
                SyscallStep::Done(Err(ENOSYS))
            }
        } else if nr == SYS_GETPID || nr == SYS_GETUID || nr == SYS_GETGID || nr == SYS_GETEUID
            || nr == SYS_GETEGID {
            SyscallStep::Done(Ok([FAKE_PID as u64, c as u64]))
        } else if nr == SYS_CLOSE || nr == SYS_EXIT || nr == SYS_EXIT_GROUP
            || nr == SYS_EPOLL_CREATE1 {
            if try_cint(a).is_err() {
                SyscallStep::Done(Err(EINVAL))
            } else {
                self.proxy_scalar(nr, a, b, c, d, e, f)
            }
        } else if nr == SYS_SOCKET {
            if try_cint(a).is_err() || try_cint(b).is_err() || try_cint(c).is_err() {
                SyscallStep::Done(Err(EINVAL))
            } else {
                self.proxy_scalar(nr, a, b, c, d, e, f)
            }
        } else if nr == SYS_LISTEN {
            if try_cint(a).is_err() || try_cint(b).is_err() {
                SyscallStep::Done(Err(EINVAL))
            } else {
                self.proxy_scalar(nr, a, b, c, d, e, f)
            }
        } else if nr == SYS_DUP || nr == SYS_DUP2 || nr == SYS_DUP3 || nr == SYS_EVENTFD2 {
            self.proxy_scalar(nr, a, b, c, d, e, f)
        } else if nr == SYS_WRITE {
            if try_cint(a).is_err() {
                SyscallStep::Done(Err(EINVAL))
            } else {
                self.write(a, b, c)
            }
        } else if nr == SYS_READ {
            if try_cint(a).is_err() {
                SyscallStep::Done(Err(EINVAL))
            } else {
                self.read(a, b, c)
            }
        } else if nr == 0xEA01 {
            self.get_attestation(a, b, c, d)
        } else {
            SyscallStep::Done(Err(ENOSYS))
        }
    }
}

} // verus!
