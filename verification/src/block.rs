//! The shared syscall block.
//!
//! A `Block` is one page of memory shared between the shim inside the Keep
//! and the untrusted host.  Its first 64 bytes carry one message — a syscall
//! [`Request`] written by the shim or a [`Reply`] written by the host — and
//! the rest is a data area in which the shim stages buffers for the host,
//! allocated upward by a monotone [`Cursor`].
//!
//! The phase of the protocol (request or reply) is implied by who wrote the
//! message last; [`Message`] records it explicitly.

use vstd::prelude::*;

use crate::bootinfo::PAGE_SIZE;

verus! {

/// Size of one block: a whole page.
pub const BLOCK_SIZE: usize = 4096;

/// Bytes reserved at the start of a block for the message.
pub const MSG_SIZE: usize = 64;

/// Bytes available in a block's data area.
pub const BLOCK_DATA_CAPACITY: usize = 4032;

/// First request number reserved for internal (non-Linux) requests.
pub const SYS_ENARX_BASE: u64 = 0xEA00;

/// Retrieve an attestation report: `(nonce, nonce_len, buf, buf_len)`.
pub const SYS_ENARX_GETATT: u64 = 0xEA01;

/// Execute `cpuid` on the host: `(leaf, subleaf)`.
pub const SYS_ENARX_CPUID: u64 = 0xEA02;

/// The shim handled the syscall internally; resume the payload.
pub const SYS_ENARX_ERESUME: u64 = 0xEA03;

/// Write the host's memory-slot list into the block's data area.
pub const SYS_ENARX_MEM_INFO: u64 = 0xEA04;

/// Map more memory into the Keep: `(pow2, npages, guest_phys_addr)`.
pub const SYS_ENARX_BALLOON_MEMORY: u64 = 0xEA05;

/// The negation of an error word; `i32::MIN`, which has no negation, is
/// left in place (such a word can only come from a malformed reply).
pub open spec fn neg_errno(e: i32) -> i32 {
    if e == i32::MIN {
        e
    } else {
        (0 - e) as i32
    }
}

/// A syscall request: the number and up to seven arguments, enough for the
/// Linux x86-64 ABI (six arguments plus the number) with one to spare.
#[derive(Clone, Copy, Debug, PartialEq, Eq)]
pub struct Request {
    /// The syscall number.
    pub num: u64,
    /// The syscall arguments.
    pub arg: [u64; 7],
}

impl Request {
    /// Build a request from a number and six arguments.
    pub fn new(num: u64, a: u64, b: u64, c: u64, d: u64, e: u64, f: u64) -> (r: Request)
        ensures
            r.num == num,
            r.arg@ == seq![a, b, c, d, e, f, 0u64],
    {
        let arg = [a, b, c, d, e, f, 0];
        assert(arg@ =~= seq![a, b, c, d, e, f, 0u64]);
        Request { num, arg }
    }
}

/// A syscall reply: two return registers and an error word.  `err` is zero
/// on success and a negated POSIX errno on failure.
#[derive(Clone, Copy, Debug, PartialEq, Eq)]
pub struct Reply {
    /// Return values (`rax` and, for Linux syscalls, the preserved `rdx`).
    pub ret: [u64; 2],
    /// Zero on success; a negated POSIX errno on failure.
    pub err: i32,
}

impl Reply {
    /// The reply as the result the handler produced: `Ok` with the two
    /// return values, or `Err` with the positive errno.
    pub open spec fn spec_result(self) -> Result<[u64; 2], i32> {
        if self.err == 0 {
            Ok(self.ret)
        } else {
            Err(neg_errno(self.err))
        }
    }

    /// Encode a handler result as a reply, negating the errno.
    pub fn from_result(res: Result<[u64; 2], i32>) -> (r: Reply)
        requires
            res is Err ==> 0 < res->Err_0,
        ensures
            r.spec_result() == res,
    {
        match res {
            Ok(ret) => Reply { ret, err: 0 },
            Err(e) => Reply { ret: [0, 0], err: -e },
        }
    }

    /// Decode the reply back into the handler result.
    pub fn result(&self) -> (res: Result<[u64; 2], i32>)
        ensures
            res == self.spec_result(),
    {
        if self.err == 0 {
            Ok(self.ret)
        } else if self.err == i32::MIN {
            Err(self.err)
        } else {
            Err(0 - self.err)
        }
    }
}

/// The message at the head of a block.  Exactly one of request and reply is
/// live at a time: the shim writes a request, the host writes a reply.
#[derive(Clone, Copy, Debug, PartialEq, Eq)]
pub enum Message {
    /// A request, written by the shim.
    Req(Request),
    /// A reply, written by the host.
    Rep(Reply),
}

/// A monotone allocator into a block's data area: the offset of the first
/// free byte.
#[derive(Clone, Copy, Debug, PartialEq, Eq, Structural)]
pub struct Cursor {
    /// Offset of the first free byte of the data area.
    pub offset: usize,
}

/// The data area is full: there is no buffer space for the operation.
#[derive(Clone, Copy, Debug, PartialEq, Eq, Structural)]
pub struct OutOfSpace;

/// A handle to a byte range inside the block's data area, readable and
/// writable by the shim but fundamentally untrusted.  The host is told about
/// it by address, so the handle carries the address the range has in the
/// shared address space.
#[derive(Clone, Copy, Debug, PartialEq, Eq, Structural)]
pub struct UntrustedRef {
    /// First address of the range.
    pub ptr: usize,
    /// Number of bytes in the range.
    pub count: usize,
}

impl UntrustedRef {
    /// The number of bytes the handle covers.
    pub fn len(&self) -> (r: usize)
        ensures
            r == self.count,
    {
        self.count
    }
}

/// One page shared between shim and host: a message and a data area.
///
/// `base` is the address the block has in the shared address space; the data
/// area starts [`MSG_SIZE`] bytes above it.
#[derive(Clone, Debug)]
pub struct Block {
    /// Address of the block in the shared address space.
    pub base: usize,
    /// The message at the head of the block.
    pub msg: Message,
    /// The data area, staged by the cursor.
    pub data: Vec<u8>,
}

impl Block {
    /// A block is well formed when its data area has the fixed capacity and
    /// it sits page-aligned below the top of the address space.
    pub open spec fn wf(self) -> bool {
        &&& self.data@.len() == BLOCK_DATA_CAPACITY
        &&& self.base as int % PAGE_SIZE as int == 0
        &&& self.base + BLOCK_SIZE <= usize::MAX
    }

    /// The address of data-area offset `off` in the shared address space.
    pub open spec fn data_addr(self, off: int) -> int {
        self.base + MSG_SIZE + off
    }

    /// A zeroed block at address `base`.
    pub fn new(base: usize) -> (r: Block)
        requires
            base as int % PAGE_SIZE as int == 0,
            base + BLOCK_SIZE <= usize::MAX,
        ensures
            r.wf(),
            r.base == base,
            r.msg matches Message::Req(q) && q.num == 0 && q.arg@ =~= seq![
                0u64,
                0u64,
                0u64,
                0u64,
                0u64,
                0u64,
                0u64,
            ],
            r.data@ == Seq::<u8>::new(BLOCK_DATA_CAPACITY as nat, |i: int| 0u8),
    {
        let mut data: Vec<u8> = Vec::new();
        let mut i: usize = 0;
        while i < BLOCK_DATA_CAPACITY
            invariant
                i <= BLOCK_DATA_CAPACITY,
                data@.len() == i,
                forall|j: int| 0 <= j < i ==> data@[j] == 0u8,
            decreases BLOCK_DATA_CAPACITY - i,
        {
            data.push(0);
            i += 1;
        }
        let r = Block { base, msg: Message::Req(Request { num: 0, arg: [0; 7] }), data };
        proof {
            assert(r.data@ =~= Seq::<u8>::new(BLOCK_DATA_CAPACITY as nat, |i: int| 0u8));
        }
        r
    }

    /// A fresh cursor over the whole data area.
    pub fn cursor(&self) -> (r: Cursor)
        ensures
            r.offset == 0,
    {
        Cursor { offset: 0 }
    }

    /// Stage `src` in the data area at the cursor.
    ///
    /// On success the bytes stand at the cursor's offset, the new cursor
    /// points past them, and the returned handle covers exactly the staged
    /// range; the rest of the block is untouched.  Fails with [`OutOfSpace`]
    /// when `src` does not fit between the cursor and the end of the block.
    pub fn copy_from_slice(&mut self, cur: Cursor, src: &[u8]) -> (r: Result<
        (Cursor, UntrustedRef),
        OutOfSpace,
    >)
        requires
            old(self).wf(),
            cur.offset <= BLOCK_DATA_CAPACITY,
        ensures
            final(self).wf(),
            final(self).base == old(self).base,
            final(self).msg == old(self).msg,
            r is Ok <==> cur.offset + src@.len() <= BLOCK_DATA_CAPACITY,
            r is Err ==> *final(self) == *old(self),
            r matches Ok((next, stage)) ==> {
                &&& next.offset == cur.offset + src@.len()
                &&& stage.ptr == old(self).data_addr(cur.offset as int)
                &&& stage.count == src@.len()
                &&& forall|j: int|
                    cur.offset <= j < cur.offset + src@.len()
                        ==> #[trigger] final(self).data@[j] == src@[j - cur.offset]
                &&& forall|j: int|
                    0 <= j < cur.offset ==> final(self).data@[j] == old(self).data@[j]
                &&& forall|j: int|
                    cur.offset + src@.len() <= j < BLOCK_DATA_CAPACITY
                        ==> final(self).data@[j] == old(self).data@[j]
            },
    {
        if src.len() > BLOCK_DATA_CAPACITY - cur.offset {
            return Err(OutOfSpace);
        }
        let mut i: usize = 0;
        while i < src.len()
            invariant
                i <= src@.len(),
                cur.offset + src@.len() <= BLOCK_DATA_CAPACITY,
                self.wf(),
                self.base == old(self).base,
                self.msg == old(self).msg,
                forall|j: int|
                    cur.offset <= j < cur.offset + i ==> #[trigger] self.data@[j] == src@[j
                        - cur.offset],
                forall|j: int| 0 <= j < cur.offset ==> self.data@[j] == old(self).data@[j],
                forall|j: int|
                    cur.offset + i <= j < BLOCK_DATA_CAPACITY
                        ==> self.data@[j] == old(self).data@[j],
            decreases src@.len() - i,
        {
            let b = *vstd::slice::slice_index_get(src, i);
            let ghost prev = self.data@;
            self.data[cur.offset + i] = b;
            proof {
                assert forall|j: int|
                    cur.offset <= j < cur.offset + i + 1 implies #[trigger] self.data@[j]
                    == src@[j - cur.offset] by {
                    if j == cur.offset + i {
                        assert(b == src@[i as int]);
                        assert(self.data@[j] == b);
                        assert(src@[j - cur.offset] == src@[i as int]);
                    } else {
                        assert(prev[j] == src@[j - cur.offset]);
                        assert(self.data@[j] == prev[j]);
                    }
                }
            }
            i += 1;
        }
        let stage = UntrustedRef { ptr: self.base + MSG_SIZE + cur.offset, count: src.len() };
        Ok((Cursor { offset: cur.offset + src.len() }, stage))
    }

    /// Read `count` bytes of the data area starting at offset `off`.
    pub fn read_data(&self, off: usize, count: usize) -> (r: Vec<u8>)
        requires
            self.wf(),
            off + count <= BLOCK_DATA_CAPACITY,
        ensures
            r@ == self.data@.subrange(off as int, off + count),
    {
        let mut out: Vec<u8> = Vec::new();
        let mut i: usize = 0;
        while i < count
            invariant
                i <= count,
                off + count <= BLOCK_DATA_CAPACITY,
                self.wf(),
                out@.len() == i,
                forall|j: int| 0 <= j < i ==> out@[j] == self.data@[off + j],
            decreases count - i,
        {
            out.push(self.data[off + i]);
            i += 1;
        }
        proof {
            assert(out@ =~= self.data@.subrange(off as int, off + count));
        }
        out
    }
}

} // verus!
