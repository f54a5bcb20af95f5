//! The KVM backend's host side: the Keep's memory bookkeeping, the vCPU
//! pool, and the per-thread VM-exit handling.
//!
//! The ioctls that create the VM, map memory into it and run a vCPU are the
//! embedding program's part.  This module decides everything around them:
//! which memory-slot record a mapping gets, which internal request a VM exit
//! carries and what reply it earns, and how execution slots are leased to
//! threads.

use vstd::prelude::*;

use crate::block::{
    Block, Cursor, Message, Reply, Request, SYS_ENARX_BALLOON_MEMORY, SYS_ENARX_MEM_INFO,
    BLOCK_DATA_CAPACITY,
};
use crate::bootinfo::SYSCALL_TRIGGER_PORT;
use crate::syscall::{EINVAL, ENOBUFS, ENOMEM};
use vstd::bytes::{
    lemma_auto_spec_u32_to_from_le_bytes, lemma_auto_spec_u64_to_from_le_bytes,
    spec_u32_from_le_bytes, spec_u32_to_le_bytes, spec_u64_from_le_bytes, spec_u64_to_le_bytes,
    u32_from_le_bytes, u32_to_le_bytes, u64_from_le_bytes, u64_to_le_bytes,
};

verus! {

/// The backend's configuration; flags pass through unchanged.
#[derive(Clone, Copy, Debug, PartialEq, Eq, Structural)]
pub struct Config;

impl Config {
    /// ELF segment flags pass through to the mapper unchanged.
    pub fn flags(flags: u32) -> (r: u32)
        ensures
            r == flags,
    {
        flags
    }

    /// A fresh configuration; this backend needs nothing from the binaries.
    pub fn new() -> (r: Config) {
        Config
    }
}

/// One guest memory slot, as registered with the kernel: the canonical
/// packed form writes these five words little-endian, 32 bytes per slot.
#[derive(Clone, Copy, Debug, PartialEq, Eq, Structural)]
pub struct KvmRegion {
    /// The slot index.
    pub slot: u32,
    /// The slot flags.
    pub flags: u32,
    /// Where the region sits in guest-physical memory.
    pub guest_phys_addr: u64,
    /// The region's size in bytes.
    pub memory_size: u64,
    /// Where the region sits in the host's address space.
    pub userspace_addr: u64,
}

/// A host memory mapping backing a guest region.
#[derive(Clone, Copy, Debug, PartialEq, Eq, Structural)]
pub struct MappedPages {
    /// The host virtual address of the mapping.
    pub addr: usize,
    /// The mapping's size in bytes.
    pub len: usize,
}

/// One execution slot: a vCPU index and the block it talks through.
#[derive(Clone, Debug)]
pub struct Cpu {
    /// The vCPU's index.
    pub slot: u64,
    /// The syscall block this vCPU shares with its Keep.
    pub block: Block,
}

/// A KVM Keep: the pool of execution slots, the host mappings, and the
/// memory-slot records registered with the kernel.
#[derive(Debug)]
pub struct Keep {
    /// Execution slots not currently leased to a thread.
    pub cpus: Vec<Cpu>,
    /// The host mappings backing guest memory, one per region.
    pub memory: Vec<MappedPages>,
    /// The memory-slot records registered with the kernel.
    pub regions: Vec<KvmRegion>,
}

impl Keep {
    /// A Keep is well formed when every mapping has its slot record, slot
    /// records are numbered by their position, and each pooled slot appears
    /// once.
    pub open spec fn wf(self) -> bool {
        &&& self.memory@.len() == self.regions@.len()
        &&& forall|i: int|
            0 <= i < self.regions@.len() ==> (#[trigger] self.regions@[i].slot) as int == i
        &&& forall|i: int, j: int|
            0 <= i < j < self.cpus@.len() ==> self.cpus@[i].slot != self.cpus@[j].slot
    }

    /// An empty Keep.
    pub fn new() -> (r: Keep)
        ensures
            r.wf(),
            r.cpus@.len() == 0,
            r.memory@.len() == 0,
            r.regions@.len() == 0,
    {
        Keep { cpus: Vec::new(), memory: Vec::new(), regions: Vec::new() }
    }

    /// Record a mapping of `pages` at guest-physical address `to`: the next
    /// free slot number is taken, and the mapping and its record are kept.
    /// Returns the host virtual address of the mapping.
    pub fn map(&mut self, pages: MappedPages, to: usize) -> (r: usize)
        requires
            old(self).wf(),
            old(self).regions@.len() < 0xffff_ffff,
        ensures
            final(self).wf(),
            final(self).cpus == old(self).cpus,
            final(self).memory@ == old(self).memory@.push(pages),
            final(self).regions@ == old(self).regions@.push(KvmRegion {
                slot: old(self).regions@.len() as u32,
                flags: 0,
                guest_phys_addr: to as u64,
                memory_size: pages.len as u64,
                userspace_addr: pages.addr as u64,
            }),
            r == pages.addr,
    {
        let region = KvmRegion {
            slot: self.memory.len() as u32,
            flags: 0,
            guest_phys_addr: to as u64,
            memory_size: pages.len as u64,
            userspace_addr: pages.addr as u64,
        };
        self.regions.push(region);
        self.memory.push(pages);
        pages.addr
    }

    /// Lease an execution slot, if one is free.  The leased slot leaves the
    /// pool, so no second thread can hold it until it is released.
    pub fn spawn(&mut self) -> (r: Option<Thread>)
        requires
            old(self).wf(),
        ensures
            final(self).wf(),
            final(self).memory == old(self).memory,
            final(self).regions == old(self).regions,
            r is None <==> old(self).cpus@.len() == 0,
            r is None ==> final(self).cpus == old(self).cpus,
            r matches Some(t) ==> (t.cpu matches Some(c) && c == old(self).cpus@.last() && final(self).cpus@ == old(self).cpus@.drop_last()),
    {
        if self.cpus.len() == 0 {
            return None;
        }
        match self.cpus.pop() {
            Some(cpu) => Some(Thread { cpu: Some(cpu) }),
            None => None,
        }
    }
}

/// An exclusive lease on one execution slot and its block.  Returning the
/// lease with [`Thread::release`] puts the slot back in the pool.
#[derive(Debug)]
pub struct Thread {
    /// The leased slot; `None` once released.
    pub cpu: Option<Cpu>,
}

/// Why a vCPU stopped executing.
#[derive(Clone, Copy, Debug, PartialEq, Eq, Structural)]
pub enum KvmExit {
    /// The guest wrote to an I/O port.
    IoOut {
        /// The port written to.
        port: u16,
    },
    /// Any other exit reason.
    Other,
}

/// What the host must do about a VM exit.
#[derive(Clone, Copy, Debug, PartialEq, Eq, Structural)]
pub enum ThreadStep {
    /// Map this much anonymous memory at this guest-physical address, then
    /// finish with [`Thread::balloon_complete`] and re-enter.
    Balloon(BalloonPlan),
    /// The block carries a Linux syscall for the host executor.
    SysCall,
    /// The request was answered in the block; re-enter the Keep.
    Continue,
    /// An exit this backend cannot handle: the Keep terminates.
    Fatal,
}

/// A memory-ballooning allocation the host must perform.
#[derive(Clone, Copy, Debug, PartialEq, Eq, Structural)]
pub struct BalloonPlan {
    /// Bytes of anonymous private memory to allocate.
    pub bytes: usize,
    /// The guest-physical address to map them at.
    pub gpa: usize,
}

/// What a balloon request yields: `arg[0]` is the log2 of the page size,
/// `arg[1]` the number of pages, `arg[2]` the guest-physical address.
/// `EINVAL` when the page size is not the host's or the address is not
/// aligned to it; `ENOMEM` when the total does not fit the host's address
/// space.
pub open spec fn spec_balloon(req: Request, host_page_size: usize) -> Result<BalloonPlan, i32> {
    let pow2 = req.arg@[0];
    let npgs = req.arg@[1];
    let gpa = req.arg@[2];
    if pow2 >= 64 || (1u64 << pow2) != host_page_size as u64 || gpa as int % ((1u64
        << pow2) as int) != 0 {
        Err(EINVAL)
    } else {
        let total = npgs as int * (1u64 << pow2) as int;
        if total <= usize::MAX && gpa <= usize::MAX {
            Ok(BalloonPlan { bytes: total as usize, gpa: gpa as usize })
        } else {
            Err(ENOMEM)
        }
    }
}

/// Check a balloon request against the host's page size.
pub fn balloon_prepare(req: &Request, host_page_size: usize) -> (r: Result<BalloonPlan, i32>)
    requires
        host_page_size >= 1,
    ensures
        r == spec_balloon(*req, host_page_size),
{
    let pow2 = req.arg[0];
    let npgs = req.arg[1];
    let gpa = req.arg[2];
    if pow2 >= 64 {
        return Err(EINVAL);
    }
    let size: u64 = 1u64 << pow2;
    if size != host_page_size as u64 || gpa % size != 0 {
        return Err(EINVAL);
    }
    let total = match npgs.checked_mul(size) {
        Some(t) => t,
        None => {
            return Err(ENOMEM);
        },
    };
    if total > usize::MAX as u64 || gpa > usize::MAX as u64 {
        return Err(ENOMEM);
    }
    Ok(BalloonPlan { bytes: total as usize, gpa: gpa as usize })
}

/// The canonical packed form of one memory-slot record: the five words,
/// little-endian, 32 bytes in all.
pub open spec fn region_le_bytes(r: KvmRegion) -> Seq<u8> {
    spec_u32_to_le_bytes(r.slot) + spec_u32_to_le_bytes(r.flags) + spec_u64_to_le_bytes(
        r.guest_phys_addr,
    ) + spec_u64_to_le_bytes(r.memory_size) + spec_u64_to_le_bytes(r.userspace_addr)
}

/// The packed forms of a list of records, one after the other.
pub open spec fn regions_le_bytes(rs: Seq<KvmRegion>) -> Seq<u8>
    decreases rs.len(),
{
    if rs.len() == 0 {
        Seq::empty()
    } else {
        regions_le_bytes(rs.drop_last()) + region_le_bytes(rs.last())
    }
}

/// Each record takes 32 bytes of the packed form.
pub proof fn lemma_regions_le_bytes_len(rs: Seq<KvmRegion>)
    ensures
        regions_le_bytes(rs).len() == 32 * rs.len(),
    decreases rs.len(),
{
    lemma_auto_spec_u32_to_from_le_bytes();
    lemma_auto_spec_u64_to_from_le_bytes();
    if rs.len() > 0 {
        lemma_regions_le_bytes_len(rs.drop_last());
    }
}

/// Pack one record into its canonical 32 bytes.
fn region_to_bytes(r: &KvmRegion) -> (out: Vec<u8>)
    ensures
        out@ == region_le_bytes(*r),
        out@.len() == 32,
{
    proof {
        lemma_auto_spec_u32_to_from_le_bytes();
        lemma_auto_spec_u64_to_from_le_bytes();
    }
    let mut out = u32_to_le_bytes(r.slot);
    let mut t = u32_to_le_bytes(r.flags);
    out.append(&mut t);
    let mut t = u64_to_le_bytes(r.guest_phys_addr);
    out.append(&mut t);
    let mut t = u64_to_le_bytes(r.memory_size);
    out.append(&mut t);
    let mut t = u64_to_le_bytes(r.userspace_addr);
    out.append(&mut t);
    proof {
        assert(out@ =~= region_le_bytes(*r));
    }
    out
}

/// Pack a list of records into its canonical form.
fn regions_to_bytes(regions: &Vec<KvmRegion>) -> (out: Vec<u8>)
    ensures
        out@ == regions_le_bytes(regions@),
        out@.len() == 32 * regions@.len(),
{
    let mut out: Vec<u8> = Vec::new();
    let mut i: usize = 0;
    proof {
        assert(regions@.subrange(0, 0) =~= Seq::<KvmRegion>::empty());
    }
    while i < regions.len()
        invariant
            i <= regions@.len(),
            out@ == regions_le_bytes(regions@.subrange(0, i as int)),
            out@.len() == 32 * i,
        decreases regions@.len() - i,
    {
        let mut bytes = region_to_bytes(&regions[i]);
        out.append(&mut bytes);
        proof {
            let pre = regions@.subrange(0, i as int);
            let now = regions@.subrange(0, i + 1);
            assert(now.drop_last() =~= pre);
            assert(now.last() == regions@[i as int]);
            lemma_regions_le_bytes_len(now);
        }
        i += 1;
    }
    proof {
        assert(regions@.subrange(0, regions@.len() as int) =~= regions@);
    }
    out
}

/// The record a canonical 32-byte form carries.
pub open spec fn spec_region_decode(s: Seq<u8>) -> KvmRegion
    recommends
        s.len() == 32,
{
    KvmRegion {
        slot: spec_u32_from_le_bytes(s.subrange(0, 4)),
        flags: spec_u32_from_le_bytes(s.subrange(4, 8)),
        guest_phys_addr: spec_u64_from_le_bytes(s.subrange(8, 16)),
        memory_size: spec_u64_from_le_bytes(s.subrange(16, 24)),
        userspace_addr: spec_u64_from_le_bytes(s.subrange(24, 32)),
    }
}

/// The packed form loses nothing: decoding a packed record yields the
/// record back.
pub proof fn lemma_region_round_trip(r: KvmRegion)
    ensures
        spec_region_decode(region_le_bytes(r)) == r,
{
    lemma_auto_spec_u32_to_from_le_bytes();
    lemma_auto_spec_u64_to_from_le_bytes();
    let s = region_le_bytes(r);
    assert(s.subrange(0, 4) =~= spec_u32_to_le_bytes(r.slot));
    assert(s.subrange(4, 8) =~= spec_u32_to_le_bytes(r.flags));
    assert(s.subrange(8, 16) =~= spec_u64_to_le_bytes(r.guest_phys_addr));
    assert(s.subrange(16, 24) =~= spec_u64_to_le_bytes(r.memory_size));
    assert(s.subrange(24, 32) =~= spec_u64_to_le_bytes(r.userspace_addr));
}

/// Record `i` of a packed list sits in bytes `32 * i .. 32 * i + 32`.
pub proof fn lemma_regions_le_bytes_index(rs: Seq<KvmRegion>, i: int)
    requires
        0 <= i < rs.len(),
    ensures
        regions_le_bytes(rs).subrange(32 * i, 32 * i + 32) == region_le_bytes(rs[i]),
    decreases rs.len(),
{
    lemma_auto_spec_u32_to_from_le_bytes();
    lemma_auto_spec_u64_to_from_le_bytes();
    lemma_regions_le_bytes_len(rs);
    lemma_regions_le_bytes_len(rs.drop_last());
    if i == rs.len() - 1 {
        assert(regions_le_bytes(rs).subrange(32 * i, 32 * i + 32) =~= region_le_bytes(rs[i]));
    } else {
        lemma_regions_le_bytes_index(rs.drop_last(), i);
        assert(regions_le_bytes(rs).subrange(32 * i, 32 * i + 32) =~= regions_le_bytes(
            rs.drop_last(),
        ).subrange(32 * i, 32 * i + 32));
    }
}

/// Read `count` packed records back out of a block's data area: the inverse
/// of [`write_regions`], as [`lemma_region_round_trip`] makes exact.
pub fn read_regions(block: &Block, cur: Cursor, count: usize) -> (r: Vec<KvmRegion>)
    requires
        block.wf(),
        cur.offset + 32 * count <= BLOCK_DATA_CAPACITY,
    ensures
        r@.len() == count,
        forall|i: int|
            0 <= i < count ==> #[trigger] r@[i] == spec_region_decode(
                block.data@.subrange(cur.offset + 32 * i, cur.offset + 32 * i + 32),
            ),
{
    let mut r: Vec<KvmRegion> = Vec::new();
    let mut i: usize = 0;
    while i < count
        invariant
            i <= count,
            cur.offset + 32 * count <= BLOCK_DATA_CAPACITY,
            block.wf(),
            r@.len() == i,
            forall|j: int|
                0 <= j < i ==> #[trigger] r@[j] == spec_region_decode(
                    block.data@.subrange(cur.offset + 32 * j, cur.offset + 32 * j + 32),
                ),
        decreases count - i,
    {
        let bytes = block.read_data(cur.offset + 32 * i, 32);
        let slot = u32_from_le_bytes(vstd::slice::slice_subrange(bytes.as_slice(), 0, 4));
        let flags = u32_from_le_bytes(vstd::slice::slice_subrange(bytes.as_slice(), 4, 8));
        let guest_phys_addr = u64_from_le_bytes(
            vstd::slice::slice_subrange(bytes.as_slice(), 8, 16),
        );
        let memory_size = u64_from_le_bytes(vstd::slice::slice_subrange(bytes.as_slice(), 16, 24));
        let userspace_addr = u64_from_le_bytes(
            vstd::slice::slice_subrange(bytes.as_slice(), 24, 32),
        );
        let region = KvmRegion { slot, flags, guest_phys_addr, memory_size, userspace_addr };
        proof {
            let window = block.data@.subrange(cur.offset + 32 * i, cur.offset + 32 * i + 32);
            assert(bytes@ =~= window);
            assert(bytes@.subrange(0, 4) =~= window.subrange(0, 4));
            assert(bytes@.subrange(4, 8) =~= window.subrange(4, 8));
            assert(bytes@.subrange(8, 16) =~= window.subrange(8, 16));
            assert(bytes@.subrange(16, 24) =~= window.subrange(16, 24));
            assert(bytes@.subrange(24, 32) =~= window.subrange(24, 32));
        }
        r.push(region);
        i += 1;
    }
    r
}

/// The memory-slot list survives the block: where the bytes of a data area
/// carry what [`write_regions`] wrote, every record reads back as itself.
pub proof fn lemma_regions_round_trip(rs: Seq<KvmRegion>, data: Seq<u8>, off: int, i: int)
    requires
        0 <= off,
        0 <= i < rs.len(),
        off + 32 * rs.len() <= data.len(),
        forall|j: int| off <= j < off + 32 * rs.len() ==> data[j] == regions_le_bytes(rs)[j - off],
    ensures
        spec_region_decode(data.subrange(off + 32 * i, off + 32 * i + 32)) == rs[i],
{
    lemma_regions_le_bytes_len(rs);
    lemma_regions_le_bytes_index(rs, i);
    lemma_region_round_trip(rs[i]);
    assert(data.subrange(off + 32 * i, off + 32 * i + 32) =~= regions_le_bytes(rs).subrange(
        32 * i,
        32 * i + 32,
    ));
}

/// Write the Keep's memory-slot list into a block's data area at the
/// cursor, in the canonical packed form.  Fails with `ENOBUFS` — leaving
/// the block untouched — when the list does not fit.
pub fn write_regions(block: &mut Block, cur: Cursor, regions: &Vec<KvmRegion>) -> (r: Result<
    Cursor,
    i32,
>)
    requires
        old(block).wf(),
        cur.offset <= BLOCK_DATA_CAPACITY,
    ensures
        final(block).wf(),
        final(block).base == old(block).base,
        final(block).msg == old(block).msg,
        r is Ok <==> cur.offset + 32 * regions@.len() <= BLOCK_DATA_CAPACITY,
        r is Err ==> *final(block) == *old(block) && r == Err::<Cursor, i32>(ENOBUFS),
        r matches Ok(next) ==> {
            &&& next.offset == cur.offset + 32 * regions@.len()
            &&& forall|j: int|
                cur.offset <= j < cur.offset + 32 * regions@.len()
                    ==> #[trigger] final(block).data@[j] == regions_le_bytes(regions@)[j
                    - cur.offset]
            &&& forall|j: int|
                0 <= j < cur.offset ==> final(block).data@[j] == old(block).data@[j]
        },
{
    let bytes = regions_to_bytes(regions);
    match block.copy_from_slice(cur, bytes.as_slice()) {
        Ok((next, _)) => Ok(next),
        Err(_) => Err(ENOBUFS),
    }
}

/// The block's message is a reply with this negated errno and zeroed
/// return values.
pub open spec fn is_err_reply(m: Message, e: i32) -> bool {
    m matches Message::Rep(rep) && rep.err == 0 - e && rep.ret@[0] == 0 && rep.ret@[1] == 0
}

/// The block's message is a success reply with zeroed return values.
pub open spec fn is_ok_reply0(m: Message) -> bool {
    m matches Message::Rep(rep) && rep.err == 0 && rep.ret@[0] == 0 && rep.ret@[1] == 0
}

/// What servicing a syscall-trigger exit did to the block.
pub open spec fn trigger_post(
    pre: Block,
    post: Block,
    r: ThreadStep,
    regions: Seq<KvmRegion>,
    host_page_size: usize,
) -> bool {
    match pre.msg {
        Message::Rep(_) => r == ThreadStep::Fatal && post == pre,
        Message::Req(req) => {
            if req.num == SYS_ENARX_BALLOON_MEMORY {
                match spec_balloon(req, host_page_size) {
                    Ok(plan) => r == ThreadStep::Balloon(plan) && post == pre,
                    Err(e) => r == ThreadStep::Continue && is_err_reply(post.msg, e) && post.data@
                        == pre.data@ && post.base == pre.base,
                }
            } else if req.num == SYS_ENARX_MEM_INFO {
                if 32 * regions.len() <= BLOCK_DATA_CAPACITY {
                    &&& r == ThreadStep::Continue
                    &&& is_ok_reply0(post.msg)
                    &&& post.base == pre.base
                    &&& forall|j: int|
                        0 <= j < 32 * regions.len() ==> #[trigger] post.data@[j]
                            == regions_le_bytes(regions)[j]
                } else {
                    r == ThreadStep::Continue && is_err_reply(post.msg, ENOBUFS) && post.data@
                        == pre.data@ && post.base == pre.base
                }
            } else {
                r == ThreadStep::SysCall && post == pre
            }
        },
    }
}

/// Service a write to the syscall trigger port: answer ballooning and the
/// memory-slot list here, hand everything else to the host executor.
fn handle_trigger(block: &mut Block, regions: &Vec<KvmRegion>, host_page_size: usize) -> (r:
    ThreadStep)
    requires
        old(block).wf(),
        host_page_size >= 1,
    ensures
        final(block).wf(),
        trigger_post(*old(block), *final(block), r, regions@, host_page_size),
{
    let req = match block.msg {
        Message::Req(q) => q,
        Message::Rep(_) => {
            return ThreadStep::Fatal;
        },
    };
    if req.num == SYS_ENARX_BALLOON_MEMORY {
        match balloon_prepare(&req, host_page_size) {
            Ok(plan) => ThreadStep::Balloon(plan),
            Err(e) => {
                block.msg = Message::Rep(Reply { ret: [0, 0], err: -e });
                ThreadStep::Continue
            },
        }
    } else if req.num == SYS_ENARX_MEM_INFO {
        let cur = block.cursor();
        match write_regions(block, cur, regions) {
            Ok(_) => {
                block.msg = Message::Rep(Reply { ret: [0, 0], err: 0 });
                ThreadStep::Continue
            },
            Err(e) => {
                block.msg = Message::Rep(Reply { ret: [0, 0], err: -e });
                ThreadStep::Continue
            },
        }
    } else {
        ThreadStep::SysCall
    }
}

impl Thread {
    /// Return the leased slot to the pool.
    ///
    /// Together with [`Keep::spawn`] this is the slot discipline: a spawned
    /// slot exists only inside one `Thread` value — Rust's ownership keeps a
    /// second holder out — and releasing the thread puts it back.
    pub fn release(self, keep: &mut Keep) -> (freed: bool)
        requires
            old(keep).wf(),
            self.cpu matches Some(c) ==> forall|i: int|
                0 <= i < old(keep).cpus@.len() ==> (#[trigger] old(keep).cpus@[i].slot) != c.slot,
        ensures
            final(keep).wf(),
            final(keep).memory == old(keep).memory,
            final(keep).regions == old(keep).regions,
            self.cpu matches Some(c) ==> final(keep).cpus@ == old(keep).cpus@.push(c) && freed,
            self.cpu is None ==> final(keep).cpus == old(keep).cpus && !freed,
    {
        match self.cpu {
            Some(cpu) => {
                keep.cpus.push(cpu);
                true
            },
            None => false,
        }
    }

    /// Interpret a VM exit.
    ///
    /// Only an I/O write to the syscall trigger port is Keep business: the
    /// block then carries a request.  Memory ballooning and the memory-slot
    /// list are answered here (the allocation itself is handed back as a
    /// [`ThreadStep::Balloon`] plan); any other number is a Linux syscall
    /// for the host executor.  Every other exit reason is fatal.
    pub fn enter(&mut self, keep: &Keep, exit: KvmExit, host_page_size: usize) -> (r: ThreadStep)
        requires
            old(self).cpu matches Some(c) && c.block.wf(),
            host_page_size >= 1,
        ensures
            final(self).cpu is Some,
            final(self).cpu->Some_0.slot == old(self).cpu->Some_0.slot,
            final(self).cpu->Some_0.block.wf(),
            exit != (KvmExit::IoOut { port: SYSCALL_TRIGGER_PORT }) ==> r == ThreadStep::Fatal
                && *final(self) == *old(self),
            exit == (KvmExit::IoOut { port: SYSCALL_TRIGGER_PORT }) ==> trigger_post(
                old(self).cpu->Some_0.block,
                final(self).cpu->Some_0.block,
                r,
                keep.regions@,
                host_page_size,
            ),
    {
        let on_trigger = match exit {
            KvmExit::IoOut { port } => port == SYSCALL_TRIGGER_PORT,
            KvmExit::Other => false,
        };
        if !on_trigger {
            return ThreadStep::Fatal;
        }
        match &mut self.cpu {
            Some(cpu) => handle_trigger(&mut cpu.block, &keep.regions, host_page_size),
            None => ThreadStep::Fatal,
        }
    }

    /// Finish a balloon request: the host mapped the memory at `vaddr`; the
    /// reply carries that address back to the shim.
    pub fn balloon_complete(&mut self, vaddr: usize)
        requires
            old(self).cpu matches Some(c) && c.block.wf(),
        ensures
            final(self).cpu is Some,
            final(self).cpu->Some_0.slot == old(self).cpu->Some_0.slot,
            final(self).cpu->Some_0.block.wf(),
            final(self).cpu->Some_0.block.data@ == old(self).cpu->Some_0.block.data@,
            final(self).cpu->Some_0.block.base == old(self).cpu->Some_0.block.base,
            ({
                let m = final(self).cpu->Some_0.block.msg;
                m matches Message::Rep(rep) && rep.err == 0 && rep.ret@[0] == vaddr as u64
                    && rep.ret@[1] == 0
            }),
    {
        match &mut self.cpu {
            Some(cpu) => {
                cpu.block.msg = Message::Rep(Reply { ret: [vaddr as u64, 0], err: 0 });
            },
            None => {},
        }
    }
}

/// One slot, one thread: the slot a spawn leases is gone from the pool, so
/// no further spawn can lease it until it is released.
pub proof fn lemma_spawned_slot_exclusive(keep0: Keep, keep1: Keep, c: Cpu)
    requires
        keep0.wf(),
        keep0.cpus@.len() > 0,
        c == keep0.cpus@.last(),
        keep1.cpus@ == keep0.cpus@.drop_last(),
    ensures
        forall|i: int| 0 <= i < keep1.cpus@.len() ==> (#[trigger] keep1.cpus@[i].slot) != c.slot,
{
    assert forall|i: int| 0 <= i < keep1.cpus@.len() implies (#[trigger] keep1.cpus@[i].slot)
        != c.slot by {
        assert(keep0.cpus@[i] == keep1.cpus@[i]);
        assert(keep0.cpus@[i].slot != keep0.cpus@[keep0.cpus@.len() - 1].slot);
    }
}

} // verus!
