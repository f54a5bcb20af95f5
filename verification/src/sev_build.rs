//! Building a SEV-SNP Keep: classifying and recording guest pages.
//!
//! The loader walks the shim's ELF segments and maps each into the VM.  A
//! segment's OS-specific flags say what its pages are: sallyport blocks to
//! talk through, the CPUID page the firmware checks, the secrets page, or
//! plain memory.  The launch ioctls (`set_user_memory_region`,
//! `update_data`) are the embedding program's part; this module keeps the
//! books and decides what each mapping asks of the firmware.

use vstd::prelude::*;

use crate::block::BLOCK_SIZE;
use crate::bootinfo::{lemma_align_down, PAGE_SIZE};
use crate::kvm::{KvmRegion, MappedPages};

verus! {

/// ELF segment flag: the segment's pages are sallyport blocks.
pub const PF_SALLYPORT: u32 = 0x0010_0000;

/// ELF segment flag: the segment is the SNP CPUID page.
pub const PF_CPUID: u32 = 0x0020_0000;

/// ELF segment flag: the segment is the SNP secrets page.
pub const PF_SECRETS: u32 = 0x0040_0000;

/// The launch policy flag allowing the guest on multithreaded cores.
pub const SNP_POLICY_SMT: u64 = 0x1_0000;

/// How the firmware must treat a mapped page.
#[derive(Clone, Copy, Debug, PartialEq, Eq, Structural)]
pub enum PageKind {
    /// The CPUID page; the firmware checks its entries.
    Cpuid,
    /// The secrets page; the firmware fills it.
    Secrets,
    /// Plain guest memory.
    Normal,
}

/// No segment was marked as a sallyport block: the Keep would have no way
/// to proxy a syscall.
#[derive(Clone, Copy, Debug, PartialEq, Eq, Structural)]
pub struct NoSallyportBlocks;

/// What one mapping asks of the embedding program.
#[derive(Clone, Copy, Debug, PartialEq, Eq, Structural)]
pub enum MapPlan {
    /// The segment is empty: nothing to do.
    Empty,
    /// Register the recorded region with the kernel, then hand the pages to
    /// the firmware as this kind.
    Update(PageKind),
}

/// The guest OS-visible workarounds field of the launch parameters.
pub fn gosvw() -> (r: Vec<u8>)
    ensures
        r@ =~= seq![
            1u8,
            2u8,
            3u8,
            4u8,
            5u8,
            6u8,
            7u8,
            8u8,
            9u8,
            10u8,
            11u8,
            12u8,
            13u8,
            14u8,
            15u8,
            16u8,
        ],
{
    let mut r: Vec<u8> = Vec::new();
    let mut i: u8 = 1;
    while i <= 16
        invariant
            1 <= i <= 17,
            r@.len() == i - 1,
            forall|j: int| 0 <= j < i - 1 ==> r@[j] == j + 1,
        decreases 17 - i,
    {
        r.push(i);
        i += 1;
    }
    r
}

/// Classify a segment by its flags: the CPUID page, the secrets page, or
/// plain memory.
pub fn classify(with: u32) -> (r: PageKind)
    ensures
        with & PF_CPUID != 0 ==> r == PageKind::Cpuid,
        with & PF_CPUID == 0 && with & PF_SECRETS != 0 ==> r == PageKind::Secrets,
        with & PF_CPUID == 0 && with & PF_SECRETS == 0 ==> r == PageKind::Normal,
{
    if with & PF_CPUID != 0 {
        PageKind::Cpuid
    } else if with & PF_SECRETS != 0 {
        PageKind::Secrets
    } else {
        PageKind::Normal
    }
}

/// The CPUID-page update is retried once with the firmware's corrections; a
/// second rejection is fatal.
pub fn should_retry_cpuid_update(failed_attempts: u32) -> (r: bool)
    ensures
        r <==> failed_attempts < 2,
{
    failed_attempts < 2
}

/// The offsets of the whole blocks inside a segment of this size: one every
/// [`BLOCK_SIZE`] bytes, as long as the whole block fits.
pub fn block_offsets(size: usize) -> (r: Vec<usize>)
    ensures
        r@.len() == size as int / BLOCK_SIZE as int,
        forall|i: int| 0 <= i < r@.len() ==> r@[i] == i * BLOCK_SIZE,
{
    let n = size / BLOCK_SIZE;
    proof {
        lemma_align_down(size as int, BLOCK_SIZE as int);
    }
    let mut r: Vec<usize> = Vec::new();
    let mut i: usize = 0;
    while i < n
        invariant
            i <= n,
            n == size as int / BLOCK_SIZE as int,
            n * BLOCK_SIZE <= size,
            r@.len() == i,
            forall|j: int| 0 <= j < i ==> r@[j] == j * BLOCK_SIZE,
        decreases n - i,
    {
        proof {
            assert((i + 1) * BLOCK_SIZE <= n * BLOCK_SIZE) by (nonlinear_arith)
                requires
                    i + 1 <= n,
            ;
        }
        r.push(i * BLOCK_SIZE);
        i += 1;
    }
    r
}

/// The builder of a SEV-SNP Keep: the regions mapped so far and the
/// sallyport blocks found among them.
#[derive(Debug)]
pub struct SnpBuilder {
    /// The host mappings backing guest memory, one per slot record.
    pub memory: Vec<MappedPages>,
    /// The memory-slot records registered with the kernel.
    pub regions: Vec<KvmRegion>,
    /// The host virtual addresses of the sallyport blocks.
    pub sallyports: Vec<usize>,
}

impl SnpBuilder {
    /// A builder is well formed when every mapping has its slot record and
    /// slot records are numbered by their position.
    pub open spec fn wf(self) -> bool {
        &&& self.memory@.len() == self.regions@.len()
        &&& forall|i: int|
            0 <= i < self.regions@.len() ==> (#[trigger] self.regions@[i].slot) as int == i
    }

    /// A fresh builder.
    pub fn new() -> (r: SnpBuilder)
        ensures
            r.wf(),
            r.memory@.len() == 0,
            r.regions@.len() == 0,
            r.sallyports@.len() == 0,
    {
        SnpBuilder { memory: Vec::new(), regions: Vec::new(), sallyports: Vec::new() }
    }

    /// Record mapping `pages` at guest-physical address `to` with ELF flags
    /// `with`.
    ///
    /// An empty segment is skipped.  A sallyport segment contributes one
    /// block per [`BLOCK_SIZE`] bytes to the sallyport list.  The mapping
    /// gets the next slot record, and the plan says how the firmware must
    /// treat the pages.  The CPUID and secrets segments are single pages.
    pub fn map(&mut self, pages: MappedPages, to: usize, with: u32) -> (r: MapPlan)
        requires
            old(self).wf(),
            old(self).regions@.len() < 0xffff_ffff,
            pages.addr + pages.len <= usize::MAX,
            with & PF_CPUID != 0 ==> pages.len == PAGE_SIZE,
            with & PF_CPUID == 0 && with & PF_SECRETS != 0 ==> pages.len == PAGE_SIZE,
        ensures
            final(self).wf(),
            pages.len == 0 ==> r == MapPlan::Empty && *final(self) == *old(self),
            pages.len > 0 ==> {
                &&& final(self).memory@ == old(self).memory@.push(pages)
                &&& final(self).regions@ == old(self).regions@.push(KvmRegion {
                    slot: old(self).regions@.len() as u32,
                    flags: 0,
                    guest_phys_addr: to as u64,
                    memory_size: pages.len as u64,
                    userspace_addr: pages.addr as u64,
                })
                &&& (with & PF_SALLYPORT != 0 ==> final(self).sallyports@ == old(
                    self,
                ).sallyports@ + Seq::new(
                    (pages.len as int / BLOCK_SIZE as int) as nat,
                    |i: int| (pages.addr + i * BLOCK_SIZE) as usize,
                ))
                &&& (with & PF_SALLYPORT == 0 ==> final(self).sallyports@ == old(self).sallyports@)
                &&& (with & PF_CPUID != 0 ==> r == MapPlan::Update(PageKind::Cpuid))
                &&& (with & PF_CPUID == 0 && with & PF_SECRETS != 0 ==> r == MapPlan::Update(
                    PageKind::Secrets,
                ))
                &&& (with & PF_CPUID == 0 && with & PF_SECRETS == 0 ==> r == MapPlan::Update(
                    PageKind::Normal,
                ))
            },
    {
        if pages.len == 0 {
            return MapPlan::Empty;
        }
        if with & PF_SALLYPORT != 0 {
            let offsets = block_offsets(pages.len);
            let ghost pre = self.sallyports@;
            let mut k: usize = 0;
            while k < offsets.len()
                invariant
                    k <= offsets@.len(),
                    pages.addr + pages.len <= usize::MAX,
                    offsets@.len() == pages.len as int / BLOCK_SIZE as int,
                    forall|j: int| 0 <= j < offsets@.len() ==> offsets@[j] == j * BLOCK_SIZE,
                    offsets@.len() * BLOCK_SIZE <= pages.len,
                    self.sallyports@.len() == pre.len() + k,
                    forall|j: int| 0 <= j < pre.len() ==> self.sallyports@[j] == pre[j],
                    forall|j: int|
                        pre.len() <= j < pre.len() + k ==> #[trigger] self.sallyports@[j]
                            == pages.addr + (j - pre.len()) * BLOCK_SIZE,
                    self.memory == old(self).memory,
                    self.regions == old(self).regions,
                decreases offsets@.len() - k,
            {
                proof {
                    assert(k * BLOCK_SIZE <= offsets@.len() * BLOCK_SIZE) by (nonlinear_arith)
                        requires
                            k <= offsets@.len(),
                    ;
                }
                self.sallyports.push(pages.addr + offsets[k]);
                k += 1;
            }
            proof {
                assert(self.sallyports@ =~= pre + Seq::new(
                    (pages.len as int / BLOCK_SIZE as int) as nat,
                    |i: int| (pages.addr + i * BLOCK_SIZE) as usize,
                ));
            }
        }
        let region = KvmRegion {
            slot: self.regions.len() as u32,
            flags: 0,
            guest_phys_addr: to as u64,
            memory_size: pages.len as u64,
            userspace_addr: pages.addr as u64,
        };
        self.regions.push(region);
        self.memory.push(pages);
        MapPlan::Update(classify(with))
    }

    /// Check that the Keep can talk at all: at least one sallyport block
    /// must have been mapped.  Returns the first block's address, where the
    /// boot information is placed.
    pub fn finish_check(&self) -> (r: Result<usize, NoSallyportBlocks>)
        ensures
            r is Ok <==> self.sallyports@.len() > 0,
            r matches Ok(a) ==> a == self.sallyports@[0],
    {
        if self.sallyports.len() == 0 {
            return Err(NoSallyportBlocks);
        }
        Ok(self.sallyports[0])
    }
}

} // verus!
