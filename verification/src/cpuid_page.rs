//! The SEV-SNP CPUID page.
//!
//! Before launch, the host fills one guest page with the `cpuid` leaves the
//! firmware is asked to let the guest see; the firmware checks and possibly
//! corrects it.  The page holds at most [`COUNT_MAX`] entries.

use vstd::prelude::*;

verus! {

/// The most entries a CPUID page can carry.
pub const COUNT_MAX: usize = 64;

/// One entry of the CPUID page: the inputs of a `cpuid` invocation and the
/// four result registers.
#[derive(Clone, Copy, Debug, Default, PartialEq, Eq, Structural)]
pub struct CpuidFunctionEntry {
    /// The leaf (`eax` on input).
    pub eax_in: u32,
    /// The subleaf (`ecx` on input).
    pub ecx_in: u32,
    /// The `xcr0` register state at the invocation.
    pub xcr0_in: u64,
    /// The `xss` register state at the invocation.
    pub xss_in: u64,
    /// `eax` out.
    pub eax: u32,
    /// `ebx` out.
    pub ebx: u32,
    /// `ecx` out.
    pub ecx: u32,
    /// `edx` out.
    pub edx: u32,
}

/// Error reported by the CPUID page operations.
#[derive(Clone, Copy, Debug, PartialEq, Eq, Structural)]
#[non_exhaustive]
pub enum Error {
    /// No memory for the structures handed to the kernel.
    NoMemory,
    /// The page already holds the maximum number of entries.
    Full,
}

/// The CPUID page to be placed in the guest: a counted list of at most
/// [`COUNT_MAX`] entries.
#[derive(Clone, Debug)]
pub struct CpuidPage {
    functions: Vec<CpuidFunctionEntry>,
}

impl View for CpuidPage {
    type V = Seq<CpuidFunctionEntry>;

    /// The entries the page holds, in insertion order.
    closed spec fn view(&self) -> Seq<CpuidFunctionEntry> {
        self.functions@
    }
}

impl CpuidPage {
    /// A page never holds more than [`COUNT_MAX`] entries.
    pub closed spec fn wf(self) -> bool {
        self.functions@.len() <= COUNT_MAX
    }

    /// Bytes of the page left unused behind the entry table: the table
    /// occupies 3088 bytes of the 4096-byte page (16 bytes of header and 64
    /// entries of 48 bytes each).
    pub fn space_size() -> (r: usize)
        ensures
            r == 1008,
    {
        4096 - (16 + 64 * 48)
    }

    /// An empty page.
    pub fn new() -> (r: CpuidPage)
        ensures
            r.wf(),
            r@.len() == 0,
    {
        CpuidPage { functions: Vec::new() }
    }

    /// Get all entries.
    pub fn get_functions(&self) -> (r: &[CpuidFunctionEntry])
        ensures
            r@ == self@,
    {
        self.functions.as_slice()
    }

    /// Add an entry; fails with [`Error::Full`] when the page already holds
    /// the maximum number of entries.
    pub fn add_entry(&mut self, entry: &CpuidFunctionEntry) -> (r: Result<(), Error>)
        requires
            old(self).wf(),
        ensures
            final(self).wf(),
            old(self)@.len() < COUNT_MAX ==> r == Ok::<(), Error>(()) && final(self)@ == old(
                self,
            )@.push(*entry),
            old(self)@.len() >= COUNT_MAX ==> r == Err::<(), Error>(Error::Full) && final(self)@
                == old(self)@,
    {
        if self.functions.len() >= COUNT_MAX {
            return Err(Error::Full);
        }
        self.functions.push(*entry);
        Ok(())
    }
}

impl Default for CpuidPage {
    /// An empty page.
    fn default() -> (r: CpuidPage)
        ensures
            r.wf(),
            r@.len() == 0,
    {
        CpuidPage::new()
    }
}

} // verus!
