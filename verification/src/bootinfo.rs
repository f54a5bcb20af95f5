//! Boot-time memory layout for a virtual-machine Keep.
//!
//! The loader places a `setup` area (page tables, shared pages) in the first
//! 2 MiB of guest memory, loads the shim above it on a 2 MiB boundary, loads
//! the payload code above the shim on a page boundary, and rounds the total
//! memory size up to a whole page.  [`BootInfo::calculate`] performs that
//! computation; a copy of the result is placed at a known physical address so
//! the shim can read it on entry.

use vstd::prelude::*;

use crate::span::{Line, Span};

verus! {

/// I/O port on which the shim triggers a VM exit to proxy a syscall.
pub const SYSCALL_TRIGGER_PORT: u16 = 0xFF;

/// Size of one page of guest memory.
pub const PAGE_SIZE: usize = 4096;

/// The setup area must fit below this boundary: the first 2 MiB of guest
/// memory are unencrypted shared memory.
pub const MAX_SETUP_SIZE: usize = 0x20_0000;

/// The maximum size of the secret blob injected into a SEV Keep.
pub const SEV_SECRET_MAX_SIZE: usize = 0x4000;

/// The secret blob injected into a SEV Keep; its content is chosen by the
/// party provisioning the Keep and is opaque to the loader.
#[derive(Clone, Debug)]
pub struct SevSecret {
    /// The secret bytes; at most [`SEV_SECRET_MAX_SIZE`] of them.
    pub data: Vec<u8>,
}

/// Error returned when the virtual machine memory is too small (or the
/// requested layout too large) for the shim to operate.
#[derive(Clone, Copy, Debug, PartialEq, Eq, Structural)]
pub struct NoMemory;

/// Basic information about host memory, reported to the shim.
#[derive(Clone, Copy, Debug, Default, PartialEq, Eq, Structural)]
pub struct MemInfo {
    /// Offset of the loader's virtual mapping relative to shim physical memory.
    pub virt_start: usize,
    /// Number of memory slots still available for ballooning.
    pub mem_slots: usize,
}

/// The largest multiple of `boundary` that is at most `value`.
pub open spec fn align_down(value: int, boundary: int) -> int {
    (value / boundary) * boundary
}

/// The smallest multiple of `boundary` that is at least `value`.
pub open spec fn align_up(value: int, boundary: int) -> int {
    align_down(value + boundary - 1, boundary)
}

/// What [`align_down`] yields: a multiple of the boundary, at most `value`
/// and less than one boundary below it.
pub proof fn lemma_align_down(value: int, boundary: int)
    by (nonlinear_arith)
    requires
        boundary >= 1,
        value >= 0,
    ensures
        align_down(value, boundary) % boundary == 0,
        align_down(value, boundary) <= value,
        value < align_down(value, boundary) + boundary,
        align_down(value, boundary) >= 0,
{
}

/// What [`align_up`] yields: a multiple of the boundary, at least `value`
/// and less than one boundary above it.
pub proof fn lemma_align_up(value: int, boundary: int)
    requires
        boundary >= 1,
        value >= 0,
    ensures
        align_up(value, boundary) % boundary == 0,
        value <= align_up(value, boundary),
        align_up(value, boundary) < value + boundary,
        align_up(value, boundary) >= 0,
{
    lemma_align_down(value + boundary - 1, boundary);
}

/// Round `value` down to a multiple of `boundary`.
pub fn lower(value: usize, boundary: usize) -> (r: usize)
    requires
        boundary >= 1,
    ensures
        r == align_down(value as int, boundary as int),
{
    proof {
        lemma_align_down(value as int, boundary as int);
    }
    value / boundary * boundary
}

/// Round `value` up to a multiple of `boundary`; `None` when even
/// `value + boundary` does not fit in `usize`.
pub fn raise(value: usize, boundary: usize) -> (r: Option<usize>)
    requires
        boundary >= 1,
    ensures
        r is Some <==> value + boundary <= usize::MAX,
        r is Some ==> r == Some(align_up(value as int, boundary as int) as usize),
{
    match value.checked_add(boundary) {
        Some(sum) => {
            proof {
                lemma_align_down(value as int + boundary as int - 1, boundary as int);
            }
            Some(lower(sum - 1, boundary))
        },
        None => None,
    }
}

/// The next span above `rel`: it starts at `rel.end` rounded up to `align`
/// and runs for `size` bytes.
pub fn above(rel: Line, size: usize, align: usize) -> (r: Option<Span>)
    requires
        align >= 1,
    ensures
        r is Some <==> rel.end + align <= usize::MAX,
        r is Some ==> r == Some(Span {
            start: align_up(rel.end as int, align as int) as usize,
            count: size,
        }),
{
    match raise(rel.end, align) {
        Some(start) => Some(Span { start, count: size }),
        None => None,
    }
}

/// Basic information the loader hands to the shim: where the setup area, the
/// shim and the payload code live, and how much guest memory there is.
#[derive(Clone, Copy, Debug, Default, PartialEq, Eq, Structural)]
pub struct BootInfo {
    /// Memory for the loader to place page tables, GDT, IDT and shared pages.
    pub setup: Line,
    /// Memory where the shim is / has to be loaded.
    pub shim: Line,
    /// Memory where the payload code is / has to be loaded.
    pub code: Line,
    /// Total guest memory size.
    pub mem_size: usize,
    /// Number of syscall blocks provided.
    pub nr_syscall_blocks: usize,
}

/// The layout [`BootInfo::calculate`] computes, or `None` when some step
/// overflows the address space.
pub open spec fn spec_calculate(setup: Line, shim: Span, code: Span) -> Option<BootInfo> {
    if setup.end + MAX_SETUP_SIZE > usize::MAX {
        None
    } else {
        let shim_start = align_up(setup.end as int, MAX_SETUP_SIZE as int);
        if shim_start + shim.count > usize::MAX {
            None
        } else {
            let shim_end = shim_start + shim.count;
            if shim_end + PAGE_SIZE > usize::MAX {
                None
            } else {
                let code_start = align_up(shim_end, PAGE_SIZE as int);
                if code_start + code.count > usize::MAX {
                    None
                } else {
                    let code_end = code_start + code.count;
                    if code_end + PAGE_SIZE > usize::MAX {
                        None
                    } else {
                        Some(BootInfo {
                            setup,
                            shim: Line { start: shim_start as usize, end: shim_end as usize },
                            code: Line { start: code_start as usize, end: code_end as usize },
                            mem_size: align_up(code_end, PAGE_SIZE as int) as usize,
                            nr_syscall_blocks: 0,
                        })
                    }
                }
            }
        }
    }
}

impl BootInfo {
    /// Calculates the memory layout of the Keep's components.
    ///
    /// Given the `setup` area and the sizes of the `shim` and `code`
    /// components, places the shim above the setup area on a 2 MiB boundary,
    /// the code above the shim on a page boundary, and rounds the memory
    /// size up to a whole page.  Any arithmetic overflow yields `NoMemory`.
    pub fn calculate(setup: Line, shim: Span, code: Span) -> (r: Result<BootInfo, NoMemory>)
        requires
            setup.end < MAX_SETUP_SIZE,
        ensures
            r is Ok <==> spec_calculate(setup, shim, code) is Some,
            r is Ok ==> spec_calculate(setup, shim, code) == Some(r->Ok_0),
    {
        proof {
            lemma_align_up(setup.end as int, MAX_SETUP_SIZE as int);
        }
        let shim_span = match above(setup, shim.count, MAX_SETUP_SIZE) {
            Some(s) => s,
            None => {
                return Err(NoMemory);
            },
        };
        let shim_line = match shim_span.to_line() {
            Some(l) => l,
            None => {
                return Err(NoMemory);
            },
        };
        proof {
            lemma_align_up(shim_line.end as int, PAGE_SIZE as int);
        }
        let code_span = match above(shim_line, code.count, PAGE_SIZE) {
            Some(s) => s,
            None => {
                return Err(NoMemory);
            },
        };
        let code_line = match code_span.to_line() {
            Some(l) => l,
            None => {
                return Err(NoMemory);
            },
        };
        let mem_size = match raise(code_line.end, PAGE_SIZE) {
            Some(m) => m,
            None => {
                return Err(NoMemory);
            },
        };
        Ok(BootInfo {
            setup,
            shim: shim_line,
            code: code_line,
            mem_size,
            nr_syscall_blocks: 0,
        })
    }
}

/// Layout monotonicity: whenever [`BootInfo::calculate`] succeeds, the
/// regions ascend (`setup.end <= shim.start <= shim.end <= code.start <=
/// code.end <= mem_size`), the shim starts on a 2 MiB boundary, and the code
/// start and the memory size are page-aligned.
pub proof fn lemma_calculate_monotone(setup: Line, shim: Span, code: Span)
    requires
        spec_calculate(setup, shim, code) is Some,
    ensures
        ({
            let b = spec_calculate(setup, shim, code)->Some_0;
            &&& setup.end <= b.shim.start
            &&& b.shim.start <= b.shim.end
            &&& b.shim.end <= b.code.start
            &&& b.code.start <= b.code.end
            &&& b.code.end <= b.mem_size
            &&& b.shim.start as int % MAX_SETUP_SIZE as int == 0
            &&& b.code.start as int % PAGE_SIZE as int == 0
            &&& b.mem_size as int % PAGE_SIZE as int == 0
        }),
{
    let shim_start = align_up(setup.end as int, MAX_SETUP_SIZE as int);
    let shim_end = shim_start + shim.count;
    let code_start = align_up(shim_end, PAGE_SIZE as int);
    let code_end = code_start + code.count;
    lemma_align_up(setup.end as int, MAX_SETUP_SIZE as int);
    lemma_align_up(shim_end, PAGE_SIZE as int);
    lemma_align_up(code_end, PAGE_SIZE as int);
}

} // verus!
