//! Laying out and loading an SGX enclave.
//!
//! The enclave's virtual range holds, in fixed order: a prefix (the TCS
//! page, a page carrying the layout itself, and two state-save-area pages),
//! the heap, the stack, the relocated shim and the relocated payload code.
//! [`Layout::calculate`] computes the ranges; [`builder_plan`] relocates the
//! components and lists every segment the enclave builder must load, with
//! its destination and page permissions.  Hashing and loading the segments
//! into the enclave is the embedding program's part.

use vstd::prelude::*;

use crate::bootinfo::{above, align_up, lemma_align_up, raise, NoMemory, PAGE_SIZE};
use crate::span::Line;

verus! {

/// Page permission: readable.
pub const FLAG_R: u8 = 1;

/// Page permission: writable.
pub const FLAG_W: u8 = 2;

/// Page permission: executable.
pub const FLAG_X: u8 = 4;

/// Pages in the enclave prefix: the TCS, the layout page, and two SSAs.
pub const PREFIX_PAGES: usize = 4;

/// A loadable segment's permissions.
#[derive(Clone, Copy, Debug, PartialEq, Eq, Structural)]
pub struct Perms {
    /// Readable.
    pub read: bool,
    /// Writable.
    pub write: bool,
    /// Executable.
    pub execute: bool,
}

/// The permission bits of a segment, as the enclave page flags encode
/// them: the three flag bits are distinct powers of two, so their sum is
/// their union.
pub open spec fn spec_flags_of(p: Perms) -> u8 {
    ((if p.read {
        1int
    } else {
        0int
    }) + (if p.write {
        2int
    } else {
        0int
    }) + (if p.execute {
        4int
    } else {
        0int
    })) as u8
}

/// Encode a segment's permissions as enclave page flags.
pub fn flags_of(p: Perms) -> (r: u8)
    ensures
        r == spec_flags_of(p),
{
    let mut r: u8 = 0;
    if p.read {
        r = r + FLAG_R;
    }
    if p.write {
        r = r + FLAG_W;
    }
    if p.execute {
        r = r + FLAG_X;
    }
    r
}

/// One loadable segment of a component: where it goes, how big it is, and
/// what the payload may do with it.
#[derive(Clone, Copy, Debug, PartialEq, Eq, Structural)]
pub struct SegmentSrc {
    /// The destination address.
    pub dst: usize,
    /// The segment's size in bytes.
    pub size: usize,
    /// The segment's permissions.
    pub perms: Perms,
}

/// A loadable component: its entry point and its segments.
#[derive(Clone, Debug)]
pub struct Component {
    /// The component's entry point.
    pub entry: usize,
    /// The component's loadable segments.
    pub segments: Vec<SegmentSrc>,
}

/// The memory layout of an enclave.
#[derive(Clone, Copy, Debug, Default, PartialEq, Eq, Structural)]
pub struct Layout {
    /// The whole enclave range.
    pub enclave: Line,
    /// The prefix: TCS, layout page, two SSAs.
    pub prefix: Line,
    /// The heap.
    pub heap: Line,
    /// The stack.
    pub stack: Line,
    /// Where the shim is loaded.
    pub shim: Line,
    /// Where the payload code is loaded.
    pub code: Line,
}

/// The layout [`Layout::calculate`] computes, or `None` when some step
/// overflows the address space.
pub open spec fn spec_layout(
    enclave_start: usize,
    shim_size: usize,
    code_size: usize,
    heap_size: usize,
    stack_size: usize,
) -> Option<Layout> {
    let prefix_end = enclave_start + PREFIX_PAGES * PAGE_SIZE;
    if prefix_end + PAGE_SIZE > usize::MAX {
        None
    } else {
        let heap_start = align_up(prefix_end, PAGE_SIZE as int);
        if heap_start + heap_size + PAGE_SIZE > usize::MAX {
            None
        } else {
            let stack_start = align_up(heap_start + heap_size, PAGE_SIZE as int);
            if stack_start + stack_size + PAGE_SIZE > usize::MAX {
                None
            } else {
                let shim_start = align_up(stack_start + stack_size, PAGE_SIZE as int);
                if shim_start + shim_size + PAGE_SIZE > usize::MAX {
                    None
                } else {
                    let code_start = align_up(shim_start + shim_size, PAGE_SIZE as int);
                    if code_start + code_size + PAGE_SIZE > usize::MAX {
                        None
                    } else {
                        let code_end = code_start + code_size;
                        Some(Layout {
                            enclave: Line {
                                start: enclave_start,
                                end: align_up(code_end, PAGE_SIZE as int) as usize,
                            },
                            prefix: Line { start: enclave_start, end: prefix_end as usize },
                            heap: Line {
                                start: heap_start as usize,
                                end: (heap_start + heap_size) as usize,
                            },
                            stack: Line {
                                start: stack_start as usize,
                                end: (stack_start + stack_size) as usize,
                            },
                            shim: Line {
                                start: shim_start as usize,
                                end: (shim_start + shim_size) as usize,
                            },
                            code: Line { start: code_start as usize, end: code_end as usize },
                        })
                    }
                }
            }
        }
    }
}

impl Layout {
    /// Compute the enclave layout: the prefix at the enclave's start, then
    /// heap, stack, shim and code, each on a page boundary, and the enclave
    /// range rounded up to whole pages.  Any arithmetic overflow yields
    /// `NoMemory`.
    pub fn calculate(
        enclave_start: usize,
        shim_size: usize,
        code_size: usize,
        heap_size: usize,
        stack_size: usize,
    ) -> (r: Result<Layout, NoMemory>)
        requires
            enclave_start as int % PAGE_SIZE as int == 0,
            enclave_start + PREFIX_PAGES * PAGE_SIZE <= usize::MAX,
        ensures
            r is Ok <==> spec_layout(enclave_start, shim_size, code_size, heap_size, stack_size)
                is Some,
            r is Ok ==> spec_layout(enclave_start, shim_size, code_size, heap_size, stack_size)
                == Some(r->Ok_0),
    {
        let prefix = Line { start: enclave_start, end: enclave_start + PREFIX_PAGES * PAGE_SIZE };
        proof {
            lemma_align_up(prefix.end as int, PAGE_SIZE as int);
        }
        let heap_line = match Self::place(prefix.end, heap_size) {
            Some(l) => l,
            None => {
                return Err(NoMemory);
            },
        };
        let stack_line = match Self::place(heap_line.end, stack_size) {
            Some(l) => l,
            None => {
                return Err(NoMemory);
            },
        };
        let shim_line = match Self::place(stack_line.end, shim_size) {
            Some(l) => l,
            None => {
                return Err(NoMemory);
            },
        };
        let code_line = match Self::place(shim_line.end, code_size) {
            Some(l) => l,
            None => {
                return Err(NoMemory);
            },
        };
        let enclave_end = match raise(code_line.end, PAGE_SIZE) {
            Some(e) => e,
            None => {
                return Err(NoMemory);
            },
        };
        Ok(
            Layout {
                enclave: Line { start: enclave_start, end: enclave_end },
                prefix,
                heap: heap_line,
                stack: stack_line,
                shim: shim_line,
                code: code_line,
            },
        )
    }

    /// The next region: it starts at `prev_end` rounded up to a page and
    /// runs for `size` bytes.  `None` when that overflows the address space.
    fn place(prev_end: usize, size: usize) -> (r: Option<Line>)
        ensures
            r is Some <==> align_up(prev_end as int, PAGE_SIZE as int) + size + PAGE_SIZE
                <= usize::MAX && prev_end + PAGE_SIZE <= usize::MAX,
            r matches Some(l) ==> l.start == align_up(prev_end as int, PAGE_SIZE as int) && l.end
                == l.start + size,
    {
        proof {
            lemma_align_up(prev_end as int, PAGE_SIZE as int);
        }
        let span = match above(Line { start: 0, end: prev_end }, size, PAGE_SIZE) {
            Some(s) => s,
            None => {
                return None;
            },
        };
        let line = match span.to_line() {
            Some(l) => l,
            None => {
                return None;
            },
        };
        if line.end > usize::MAX - PAGE_SIZE {
            return None;
        }
        Some(line)
    }
}

/// One segment the enclave builder must load: destination, page count,
/// page flags, and whether it is the TCS page.
#[derive(Clone, Copy, Debug, PartialEq, Eq, Structural)]
pub struct InternalSegment {
    /// The destination address.
    pub dst: usize,
    /// How many zeroed pages the segment spans.
    pub pages: usize,
    /// The enclave page flags.
    pub flags: u8,
    /// Whether the segment is the thread control structure page.
    pub is_tcs: bool,
}

/// Everything the enclave builder must load, with the TCS parameters.
#[derive(Clone, Debug)]
pub struct BuildPlan {
    /// The shim's entry point relative to the enclave's start.
    pub tcs_entry_offset: usize,
    /// Where the SSAs sit relative to the TCS: past the TCS and the layout
    /// page.
    pub tcs_ssa_offset: usize,
    /// The number of state save areas.
    pub nssa: u32,
    /// The prefix, heap and stack segments.
    pub internal: Vec<InternalSegment>,
    /// The shim, relocated to its place in the layout.
    pub shim: Component,
    /// The payload code, relocated to its place in the layout.
    pub code: Component,
}

/// Whether a component can be shifted by `offset` without leaving the
/// address space.
pub open spec fn reloc_fits(c: Component, offset: usize) -> bool {
    &&& c.entry + offset <= usize::MAX
    &&& forall|i: int|
        0 <= i < c.segments@.len() ==> (#[trigger] c.segments@[i]).dst + offset <= usize::MAX
}

/// Shift a component's entry point and segment destinations by `offset`;
/// `None` when some address would leave the address space.
pub fn relocate(c: &Component, offset: usize) -> (r: Option<Component>)
    ensures
        r is Some <==> reloc_fits(*c, offset),
        r matches Some(c2) ==> {
            &&& c2.entry == c.entry + offset
            &&& c2.segments@.len() == c.segments@.len()
            &&& forall|i: int|
                0 <= i < c.segments@.len() ==> (#[trigger] c2.segments@[i]) == (SegmentSrc {
                    dst: (c.segments@[i].dst + offset) as usize,
                    ..c.segments@[i]
                })
        },
{
    let entry = match c.entry.checked_add(offset) {
        Some(e) => e,
        None => {
            return None;
        },
    };
    let mut segments: Vec<SegmentSrc> = Vec::new();
    let mut i: usize = 0;
    while i < c.segments.len()
        invariant
            i <= c.segments@.len(),
            segments@.len() == i,
            forall|j: int| 0 <= j < i ==> (#[trigger] c.segments@[j]).dst + offset <= usize::MAX,
            forall|j: int|
                0 <= j < i ==> (#[trigger] segments@[j]) == (SegmentSrc {
                    dst: (c.segments@[j].dst + offset) as usize,
                    ..c.segments@[j]
                }),
        decreases c.segments@.len() - i,
    {
        let seg = c.segments[i];
        let dst = match seg.dst.checked_add(offset) {
            Some(d) => d,
            None => {
                return None;
            },
        };
        segments.push(SegmentSrc { dst, size: seg.size, perms: seg.perms });
        i += 1;
    }
    Some(Component { entry, segments })
}

/// A layout a build plan can be made from: the regions are well formed and
/// ordered, the prefix holds its four pages, and heap and stack are whole
/// pages.
pub open spec fn layout_fits(l: Layout) -> bool {
    &&& l.enclave.start <= l.prefix.start
    &&& l.prefix.end - l.prefix.start == PREFIX_PAGES * PAGE_SIZE
    &&& l.prefix.end <= l.heap.start
    &&& l.heap.wf()
    &&& (l.heap.end - l.heap.start) as int % PAGE_SIZE as int == 0
    &&& l.heap.end <= l.stack.start
    &&& l.stack.wf()
    &&& (l.stack.end - l.stack.start) as int % PAGE_SIZE as int == 0
    &&& l.stack.end <= l.shim.start
    &&& l.shim.end <= l.code.start
    &&& l.code.end <= l.enclave.end
}

/// A computed layout can be built from: whenever [`Layout::calculate`]
/// succeeds on whole-page heap and stack sizes, its result satisfies
/// [`layout_fits`].
pub proof fn lemma_calculate_fits(
    enclave_start: usize,
    shim_size: usize,
    code_size: usize,
    heap_size: usize,
    stack_size: usize,
)
    requires
        enclave_start as int % PAGE_SIZE as int == 0,
        heap_size as int % PAGE_SIZE as int == 0,
        stack_size as int % PAGE_SIZE as int == 0,
        spec_layout(enclave_start, shim_size, code_size, heap_size, stack_size) is Some,
    ensures
        layout_fits(
            spec_layout(enclave_start, shim_size, code_size, heap_size, stack_size)->Some_0,
        ),
{
    let prefix_end = enclave_start + PREFIX_PAGES * PAGE_SIZE;
    let heap_start = align_up(prefix_end, PAGE_SIZE as int);
    let stack_start = align_up(heap_start + heap_size, PAGE_SIZE as int);
    let shim_start = align_up(stack_start + stack_size, PAGE_SIZE as int);
    let code_start = align_up(shim_start + shim_size, PAGE_SIZE as int);
    lemma_align_up(prefix_end, PAGE_SIZE as int);
    lemma_align_up(heap_start + heap_size, PAGE_SIZE as int);
    lemma_align_up(stack_start + stack_size, PAGE_SIZE as int);
    lemma_align_up(shim_start + shim_size, PAGE_SIZE as int);
    lemma_align_up(code_start + code_size, PAGE_SIZE as int);
}

/// Relocate the shim and the code into the layout and list what the enclave
/// builder must load: the TCS page, the layout page, the two SSAs, the
/// zeroed heap and stack, and the two relocated components.  `NoMemory`
/// when a relocation leaves the address space.
pub fn builder_plan(layout: &Layout, shim: &Component, code: &Component) -> (r: Result<
    BuildPlan,
    NoMemory,
>)
    requires
        layout_fits(*layout),
        shim.entry + layout.shim.start <= usize::MAX,
    ensures
        r is Ok <==> reloc_fits(*shim, layout.shim.start) && reloc_fits(*code, layout.code.start),
        r matches Ok(p) ==> {
            &&& p.tcs_entry_offset == shim.entry + layout.shim.start - layout.enclave.start
            &&& p.tcs_ssa_offset == 2 * PAGE_SIZE
            &&& p.nssa == 2
            &&& p.shim.entry == shim.entry + layout.shim.start
            &&& p.code.entry == code.entry + layout.code.start
            &&& p.shim.segments@.len() == shim.segments@.len()
            &&& p.code.segments@.len() == code.segments@.len()
            &&& p.internal@.len() == 5
            &&& p.internal@[0] == (InternalSegment {
                dst: layout.prefix.start,
                pages: 1,
                flags: 0,
                is_tcs: true,
            })
            &&& p.internal@[1] == (InternalSegment {
                dst: (layout.prefix.start + PAGE_SIZE) as usize,
                pages: 1,
                flags: FLAG_R,
                is_tcs: false,
            })
            &&& p.internal@[2] == (InternalSegment {
                dst: (layout.prefix.start + 2 * PAGE_SIZE) as usize,
                pages: 2,
                flags: FLAG_R | FLAG_W,
                is_tcs: false,
            })
            &&& p.internal@[3] == (InternalSegment {
                dst: layout.heap.start,
                pages: (((layout.heap.end - layout.heap.start) as int) / (PAGE_SIZE as int)) as usize,
                flags: FLAG_R | FLAG_W | FLAG_X,
                is_tcs: false,
            })
            &&& p.internal@[4] == (InternalSegment {
                dst: layout.stack.start,
                pages: (((layout.stack.end - layout.stack.start) as int) / (PAGE_SIZE as int)) as usize,
                flags: FLAG_R | FLAG_W,
                is_tcs: false,
            })
        },
{
    let shim_reloc = match relocate(shim, layout.shim.start) {
        Some(c) => c,
        None => {
            return Err(NoMemory);
        },
    };
    let code_reloc = match relocate(code, layout.code.start) {
        Some(c) => c,
        None => {
            return Err(NoMemory);
        },
    };
    let mut internal: Vec<InternalSegment> = Vec::new();
    internal.push(InternalSegment { dst: layout.prefix.start, pages: 1, flags: 0, is_tcs: true });
    internal.push(
        InternalSegment {
            dst: layout.prefix.start + PAGE_SIZE,
            pages: 1,
            flags: FLAG_R,
            is_tcs: false,
        },
    );
    internal.push(
        InternalSegment {
            dst: layout.prefix.start + 2 * PAGE_SIZE,
            pages: 2,
            flags: FLAG_R | FLAG_W,
            is_tcs: false,
        },
    );
    internal.push(
        InternalSegment {
            dst: layout.heap.start,
            pages: (layout.heap.end - layout.heap.start) / PAGE_SIZE,
            flags: FLAG_R | FLAG_W | FLAG_X,
            is_tcs: false,
        },
    );
    internal.push(
        InternalSegment {
            dst: layout.stack.start,
            pages: (layout.stack.end - layout.stack.start) / PAGE_SIZE,
            flags: FLAG_R | FLAG_W,
            is_tcs: false,
        },
    );
    Ok(
        BuildPlan {
            tcs_entry_offset: shim_reloc.entry - layout.enclave.start,
            tcs_ssa_offset: 2 * PAGE_SIZE,
            nssa: 2,
            internal,
            shim: shim_reloc,
            code: code_reloc,
        },
    )
}

} // verus!
