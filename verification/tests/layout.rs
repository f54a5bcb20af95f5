//! The boot-time layout algebra and the SGX enclave layout.

use keepldr::bootinfo::{above, lower, raise, BootInfo, MAX_SETUP_SIZE, PAGE_SIZE};
use keepldr::sgx_build::{
    builder_plan, flags_of, relocate, Component, Layout, Perms, SegmentSrc, FLAG_R, FLAG_W, FLAG_X,
};
use keepldr::span::{Line, Span};

#[test]
fn lower_rounds_down() {
    assert_eq!(lower(0, 4096), 0);
    assert_eq!(lower(1, 4096), 0);
    assert_eq!(lower(4096, 4096), 4096);
    assert_eq!(lower(8191, 4096), 4096);
}

#[test]
fn raise_rounds_up() {
    assert_eq!(raise(0, 4096), Some(0));
    assert_eq!(raise(1, 4096), Some(4096));
    assert_eq!(raise(4096, 4096), Some(4096));
    assert_eq!(raise(4097, 4096), Some(8192));
    assert_eq!(raise(usize::MAX, 4096), None);
}

#[test]
fn above_starts_past_the_line() {
    let line = Line { start: 0, end: 0x1000 };
    assert_eq!(
        above(line, 0x10, MAX_SETUP_SIZE),
        Some(Span { start: 0x20_0000, count: 0x10 })
    );
}

#[test]
fn calculate_layout_for_small_components() {
    // The shim lands on the next 2 MiB boundary, the code on the next page,
    // and the memory size covers whole pages.
    let setup = Line { start: 0, end: 0x1000 };
    let shim = Span { start: 0, count: 0x10_0000 };
    let code = Span { start: 0, count: 0x10 };
    let info = BootInfo::calculate(setup, shim, code).unwrap();
    assert_eq!(info.shim.start, 0x20_0000);
    assert_eq!(info.shim.end, 0x30_0000);
    assert_eq!(info.code.start, 0x30_0000);
    assert_eq!(info.code.end, 0x30_0010);
    assert_eq!(info.mem_size, 0x30_1000);
    assert_eq!(info.setup, setup);
    assert_eq!(info.nr_syscall_blocks, 0);
}

#[test]
fn calculate_is_monotone_and_aligned() {
    let setup = Line { start: 0x500, end: 0x1f_0000 };
    let shim = Span { start: 0, count: 0x12_3456 };
    let code = Span { start: 0, count: 0x789 };
    let info = BootInfo::calculate(setup, shim, code).unwrap();
    assert!(setup.end <= info.shim.start);
    assert!(info.shim.start <= info.shim.end);
    assert!(info.shim.end <= info.code.start);
    assert!(info.code.start <= info.code.end);
    assert!(info.code.end <= info.mem_size);
    assert_eq!(info.shim.start % MAX_SETUP_SIZE, 0);
    assert_eq!(info.code.start % PAGE_SIZE, 0);
    assert_eq!(info.mem_size % PAGE_SIZE, 0);
}

#[test]
fn calculate_rejects_overflowing_layouts() {
    let setup = Line { start: 0, end: 0x1000 };
    let shim = Span { start: 0, count: usize::MAX - 0x10_0000 };
    let code = Span { start: 0, count: 0x10 };
    assert!(BootInfo::calculate(setup, shim, code).is_err());
}

#[test]
fn span_line_conversions() {
    assert_eq!(
        (Span { start: 4, count: 6 }).to_line(),
        Some(Line { start: 4, end: 10 })
    );
    assert_eq!((Span { start: 2, count: usize::MAX }).to_line(), None);
    assert_eq!(
        (Line { start: 4, end: 10 }).to_span(),
        Some(Span { start: 4, count: 6 })
    );
    assert_eq!((Line { start: 10, end: 4 }).to_span(), None);
}

#[test]
fn enclave_layout_fixed_order() {
    let layout = Layout::calculate(0, 0x1000, 0x1000, 0x10000, 0x8000).unwrap();
    assert_eq!(layout.prefix, Line { start: 0, end: 0x4000 });
    assert_eq!(layout.heap, Line { start: 0x4000, end: 0x14000 });
    assert_eq!(layout.stack, Line { start: 0x14000, end: 0x1c000 });
    assert_eq!(layout.shim, Line { start: 0x1c000, end: 0x1d000 });
    assert_eq!(layout.code, Line { start: 0x1d000, end: 0x1e000 });
    assert_eq!(layout.enclave, Line { start: 0, end: 0x1e000 });
}

#[test]
fn perm_flags_encode_bits() {
    let rwx = Perms { read: true, write: true, execute: true };
    let ro = Perms { read: true, write: false, execute: false };
    let rx = Perms { read: true, write: false, execute: true };
    assert_eq!(flags_of(rwx), FLAG_R | FLAG_W | FLAG_X);
    assert_eq!(flags_of(ro), FLAG_R);
    assert_eq!(flags_of(rx), FLAG_R | FLAG_X);
    assert_eq!(flags_of(Perms { read: false, write: false, execute: false }), 0);
}

#[test]
fn relocation_shifts_entry_and_segments() {
    let perms = Perms { read: true, write: false, execute: true };
    let c = Component {
        entry: 0x40,
        segments: vec![
            SegmentSrc { dst: 0x0, size: 0x1000, perms },
            SegmentSrc { dst: 0x2000, size: 0x800, perms },
        ],
    };
    let r = relocate(&c, 0x1c000).unwrap();
    assert_eq!(r.entry, 0x1c040);
    assert_eq!(r.segments[0].dst, 0x1c000);
    assert_eq!(r.segments[1].dst, 0x1e000);
    assert_eq!(r.segments[1].size, 0x800);
    assert!(relocate(&c, usize::MAX).is_none());
}

#[test]
fn build_plan_lists_the_enclave_segments() {
    let layout = Layout::calculate(0, 0x1000, 0x1000, 0x10000, 0x8000).unwrap();
    let perms = Perms { read: true, write: false, execute: true };
    let shim = Component {
        entry: 0x40,
        segments: vec![SegmentSrc { dst: 0, size: 0x1000, perms }],
    };
    let code = Component {
        entry: 0x10,
        segments: vec![SegmentSrc { dst: 0, size: 0x1000, perms }],
    };
    let plan = builder_plan(&layout, &shim, &code).unwrap();
    // The shim entry relative to the enclave start drives the TCS.
    assert_eq!(plan.tcs_entry_offset, 0x1c040);
    assert_eq!(plan.tcs_ssa_offset, 2 * PAGE_SIZE);
    assert_eq!(plan.nssa, 2);
    assert_eq!(plan.shim.entry, 0x1c040);
    assert_eq!(plan.code.entry, 0x1d010);
    assert_eq!(plan.internal.len(), 5);
    assert!(plan.internal[0].is_tcs);
    assert_eq!(plan.internal[0].dst, 0);
    assert_eq!(plan.internal[1].dst, PAGE_SIZE);
    assert_eq!(plan.internal[1].flags, FLAG_R);
    assert_eq!(plan.internal[2].dst, 2 * PAGE_SIZE);
    assert_eq!(plan.internal[2].pages, 2);
    assert_eq!(plan.internal[3].dst, 0x4000);
    assert_eq!(plan.internal[3].pages, 16);
    assert_eq!(plan.internal[3].flags, FLAG_R | FLAG_W | FLAG_X);
    assert_eq!(plan.internal[4].dst, 0x14000);
    assert_eq!(plan.internal[4].pages, 8);
    assert_eq!(plan.internal[4].flags, FLAG_R | FLAG_W);
}
