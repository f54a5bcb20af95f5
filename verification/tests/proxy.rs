//! The shared block, the untrusted-pointer discipline, and the shim-side
//! syscall dispatcher.

use keepldr::block::{
    Block, Message, Reply, Request, UntrustedRef, BLOCK_DATA_CAPACITY, MSG_SIZE, SYS_ENARX_GETATT,
};
use keepldr::span::Line;
use keepldr::syscall::{
    PendingKind, SyscallFinish, SyscallHandler, SyscallStep, EFAULT, EINVAL, ENOSYS, FAKE_PID,
    SYS_CLOSE, SYS_GETPID, SYS_MMAP, SYS_READ, SYS_WRITE,
};
use keepldr::untrusted::{MemoryMap, Validated};

const BLOCK_BASE: usize = 0x10000;
const PAYLOAD_BASE: usize = 0x2000_0000;

fn handler(payload: Vec<u8>) -> SyscallHandler {
    SyscallHandler {
        block: Block::new(BLOCK_BASE),
        map: MemoryMap { private: vec![Line { start: 0xa000_0000, end: 0xa010_0000 }] },
        payload_base: PAYLOAD_BASE,
        payload,
        pending: None,
    }
}

#[test]
fn validate_accepts_ranges_outside_private_memory() {
    let map = MemoryMap { private: vec![Line { start: 0x1000, end: 0x2000 }] };
    assert_eq!(
        map.validate(UntrustedRef { ptr: 0x2000, count: 0x100 }),
        Some(Validated { ptr: 0x2000, count: 0x100 })
    );
    assert_eq!(
        map.validate(UntrustedRef { ptr: 0xf00, count: 0x100 }),
        Some(Validated { ptr: 0xf00, count: 0x100 })
    );
}

#[test]
fn validate_rejects_overlap_and_wraparound() {
    let map = MemoryMap { private: vec![Line { start: 0x1000, end: 0x2000 }] };
    // Overlapping the private region from below, inside, and across.
    assert_eq!(map.validate(UntrustedRef { ptr: 0xf00, count: 0x200 }), None);
    assert_eq!(map.validate(UntrustedRef { ptr: 0x1800, count: 1 }), None);
    assert_eq!(map.validate(UntrustedRef { ptr: 0x800, count: 0x2000 }), None);
    // A range that wraps around the address space.
    assert_eq!(map.validate(UntrustedRef { ptr: usize::MAX - 10, count: 100 }), None);
}

#[test]
fn cursor_copy_keeps_the_length() {
    let mut block = Block::new(BLOCK_BASE);
    let cur = block.cursor();
    let (next, stage) = block.copy_from_slice(cur, b"hi\n").unwrap();
    assert_eq!(stage.count, 3);
    assert_eq!(stage.ptr, BLOCK_BASE + MSG_SIZE);
    assert_eq!(next.offset, 3);
    assert_eq!(&block.data[..3], b"hi\n");
    // A staged range lies in the shared block, outside any Keep-private map
    // that excludes the block.
    let map = MemoryMap { private: vec![Line { start: 0xa000_0000, end: 0xa010_0000 }] };
    assert!(map.validate(UntrustedRef { ptr: stage.ptr, count: stage.count }).is_some());
}

#[test]
fn cursor_copy_fails_without_buffer_space() {
    let mut block = Block::new(BLOCK_BASE);
    let cur = block.cursor();
    let big = vec![0u8; BLOCK_DATA_CAPACITY + 1];
    assert!(block.copy_from_slice(cur, &big).is_err());
    let exact = vec![7u8; BLOCK_DATA_CAPACITY];
    let (next, stage) = block.copy_from_slice(cur, &exact).unwrap();
    assert_eq!(next.offset, BLOCK_DATA_CAPACITY);
    assert_eq!(stage.count, BLOCK_DATA_CAPACITY);
}

#[test]
fn reply_encoding_negates_the_errno() {
    let rep = Reply::from_result(Err(EINVAL));
    assert_eq!(rep.err, -22);
    assert_eq!(rep.result(), Err(22));
    let ok = Reply::from_result(Ok([7, 9]));
    assert_eq!(ok.err, 0);
    assert_eq!(ok.result(), Ok([7, 9]));
}

#[test]
fn write_stages_the_payload_buffer() {
    // S1, shim half: write(2, "hi\n", 3) stages the bytes and builds the
    // request the host will see.
    let mut h = handler(b"hi\n".to_vec());
    let step = h.syscall(2, PAYLOAD_BASE, 3, 0, 0, 0, SYS_WRITE);
    let q = match step {
        SyscallStep::Proxy(q) => q,
        other => panic!("expected a proxied request, got {:?}", other),
    };
    assert_eq!(q.num, SYS_WRITE as u64);
    assert_eq!(q.arg[0], 2);
    assert_eq!(q.arg[1], (BLOCK_BASE + MSG_SIZE) as u64);
    assert_eq!(q.arg[2], 3);
    assert_eq!(&h.block.data[..3], b"hi\n");
    assert_eq!(h.block.msg, Message::Req(q));
    // The host writes three bytes; rdx carries the original third argument.
    let fin = h.syscall_resume(Reply { ret: [3, 0], err: 0 });
    assert_eq!(fin, SyscallFinish::Ready(Ok([3, 3])));
    assert!(h.pending.is_none());
}

#[test]
fn write_reply_over_contract_is_an_attack() {
    let mut h = handler(b"hi\n".to_vec());
    let _ = h.syscall(2, PAYLOAD_BASE, 3, 0, 0, 0, SYS_WRITE);
    // The host claims more bytes written than were staged.
    let fin = h.syscall_resume(Reply { ret: [4, 0], err: 0 });
    assert_eq!(fin, SyscallFinish::Attacked);
}

#[test]
fn write_with_a_bad_pointer_faults_locally() {
    let mut h = handler(b"hi\n".to_vec());
    // Below payload memory.
    let step = h.syscall(2, PAYLOAD_BASE - 0x1000, 3, 0, 0, 0, SYS_WRITE);
    assert_eq!(step, SyscallStep::Done(Err(EFAULT)));
    // Past its end.
    let step = h.syscall(2, PAYLOAD_BASE + 2, 3, 0, 0, 0, SYS_WRITE);
    assert_eq!(step, SyscallStep::Done(Err(EFAULT)));
    // Into the Keep-private map.
    let step = h.syscall(2, 0xa000_0100, 3, 0, 0, 0, SYS_WRITE);
    assert_eq!(step, SyscallStep::Done(Err(EFAULT)));
}

#[test]
fn read_copies_the_reply_back() {
    let mut h = handler(vec![0u8; 16]);
    let step = h.syscall(0, PAYLOAD_BASE + 4, 8, 0, 0, 0, SYS_READ);
    let q = match step {
        SyscallStep::Proxy(q) => q,
        other => panic!("expected a proxied request, got {:?}", other),
    };
    assert_eq!(q.num, 0);
    assert_eq!(q.arg[2], 8);
    assert_eq!(
        h.pending.unwrap().kind,
        PendingKind::Read { off: 0, idx: 4, staged: 8 }
    );
    // The host read five bytes into the landing area.
    for (i, b) in b"salad".iter().enumerate() {
        h.block.data[i] = *b;
    }
    let fin = h.syscall_resume(Reply { ret: [5, 0], err: 0 });
    assert_eq!(fin, SyscallFinish::Ready(Ok([5, 8])));
    assert_eq!(&h.payload[4..9], b"salad");
    assert_eq!(h.payload[0], 0);
    assert_eq!(h.payload[9], 0);
}

#[test]
fn read_reply_over_contract_is_an_attack() {
    let mut h = handler(vec![0u8; 16]);
    let _ = h.syscall(0, PAYLOAD_BASE, 8, 0, 0, 0, SYS_READ);
    let fin = h.syscall_resume(Reply { ret: [9, 0], err: 0 });
    assert_eq!(fin, SyscallFinish::Attacked);
}

#[test]
fn getpid_answers_locally_with_the_fake_identity() {
    // S3: no host round-trip; the result is the fake process id, and rdx is
    // preserved.
    let mut h = handler(Vec::new());
    let step = h.syscall(0, 0, 0x77, 0, 0, 0, SYS_GETPID);
    assert_eq!(step, SyscallStep::Done(Ok([FAKE_PID as u64, 0x77])));
    assert!(h.pending.is_none());
}

#[test]
fn identity_syscalls_answer_one_thousand() {
    let mut h = handler(Vec::new());
    for nr in [102usize, 104, 107, 108] {
        let step = h.syscall(0, 0, 0, 0, 0, 0, nr);
        assert_eq!(step, SyscallStep::Done(Ok([1000, 0])));
    }
}

#[test]
fn narrowing_coercions_fail_with_einval() {
    let mut h = handler(Vec::new());
    // mmap's protection word must fit a C int.
    let step = h.syscall(0, 0x1000, 1 << 40, 0, 0, 0, SYS_MMAP);
    assert_eq!(step, SyscallStep::Done(Err(EINVAL)));
    // write's file descriptor must fit a C int.
    let step = h.syscall(1 << 40, PAYLOAD_BASE, 0, 0, 0, 0, SYS_WRITE);
    assert_eq!(step, SyscallStep::Done(Err(EINVAL)));
}

#[test]
fn unknown_and_unmarshalled_numbers_answer_enosys() {
    let mut h = handler(Vec::new());
    assert_eq!(h.syscall(0, 0, 0, 0, 0, 0, 9999), SyscallStep::Done(Err(ENOSYS)));
    // mmap with clean arguments is recognized but not marshalled here.
    assert_eq!(h.syscall(0, 0x1000, 3, 34, 0, 0, SYS_MMAP), SyscallStep::Done(Err(ENOSYS)));
    // mremap is never dispatched: it answers as unknown.
    assert_eq!(h.syscall(0, 0, 0, 0, 0, 0, 25), SyscallStep::Done(Err(ENOSYS)));
}

#[test]
fn scalar_syscalls_forward_the_registers() {
    let mut h = handler(Vec::new());
    let step = h.syscall(5, 0, 0xabc, 0, 0, 0, SYS_CLOSE);
    let q = match step {
        SyscallStep::Proxy(q) => q,
        other => panic!("expected a proxied request, got {:?}", other),
    };
    assert_eq!(q.num, SYS_CLOSE as u64);
    assert_eq!(q.arg[0], 5);
    // An error from the host passes through unchanged.
    let fin = h.syscall_resume(Reply::from_result(Err(9)));
    assert_eq!(fin, SyscallFinish::Ready(Err(9)));
}

#[test]
fn attestation_stages_nonce_and_report_area() {
    let mut payload = vec![0u8; 64];
    payload[..4].copy_from_slice(b"salt");
    let mut h = handler(payload);
    let step = h.syscall(PAYLOAD_BASE, 4, PAYLOAD_BASE + 16, 32, 0, 0, SYS_ENARX_GETATT as usize);
    let q = match step {
        SyscallStep::Proxy(q) => q,
        other => panic!("expected a proxied request, got {:?}", other),
    };
    assert_eq!(q.num, SYS_ENARX_GETATT);
    assert_eq!(q.arg[0], (BLOCK_BASE + MSG_SIZE) as u64);
    assert_eq!(q.arg[1], 4);
    assert_eq!(q.arg[2], (BLOCK_BASE + MSG_SIZE + 4) as u64);
    assert_eq!(q.arg[3], 32);
    assert_eq!(&h.block.data[..4], b"salt");
    // The host wrote a 5-byte report behind the nonce.
    for (i, b) in b"quote".iter().enumerate() {
        h.block.data[4 + i] = *b;
    }
    let fin = h.syscall_resume(Reply { ret: [5, 0], err: 0 });
    assert_eq!(fin, SyscallFinish::Ready(Ok([5, 0])));
    assert_eq!(&h.payload[16..21], b"quote");
}

#[test]
fn request_new_fills_the_arguments() {
    let q = Request::new(1, 2, 3, 4, 5, 6, 7);
    assert_eq!(q.num, 1);
    assert_eq!(q.arg, [2, 3, 4, 5, 6, 7, 0]);
}
