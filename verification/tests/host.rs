//! The host side: the KVM thread loop, ballooning, the memory-slot list,
//! the SGX exit dispatcher, the executor's reply rule, and the slot pool.

use keepldr::backend::{dev_kvm, have, host_reply, kvm_version, Datum};
use keepldr::block::{
    Block, Message, Reply, Request, BLOCK_DATA_CAPACITY, SYS_ENARX_BALLOON_MEMORY, SYS_ENARX_CPUID,
    SYS_ENARX_ERESUME, SYS_ENARX_GETATT, SYS_ENARX_MEM_INFO,
};
use keepldr::bootinfo::SYSCALL_TRIGGER_PORT;
use keepldr::kvm::{
    balloon_prepare, read_regions, write_regions, BalloonPlan, Cpu, Keep, KvmExit, KvmRegion,
    MappedPages, ThreadStep,
};
use keepldr::sgx::Vector;
use keepldr::sgx_host::{
    apply_cpuid, attestation_complete, sgx_host_step, EnclaveExit, Entry, SgxStep,
};

const BLOCK_BASE: usize = 0x10000;

fn balloon_request(pow2: u64, npgs: u64, gpa: u64) -> Request {
    Request::new(SYS_ENARX_BALLOON_MEMORY, pow2, npgs, gpa, 0, 0, 0)
}

fn thread_with_request(q: Request) -> keepldr::kvm::Thread {
    let mut block = Block::new(BLOCK_BASE);
    block.msg = Message::Req(q);
    match (Keep { cpus: vec![Cpu { slot: 0, block }], memory: vec![], regions: vec![] }).spawn() {
        Some(t) => t,
        None => unreachable!(),
    }
}

#[test]
fn balloon_maps_new_memory() {
    // S5: a balloon request for two 4 KiB pages at 0x4000_0000 asks the host
    // for an 8 KiB mapping, and the reply carries the host-virtual base.
    let keep = &mut Keep::new();
    let mut t = thread_with_request(balloon_request(12, 2, 0x4000_0000));
    let step = t.enter(keep, KvmExit::IoOut { port: SYSCALL_TRIGGER_PORT }, 4096);
    assert_eq!(step, ThreadStep::Balloon(BalloonPlan { bytes: 8192, gpa: 0x4000_0000 }));
    // The host maps the pages into the VM and completes the request.
    let vaddr = keep.map(MappedPages { addr: 0x7f00_0000, len: 8192 }, 0x4000_0000);
    assert_eq!(vaddr, 0x7f00_0000);
    assert_eq!(keep.regions.len(), 1);
    assert_eq!(keep.regions[0].slot, 0);
    assert_eq!(keep.regions[0].guest_phys_addr, 0x4000_0000);
    assert_eq!(keep.regions[0].memory_size, 8192);
    assert_eq!(keep.regions[0].userspace_addr, 0x7f00_0000);
    t.balloon_complete(vaddr);
    let block = &t.cpu.as_ref().unwrap().block;
    match block.msg {
        Message::Rep(rep) => {
            assert_eq!(rep.err, 0);
            assert_eq!(rep.ret[0], 0x7f00_0000);
        },
        Message::Req(_) => panic!("expected a reply"),
    }
}

#[test]
fn balloon_rejects_a_foreign_page_size() {
    let keep = &mut Keep::new();
    // 2 MiB pages on a 4 KiB host.
    let mut t = thread_with_request(balloon_request(21, 2, 0x4000_0000));
    let step = t.enter(keep, KvmExit::IoOut { port: SYSCALL_TRIGGER_PORT }, 4096);
    assert_eq!(step, ThreadStep::Continue);
    match t.cpu.as_ref().unwrap().block.msg {
        Message::Rep(rep) => assert_eq!(rep.err, -22),
        Message::Req(_) => panic!("expected a reply"),
    }
}

#[test]
fn balloon_rejects_a_misaligned_address() {
    let req = balloon_request(12, 1, 0x4000_0100);
    assert_eq!(balloon_prepare(&req, 4096), Err(22));
    // A page-size exponent beyond the word is equally invalid.
    let req = balloon_request(64, 1, 0);
    assert_eq!(balloon_prepare(&req, 4096), Err(22));
    // An allocation beyond the address space is out of memory.
    let req = balloon_request(12, u64::MAX / 2, 0);
    assert_eq!(balloon_prepare(&req, 4096), Err(12));
}

#[test]
fn meminfo_writes_the_slot_list() {
    let mut keep = Keep::new();
    keep.map(MappedPages { addr: 0x7f00_0000, len: 0x2000 }, 0x4000 );
    let mut t = thread_with_request(Request::new(SYS_ENARX_MEM_INFO, 0, 0, 0, 0, 0, 0));
    let step = t.enter(&keep, KvmExit::IoOut { port: SYSCALL_TRIGGER_PORT }, 4096);
    assert_eq!(step, ThreadStep::Continue);
    let block = &t.cpu.as_ref().unwrap().block;
    match block.msg {
        Message::Rep(rep) => assert_eq!(rep.err, 0),
        Message::Req(_) => panic!("expected a reply"),
    }
    // One slot record, packed little-endian: slot, flags, gpa, size, addr.
    assert_eq!(&block.data[0..4], &[0, 0, 0, 0]);
    assert_eq!(&block.data[4..8], &[0, 0, 0, 0]);
    assert_eq!(&block.data[8..16], &0x4000u64.to_le_bytes());
    assert_eq!(&block.data[16..24], &0x2000u64.to_le_bytes());
    assert_eq!(&block.data[24..32], &0x7f00_0000u64.to_le_bytes());
}

#[test]
fn meminfo_fails_when_the_list_does_not_fit() {
    let mut block = Block::new(BLOCK_BASE);
    let cur = block.cursor();
    let region = KvmRegion {
        slot: 0,
        flags: 0,
        guest_phys_addr: 0,
        memory_size: 0,
        userspace_addr: 0,
    };
    // 126 records of 32 bytes fill the 4032-byte data area exactly.
    let fits = vec![region; BLOCK_DATA_CAPACITY / 32];
    assert!(write_regions(&mut block, cur, &fits).is_ok());
    let too_many = vec![region; BLOCK_DATA_CAPACITY / 32 + 1];
    assert_eq!(write_regions(&mut block, cur, &too_many), Err(105));
}

#[test]
fn the_slot_list_reads_back_as_written() {
    let mut block = Block::new(BLOCK_BASE);
    let cur = block.cursor();
    let regions = vec![
        KvmRegion {
            slot: 0,
            flags: 0,
            guest_phys_addr: 0x1000,
            memory_size: 0x2000,
            userspace_addr: 0x7f00_0000,
        },
        KvmRegion {
            slot: 1,
            flags: 0,
            guest_phys_addr: 0x4000_0000,
            memory_size: 0x2000,
            userspace_addr: 0x7f10_0000,
        },
    ];
    write_regions(&mut block, cur, &regions).unwrap();
    let back = read_regions(&block, cur, regions.len());
    assert_eq!(back, regions);
}

#[test]
fn non_trigger_exits_are_fatal() {
    let keep = &mut Keep::new();
    let mut t = thread_with_request(balloon_request(12, 1, 0));
    assert_eq!(t.enter(keep, KvmExit::Other, 4096), ThreadStep::Fatal);
    assert_eq!(t.enter(keep, KvmExit::IoOut { port: 0x80 }, 4096), ThreadStep::Fatal);
}

#[test]
fn other_requests_go_to_the_syscall_executor() {
    let keep = &mut Keep::new();
    let mut t = thread_with_request(Request::new(1, 2, 0, 3, 0, 0, 0));
    let step = t.enter(keep, KvmExit::IoOut { port: SYSCALL_TRIGGER_PORT }, 4096);
    assert_eq!(step, ThreadStep::SysCall);
}

#[test]
fn one_slot_is_held_by_at_most_one_thread() {
    // Leasing empties the pool slot by slot; a released slot is back.
    let mut keep = Keep::new();
    keep.cpus.push(Cpu { slot: 0, block: Block::new(BLOCK_BASE) });
    keep.cpus.push(Cpu { slot: 1, block: Block::new(BLOCK_BASE + 0x1000) });
    let t1 = keep.spawn().unwrap();
    let t2 = keep.spawn().unwrap();
    let s1 = t1.cpu.as_ref().unwrap().slot;
    let s2 = t2.cpu.as_ref().unwrap().slot;
    assert_ne!(s1, s2);
    assert!(keep.spawn().is_none());
    assert!(t2.release(&mut keep));
    let t3 = keep.spawn().unwrap();
    assert_eq!(t3.cpu.as_ref().unwrap().slot, s2);
}

#[test]
fn host_reply_preserves_rdx_for_linux_syscalls() {
    // The executor's half of the rdx rule: for a request below the internal
    // range, the second return register is the request's third argument.
    let req = Request::new(1, 2, 0x5000, 3, 0, 0, 0);
    let rep = host_reply(&req, 3);
    assert_eq!(rep.err, 0);
    assert_eq!(rep.ret[0], 3);
    assert_eq!(rep.ret[1], 3);
    // An internal request keeps ret[1] free.
    let req = Request::new(SYS_ENARX_GETATT, 0, 0, 7, 0, 0, 0);
    let rep = host_reply(&req, 64);
    assert_eq!(rep.ret[1], 0);
}

#[test]
fn host_reply_maps_failures_to_the_error_word() {
    let req = Request::new(1, 2, 0, 3, 0, 0, 0);
    let rep = host_reply(&req, -9);
    assert_eq!(rep.err, -9);
    assert_eq!(rep.result(), Err(9));
}

#[test]
fn sgx_exits_dispatch_by_request_number() {
    let mut block = Block::new(BLOCK_BASE);
    // An AEX on an invalid opcode re-enters the handler; any other trap is
    // fatal (S6, host half).
    assert_eq!(
        sgx_host_step(&block, EnclaveExit::Aex(Vector::InvalidOpcode)),
        SgxStep::ReEnter(Entry::Enter)
    );
    assert_eq!(
        sgx_host_step(&block, EnclaveExit::Aex(Vector::GeneralProtection)),
        SgxStep::Fatal
    );
    // The resume marker re-enters the payload without re-executing the
    // proxied instruction.
    block.msg = Message::Req(Request::new(SYS_ENARX_ERESUME, 0, 0, 0, 0, 0, 0));
    assert_eq!(
        sgx_host_step(&block, EnclaveExit::Normal),
        SgxStep::ReEnter(Entry::Resume)
    );
    // cpuid is executed by the host.
    block.msg = Message::Req(Request::new(SYS_ENARX_CPUID, 1, 0, 0, 0, 0, 0));
    assert_eq!(
        sgx_host_step(&block, EnclaveExit::Normal),
        SgxStep::DoCpuid { leaf: 1, subleaf: 0 }
    );
    // Attestation is host business too.
    block.msg = Message::Req(Request::new(SYS_ENARX_GETATT, 0, 0, 0, 0, 0, 0));
    assert_eq!(sgx_host_step(&block, EnclaveExit::Normal), SgxStep::GetAttestation);
    // Anything else is a Linux syscall.
    block.msg = Message::Req(Request::new(1, 2, 0, 3, 0, 0, 0));
    assert_eq!(sgx_host_step(&block, EnclaveExit::Normal), SgxStep::SysCall);
    // A cpuid argument beyond 32 bits is malformed.
    block.msg = Message::Req(Request::new(SYS_ENARX_CPUID, 1 << 40, 0, 0, 0, 0, 0));
    assert_eq!(sgx_host_step(&block, EnclaveExit::Normal), SgxStep::Fatal);
}

#[test]
fn cpuid_results_land_in_the_request_words() {
    // S2, host half.
    let mut block = Block::new(BLOCK_BASE);
    block.msg = Message::Req(Request::new(SYS_ENARX_CPUID, 1, 0, 0, 0, 0, 0));
    apply_cpuid(&mut block, 0x000906ea, 0x00100800, 0x7ffafbff, 0xbfebfbff);
    match block.msg {
        Message::Req(q) => {
            assert_eq!(q.num, SYS_ENARX_CPUID);
            assert_eq!(q.arg[0], 0x000906ea);
            assert_eq!(q.arg[1], 0x00100800);
            assert_eq!(q.arg[2], 0x7ffafbff);
            assert_eq!(q.arg[3], 0xbfebfbff);
        },
        Message::Rep(_) => panic!("expected the request back"),
    }
}

#[test]
fn attestation_reply_carries_the_length() {
    let mut block = Block::new(BLOCK_BASE);
    attestation_complete(&mut block, 432);
    match block.msg {
        Message::Rep(rep) => {
            assert_eq!(rep.err, 0);
            assert_eq!(rep.ret[0], 432);
        },
        Message::Req(_) => panic!("expected a reply"),
    }
}

#[test]
fn platform_data_reports_support() {
    let d = dev_kvm(true);
    assert_eq!(d.name, "Driver");
    assert!(d.pass);
    assert_eq!(d.info.as_deref(), Some("/dev/kvm"));
    let v = kvm_version(Some(12), "12".to_owned());
    assert!(v.pass);
    assert_eq!(v.info.as_deref(), Some("12"));
    assert!(!kvm_version(Some(11), "11".to_owned()).pass);
    assert!(!kvm_version(None, String::new()).pass);
    assert!(have(&vec![dev_kvm(true), kvm_version(Some(12), "12".to_owned())]));
    assert!(!have(&vec![dev_kvm(true), kvm_version(Some(11), "11".to_owned())]));
    assert!(have(&Vec::<Datum>::new()));
}

#[test]
fn reply_ignores_unused_argument_slots() {
    // A request built by the shim always zeroes its seventh word.
    let q = Request::new(SYS_ENARX_MEM_INFO, 0, 0, 0, 0, 0, 0);
    assert_eq!(q.arg[6], 0);
    let rep = Reply { ret: [5, 6], err: 0 };
    assert_eq!(rep.result(), Ok([5, 6]));
}
