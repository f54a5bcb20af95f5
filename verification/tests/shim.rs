//! The SGX shim's exception handler, end to end against a scripted host.

use keepldr::block::{Block, Message, Reply, SYS_ENARX_CPUID, SYS_ENARX_ERESUME};
use keepldr::sgx::{FinishAction, Gpr, HandleStep, Handler, StateSaveArea, Vector};
use keepldr::span::Line;
use keepldr::syscall::{SyscallHandler, SYS_EXIT};
use keepldr::untrusted::MemoryMap;

const BLOCK_BASE: usize = 0x10000;
const PAYLOAD_BASE: usize = 0x2000_0000;

fn sys(payload: Vec<u8>) -> SyscallHandler {
    SyscallHandler {
        block: Block::new(BLOCK_BASE),
        map: MemoryMap { private: vec![Line { start: 0xa000_0000, end: 0xa010_0000 }] },
        payload_base: PAYLOAD_BASE,
        payload,
        pending: None,
    }
}

fn ssa_at(rip: usize, vector: Option<Vector>) -> StateSaveArea {
    StateSaveArea { gpr: Gpr { rip, exitinfo: vector, ..Gpr::default() } }
}

#[test]
fn finish_skips_the_trapped_instruction() {
    // After a serviced syscall or cpuid the instruction is not re-executed:
    // rip moves past the two bytes.
    let mut ssa = ssa_at(0x400, Some(Vector::InvalidOpcode));
    assert_eq!(Handler::finish(&mut ssa, 0x0f, 0x05), FinishAction::Resumed);
    assert_eq!(ssa.gpr.rip, 0x402);

    let mut ssa = ssa_at(0x400, Some(Vector::InvalidOpcode));
    assert_eq!(Handler::finish(&mut ssa, 0x0f, 0xa2), FinishAction::Resumed);
    assert_eq!(ssa.gpr.rip, 0x402);
}

#[test]
fn finish_terminates_on_anything_else() {
    // A stray opcode under an invalid-opcode trap.
    let mut ssa = ssa_at(0x400, Some(Vector::InvalidOpcode));
    assert_eq!(Handler::finish(&mut ssa, 0x90, 0x90), FinishAction::Terminate);
    assert_eq!(ssa.gpr.rip, 0x400);
    // Any other exception.
    let mut ssa = ssa_at(0x400, Some(Vector::GeneralProtection));
    assert_eq!(Handler::finish(&mut ssa, 0x0f, 0x05), FinishAction::Terminate);
}

#[test]
fn a_general_protection_fault_terminates() {
    // S6, shim half: an AEX with #GP makes the shim execute ud2.
    let h0 = sys(vec![0x0f, 0x05]);
    let mut h = Handler::new(ssa_at(PAYLOAD_BASE, Some(Vector::GeneralProtection)), h0);
    assert_eq!(h.handle(), HandleStep::Terminate);
}

#[test]
fn getpid_is_served_without_the_host() {
    // S3 through the trap handler: rax carries the number, the answer goes
    // back into rax, rdx is preserved, and the block asks for a plain
    // resume.
    let mut payload = vec![0u8; 16];
    payload[0] = 0x0f;
    payload[1] = 0x05;
    let mut ssa = ssa_at(PAYLOAD_BASE, Some(Vector::InvalidOpcode));
    ssa.gpr.rax = 39;
    ssa.gpr.rdx = 0x1234;
    let mut h = Handler::new(ssa, sys(payload));
    assert_eq!(h.handle(), HandleStep::Resumed);
    assert_eq!(h.ssa.gpr.rax, 1000);
    assert_eq!(h.ssa.gpr.rdx, 0x1234);
    assert_eq!(h.ssa.gpr.rip, PAYLOAD_BASE + 2);
    match h.sys.block.msg {
        Message::Req(q) => assert_eq!(q.num, SYS_ENARX_ERESUME),
        Message::Rep(_) => panic!("expected a resume request"),
    }
}

#[test]
fn write_round_trip_through_the_handler() {
    // S1 through the trap handler: the payload executes
    // write(2, "hi\n", 3); the host services the staged request; the
    // payload resumes with rax == 3 and its original rdx.
    let mut payload = vec![0u8; 16];
    payload[0] = 0x0f;
    payload[1] = 0x05;
    payload[8] = b'h';
    payload[9] = b'i';
    payload[10] = b'\n';
    let mut ssa = ssa_at(PAYLOAD_BASE, Some(Vector::InvalidOpcode));
    ssa.gpr.rax = 1;
    ssa.gpr.rdi = 2;
    ssa.gpr.rsi = PAYLOAD_BASE + 8;
    ssa.gpr.rdx = 3;
    let mut h = Handler::new(ssa, sys(payload));
    let q = match h.handle() {
        HandleStep::Proxy(q) => q,
        other => panic!("expected a proxied request, got {:?}", other),
    };
    assert_eq!(q.num, 1);
    assert_eq!(q.arg[0], 2);
    assert_eq!(q.arg[2], 3);
    assert_eq!(&h.sys.block.data[..3], b"hi\n");
    // The host writes the reply into the block and re-enters.
    h.sys.block.msg = Message::Rep(Reply { ret: [3, 0], err: 0 });
    assert_eq!(h.handle_resume(), HandleStep::Resumed);
    assert_eq!(h.ssa.gpr.rax, 3);
    assert_eq!(h.ssa.gpr.rdx, 3);
    assert_eq!(h.ssa.gpr.rip, PAYLOAD_BASE + 2);
}

#[test]
fn a_failed_syscall_returns_the_negated_errno() {
    let mut payload = vec![0x0f, 0x05];
    payload.resize(8, 0);
    let mut ssa = ssa_at(PAYLOAD_BASE, Some(Vector::InvalidOpcode));
    ssa.gpr.rax = 3;  // close
    ssa.gpr.rdi = 7;
    let mut h = Handler::new(ssa, sys(payload));
    match h.handle() {
        HandleStep::Proxy(q) => assert_eq!(q.num, 3),
        other => panic!("expected a proxied request, got {:?}", other),
    }
    h.sys.block.msg = Message::Rep(Reply { ret: [0, 0], err: -9 });
    assert_eq!(h.handle_resume(), HandleStep::Resumed);
    assert_eq!(h.ssa.gpr.rax, usize::MAX - 9 + 1);
}

#[test]
fn cpuid_goes_to_the_host_and_back() {
    // S2, shim half: the four result registers come back through the
    // request's argument words.
    let mut payload = vec![0x0f, 0xa2];
    payload.resize(8, 0);
    let mut ssa = ssa_at(PAYLOAD_BASE, Some(Vector::InvalidOpcode));
    ssa.gpr.rax = 1;
    ssa.gpr.rcx = 0;
    let mut h = Handler::new(ssa, sys(payload));
    let q = match h.handle() {
        HandleStep::Proxy(q) => q,
        other => panic!("expected a proxied request, got {:?}", other),
    };
    assert_eq!(q.num, SYS_ENARX_CPUID);
    assert_eq!(q.arg[0], 1);
    assert_eq!(q.arg[1], 0);
    // The host executed cpuid(1, 0) and wrote the registers back.
    let mut answered = q;
    answered.arg[0] = 0x000906ea;
    answered.arg[1] = 0x00100800;
    answered.arg[2] = 0x7ffafbff;
    answered.arg[3] = 0xbfebfbff;
    h.sys.block.msg = Message::Req(answered);
    assert_eq!(h.handle_resume(), HandleStep::Resumed);
    assert_eq!(h.ssa.gpr.rax, 0x000906ea);
    assert_eq!(h.ssa.gpr.rbx, 0x00100800);
    assert_eq!(h.ssa.gpr.rcx, 0x7ffafbff);
    assert_eq!(h.ssa.gpr.rdx, 0xbfebfbff);
    assert_eq!(h.ssa.gpr.rip, PAYLOAD_BASE + 2);
}

#[test]
fn a_stray_opcode_makes_the_payload_exit() {
    let mut payload = vec![0x90, 0x90];
    payload.resize(8, 0);
    let mut h = Handler::new(ssa_at(PAYLOAD_BASE, Some(Vector::InvalidOpcode)), sys(payload));
    match h.handle() {
        HandleStep::Proxy(q) => {
            assert_eq!(q.num, SYS_EXIT as u64);
            assert_eq!(q.arg[0], 1);
        },
        other => panic!("expected an exit request, got {:?}", other),
    }
}

#[test]
fn an_unreadable_instruction_pointer_terminates() {
    let mut h = Handler::new(ssa_at(0x100, Some(Vector::InvalidOpcode)), sys(vec![0u8; 8]));
    assert_eq!(h.handle(), HandleStep::Terminate);
}
